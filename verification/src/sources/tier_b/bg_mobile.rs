use vstd::prelude::*;

use crate::error::SourceError;
use crate::models::SourceData;
use crate::sources::{is_country_code, WEEK_SECS};

verus! {

/// Bulgaria — IAMA (Infrastructure Agency) / KAT vehicle register
/// No public JSON API verified for VIN-based lookup. The portal is web-form based.
pub struct BgMobile {
    client: reqwest::Client,
}

impl BgMobile {
    /// The client the source's requests are sent with.
    pub closed spec fn spec_client(&self) -> reqwest::Client {
        self.client
    }

    pub fn new(client: reqwest::Client) -> (s: Self)
        ensures
            s.spec_client() == client,
    {
        Self { client }
    }

    /// The client the source's requests are sent with.
    pub fn client(&self) -> (c: &reqwest::Client)
        ensures
            *c == self.spec_client(),
    {
        &self.client
    }

    /// Short machine-readable id.
    pub fn id(&self) -> (r: &'static str)
        ensures
            r@ == "bg_mobile"@,
    {
        "bg_mobile"
    }

    /// Country code of the source.
    pub fn country(&self) -> (r: &'static str)
        ensures
            r@ == "BG"@,
            is_country_code(r@),
    {
        proof {
            reveal_strlit("BG");
        }
        "BG"
    }

    /// Human-readable display name.
    pub fn name(&self) -> (r: &'static str)
        ensures
            r@ == "IAMA (BG)"@,
    {
        "IAMA (BG)"
    }

    /// How long a successful answer may be cached, in seconds.
    pub fn cache_ttl_secs(&self) -> (r: u64)
        ensures
            r == WEEK_SECS,
    {
        WEEK_SECS
    }

    /// Looking a VIN up here is not possible; the source reports why.
    pub fn fetch_by_vin(&self, vin: &str) -> (r: Result<SourceData, SourceError>)
        ensures
            r matches Err(SourceError::Unavailable(m)) && m@ == "No verified public VIN API for Bulgarian vehicle register"@,
    {
        Err(SourceError::Unavailable(String::from_str("No verified public VIN API for Bulgarian vehicle register")))
    }
}

} // verus!
