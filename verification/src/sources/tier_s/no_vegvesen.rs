use vstd::prelude::*;

use crate::error::SourceError;
use crate::models::SourceData;
use crate::sources::{is_country_code, DAY_SECS};

verus! {

/// Norway — Statens vegvesen (vehicle register)
/// The public API at vegvesen.no returns HTTP 401 and requires a Bearer token
/// issued via the Maskinporten OAuth2 service (for registered organisations only).
pub struct NoVegvesen {
    client: reqwest::Client,
}

impl NoVegvesen {
    /// The client the source's requests are sent with.
    pub closed spec fn spec_client(&self) -> reqwest::Client {
        self.client
    }

    pub fn new(client: reqwest::Client) -> (s: Self)
        ensures
            s.spec_client() == client,
    {
        Self { client }
    }

    /// The client the source's requests are sent with.
    pub fn client(&self) -> (c: &reqwest::Client)
        ensures
            *c == self.spec_client(),
    {
        &self.client
    }

    /// Short machine-readable id.
    pub fn id(&self) -> (r: &'static str)
        ensures
            r@ == "no_vegvesen"@,
    {
        "no_vegvesen"
    }

    /// Country code of the source.
    pub fn country(&self) -> (r: &'static str)
        ensures
            r@ == "NO"@,
            is_country_code(r@),
    {
        proof {
            reveal_strlit("NO");
        }
        "NO"
    }

    /// Human-readable display name.
    pub fn name(&self) -> (r: &'static str)
        ensures
            r@ == "Vegvesen (NO)"@,
    {
        "Vegvesen (NO)"
    }

    /// How long a successful answer may be cached, in seconds.
    pub fn cache_ttl_secs(&self) -> (r: u64)
        ensures
            r == DAY_SECS,
    {
        DAY_SECS
    }

    /// Looking a VIN up here is not possible; the source reports why.
    pub fn fetch_by_vin(&self, vin: &str) -> (r: Result<SourceData, SourceError>)
        ensures
            r matches Err(SourceError::Unavailable(m)) && m@ == "Authentication required (Maskinporten Bearer token)"@,
    {
        Err(SourceError::Unavailable(String::from_str("Authentication required (Maskinporten Bearer token)")))
    }
}

} // verus!
