use vstd::prelude::*;

use crate::error::SourceError;
use crate::models::SourceData;
use crate::sources::{is_country_code, DAY_SECS};

verus! {

/// Estonia — Transpordiamet (Transport Administration)
/// The eteenindus.mnt.ee portal is web-form based. Tested VIN paths return 404.
/// No public JSON API endpoint verified.
pub struct EeTranspordiamet {
    client: reqwest::Client,
}

impl EeTranspordiamet {
    /// The client the source's requests are sent with.
    pub closed spec fn spec_client(&self) -> reqwest::Client {
        self.client
    }

    pub fn new(client: reqwest::Client) -> (s: Self)
        ensures
            s.spec_client() == client,
    {
        Self { client }
    }

    /// The client the source's requests are sent with.
    pub fn client(&self) -> (c: &reqwest::Client)
        ensures
            *c == self.spec_client(),
    {
        &self.client
    }

    /// Short machine-readable id.
    pub fn id(&self) -> (r: &'static str)
        ensures
            r@ == "ee_transpordiamet"@,
    {
        "ee_transpordiamet"
    }

    /// Country code of the source.
    pub fn country(&self) -> (r: &'static str)
        ensures
            r@ == "EE"@,
            is_country_code(r@),
    {
        proof {
            reveal_strlit("EE");
        }
        "EE"
    }

    /// Human-readable display name.
    pub fn name(&self) -> (r: &'static str)
        ensures
            r@ == "Transpordiamet (EE)"@,
    {
        "Transpordiamet (EE)"
    }

    /// How long a successful answer may be cached, in seconds.
    pub fn cache_ttl_secs(&self) -> (r: u64)
        ensures
            r == DAY_SECS,
    {
        DAY_SECS
    }

    /// Looking a VIN up here is not possible; the source reports why.
    pub fn fetch_by_vin(&self, vin: &str) -> (r: Result<SourceData, SourceError>)
        ensures
            r matches Err(SourceError::Unavailable(m)) && m@ == "No verified public VIN API for Estonian Transport Administration"@,
    {
        Err(SourceError::Unavailable(String::from_str("No verified public VIN API for Estonian Transport Administration")))
    }
}

} // verus!
