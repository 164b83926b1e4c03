use vstd::prelude::*;

use crate::error::SourceError;
use crate::models::SourceData;
use crate::sources::{is_country_code, DAY_SECS};

verus! {

/// Ukraine — HSC (Humanitarian Service Centre) open data
/// opendata.hsc.gov.ua returns "Access Denied" (Akamai WAF) from non-Ukrainian IPs.
/// Geo-restricted; not accessible from VPS or other external infrastructure.
pub struct UaHsc {
    client: reqwest::Client,
}

impl UaHsc {
    /// The client the source's requests are sent with.
    pub closed spec fn spec_client(&self) -> reqwest::Client {
        self.client
    }

    pub fn new(client: reqwest::Client) -> (s: Self)
        ensures
            s.spec_client() == client,
    {
        Self { client }
    }

    /// The client the source's requests are sent with.
    pub fn client(&self) -> (c: &reqwest::Client)
        ensures
            *c == self.spec_client(),
    {
        &self.client
    }

    /// Short machine-readable id.
    pub fn id(&self) -> (r: &'static str)
        ensures
            r@ == "ua_hsc"@,
    {
        "ua_hsc"
    }

    /// Country code of the source.
    pub fn country(&self) -> (r: &'static str)
        ensures
            r@ == "UA"@,
            is_country_code(r@),
    {
        proof {
            reveal_strlit("UA");
        }
        "UA"
    }

    /// Human-readable display name.
    pub fn name(&self) -> (r: &'static str)
        ensures
            r@ == "HSC Open Data (UA)"@,
    {
        "HSC Open Data (UA)"
    }

    /// How long a successful answer may be cached, in seconds.
    pub fn cache_ttl_secs(&self) -> (r: u64)
        ensures
            r == DAY_SECS,
    {
        DAY_SECS
    }

    /// Looking a VIN up here is not possible; the source reports why.
    pub fn fetch_by_vin(&self, vin: &str) -> (r: Result<SourceData, SourceError>)
        ensures
            r matches Err(SourceError::Unavailable(m)) && m@ == "Geo-restricted — API blocked outside Ukraine"@,
    {
        Err(SourceError::Unavailable(String::from_str("Geo-restricted — API blocked outside Ukraine")))
    }
}

} // verus!
