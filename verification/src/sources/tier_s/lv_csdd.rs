use vstd::prelude::*;

use crate::error::SourceError;
use crate::models::SourceData;
use crate::sources::{is_country_code, DAY_SECS};

verus! {

/// Latvia — CSDD (Road Traffic Safety Directorate)
/// The e.csdd.lv portal requires authentication. Tested VIN API paths return 403.
pub struct LvCsdd {
    client: reqwest::Client,
}

impl LvCsdd {
    /// The client the source's requests are sent with.
    pub closed spec fn spec_client(&self) -> reqwest::Client {
        self.client
    }

    pub fn new(client: reqwest::Client) -> (s: Self)
        ensures
            s.spec_client() == client,
    {
        Self { client }
    }

    /// The client the source's requests are sent with.
    pub fn client(&self) -> (c: &reqwest::Client)
        ensures
            *c == self.spec_client(),
    {
        &self.client
    }

    /// Short machine-readable id.
    pub fn id(&self) -> (r: &'static str)
        ensures
            r@ == "lv_csdd"@,
    {
        "lv_csdd"
    }

    /// Country code of the source.
    pub fn country(&self) -> (r: &'static str)
        ensures
            r@ == "LV"@,
            is_country_code(r@),
    {
        proof {
            reveal_strlit("LV");
        }
        "LV"
    }

    /// Human-readable display name.
    pub fn name(&self) -> (r: &'static str)
        ensures
            r@ == "CSDD (LV)"@,
    {
        "CSDD (LV)"
    }

    /// How long a successful answer may be cached, in seconds.
    pub fn cache_ttl_secs(&self) -> (r: u64)
        ensures
            r == DAY_SECS,
    {
        DAY_SECS
    }

    /// Looking a VIN up here is not possible; the source reports why.
    pub fn fetch_by_vin(&self, vin: &str) -> (r: Result<SourceData, SourceError>)
        ensures
            r matches Err(SourceError::Unavailable(m)) && m@ == "Authentication required (CSDD portal login)"@,
    {
        Err(SourceError::Unavailable(String::from_str("Authentication required (CSDD portal login)")))
    }
}

} // verus!
