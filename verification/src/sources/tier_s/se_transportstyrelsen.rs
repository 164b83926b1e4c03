use vstd::prelude::*;

use crate::error::SourceError;
use crate::models::SourceData;
use crate::sources::{is_country_code, DAY_SECS};

verus! {

/// Sweden — Transportstyrelsen (Swedish Transport Agency)
/// The Fordonsfrågans API requires Swedish e-identification (BankID) or an API key
/// issued to authorised parties. The public endpoint returns 401 without credentials.
pub struct SeTransportstyrelsen {
    client: reqwest::Client,
}

impl SeTransportstyrelsen {
    /// The client the source's requests are sent with.
    pub closed spec fn spec_client(&self) -> reqwest::Client {
        self.client
    }

    pub fn new(client: reqwest::Client) -> (s: Self)
        ensures
            s.spec_client() == client,
    {
        Self { client }
    }

    /// The client the source's requests are sent with.
    pub fn client(&self) -> (c: &reqwest::Client)
        ensures
            *c == self.spec_client(),
    {
        &self.client
    }

    /// Short machine-readable id.
    pub fn id(&self) -> (r: &'static str)
        ensures
            r@ == "se_transportstyrelsen"@,
    {
        "se_transportstyrelsen"
    }

    /// Country code of the source.
    pub fn country(&self) -> (r: &'static str)
        ensures
            r@ == "SE"@,
            is_country_code(r@),
    {
        proof {
            reveal_strlit("SE");
        }
        "SE"
    }

    /// Human-readable display name.
    pub fn name(&self) -> (r: &'static str)
        ensures
            r@ == "Transportstyrelsen (SE)"@,
    {
        "Transportstyrelsen (SE)"
    }

    /// How long a successful answer may be cached, in seconds.
    pub fn cache_ttl_secs(&self) -> (r: u64)
        ensures
            r == DAY_SECS,
    {
        DAY_SECS
    }

    /// Looking a VIN up here is not possible; the source reports why.
    pub fn fetch_by_vin(&self, vin: &str) -> (r: Result<SourceData, SourceError>)
        ensures
            r matches Err(SourceError::Unavailable(m)) && m@ == "Authentication required (Swedish e-ID or API key)"@,
    {
        Err(SourceError::Unavailable(String::from_str("Authentication required (Swedish e-ID or API key)")))
    }
}

} // verus!
