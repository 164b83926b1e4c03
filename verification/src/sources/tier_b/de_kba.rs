use vstd::prelude::*;

use crate::error::SourceError;
use crate::models::SourceData;
use crate::sources::{is_country_code, WEEK_SECS};

verus! {

/// Germany — KBA Rückrufdatenbank (Federal Motor Transport Authority recalls)
/// kba.de does not expose a public JSON API for VIN-based recall lookups.
/// German recalls are typically covered by EU Safety Gate (RAPEX).
pub struct DeKba {
    client: reqwest::Client,
}

impl DeKba {
    /// The client the source's requests are sent with.
    pub closed spec fn spec_client(&self) -> reqwest::Client {
        self.client
    }

    pub fn new(client: reqwest::Client) -> (s: Self)
        ensures
            s.spec_client() == client,
    {
        Self { client }
    }

    /// The client the source's requests are sent with.
    pub fn client(&self) -> (c: &reqwest::Client)
        ensures
            *c == self.spec_client(),
    {
        &self.client
    }

    /// Short machine-readable id.
    pub fn id(&self) -> (r: &'static str)
        ensures
            r@ == "de_kba"@,
    {
        "de_kba"
    }

    /// Country code of the source.
    pub fn country(&self) -> (r: &'static str)
        ensures
            r@ == "DE"@,
            is_country_code(r@),
    {
        proof {
            reveal_strlit("DE");
        }
        "DE"
    }

    /// Human-readable display name.
    pub fn name(&self) -> (r: &'static str)
        ensures
            r@ == "KBA Rückrufe (DE)"@,
    {
        "KBA Rückrufe (DE)"
    }

    /// How long a successful answer may be cached, in seconds.
    pub fn cache_ttl_secs(&self) -> (r: u64)
        ensures
            r == WEEK_SECS,
    {
        WEEK_SECS
    }

    /// Looking a VIN up here is not possible; the source reports why.
    pub fn fetch_by_vin(&self, vin: &str) -> (r: Result<SourceData, SourceError>)
        ensures
            r matches Err(SourceError::Unavailable(m)) && m@ == "No public VIN API; German recalls covered by EU Safety Gate"@,
    {
        Err(SourceError::Unavailable(String::from_str("No public VIN API; German recalls covered by EU Safety Gate")))
    }
}

} // verus!
