use vstd::prelude::*;

use crate::error::SourceError;
use crate::models::SourceData;
use crate::sources::{is_country_code, DAY_SECS};

verus! {

/// Czech Republic — Kontrola Tachometru / MDCR STK database
/// Web-form based service. No public JSON API verified for VIN-based lookup.
/// Returns 404 for all tested VIN paths.
pub struct CzKontrolaTachometru {
    client: reqwest::Client,
}

impl CzKontrolaTachometru {
    /// The client the source's requests are sent with.
    pub closed spec fn spec_client(&self) -> reqwest::Client {
        self.client
    }

    pub fn new(client: reqwest::Client) -> (s: Self)
        ensures
            s.spec_client() == client,
    {
        Self { client }
    }

    /// The client the source's requests are sent with.
    pub fn client(&self) -> (c: &reqwest::Client)
        ensures
            *c == self.spec_client(),
    {
        &self.client
    }

    /// Short machine-readable id.
    pub fn id(&self) -> (r: &'static str)
        ensures
            r@ == "cz_kontrolatachometru"@,
    {
        "cz_kontrolatachometru"
    }

    /// Country code of the source.
    pub fn country(&self) -> (r: &'static str)
        ensures
            r@ == "CZ"@,
            is_country_code(r@),
    {
        proof {
            reveal_strlit("CZ");
        }
        "CZ"
    }

    /// Human-readable display name.
    pub fn name(&self) -> (r: &'static str)
        ensures
            r@ == "KontrolaTachometru (CZ)"@,
    {
        "KontrolaTachometru (CZ)"
    }

    /// How long a successful answer may be cached, in seconds.
    pub fn cache_ttl_secs(&self) -> (r: u64)
        ensures
            r == DAY_SECS,
    {
        DAY_SECS
    }

    /// Looking a VIN up here is not possible; the source reports why.
    pub fn fetch_by_vin(&self, vin: &str) -> (r: Result<SourceData, SourceError>)
        ensures
            r matches Err(SourceError::Unavailable(m)) && m@ == "No verified public VIN API for Czech STK database"@,
    {
        Err(SourceError::Unavailable(String::from_str("No verified public VIN API for Czech STK database")))
    }
}

} // verus!
