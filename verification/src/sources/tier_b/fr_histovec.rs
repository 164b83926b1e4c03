use vstd::prelude::*;

use crate::error::SourceError;
use crate::models::SourceData;
use crate::sources::{is_country_code, WEEK_SECS};

verus! {

/// France — HistoVec (Ministère de l'Intérieur)
/// The full "Rapport Complet" requires the vehicle owner to generate a share token.
/// The public API does not support anonymous VIN-only lookups.
pub struct FrHistovec {
    client: reqwest::Client,
}

impl FrHistovec {
    /// The client the source's requests are sent with.
    pub closed spec fn spec_client(&self) -> reqwest::Client {
        self.client
    }

    pub fn new(client: reqwest::Client) -> (s: Self)
        ensures
            s.spec_client() == client,
    {
        Self { client }
    }

    /// The client the source's requests are sent with.
    pub fn client(&self) -> (c: &reqwest::Client)
        ensures
            *c == self.spec_client(),
    {
        &self.client
    }

    /// Short machine-readable id.
    pub fn id(&self) -> (r: &'static str)
        ensures
            r@ == "fr_histovec"@,
    {
        "fr_histovec"
    }

    /// Country code of the source.
    pub fn country(&self) -> (r: &'static str)
        ensures
            r@ == "FR"@,
            is_country_code(r@),
    {
        proof {
            reveal_strlit("FR");
        }
        "FR"
    }

    /// Human-readable display name.
    pub fn name(&self) -> (r: &'static str)
        ensures
            r@ == "HistoVec (FR)"@,
    {
        "HistoVec (FR)"
    }

    /// How long a successful answer may be cached, in seconds.
    pub fn cache_ttl_secs(&self) -> (r: u64)
        ensures
            r == WEEK_SECS,
    {
        WEEK_SECS
    }

    /// Looking a VIN up here is not possible; the source reports why.
    pub fn fetch_by_vin(&self, vin: &str) -> (r: Result<SourceData, SourceError>)
        ensures
            r matches Err(SourceError::Unavailable(m)) && m@ == "Owner share token required; anonymous VIN lookup not supported"@,
    {
        Err(SourceError::Unavailable(String::from_str("Owner share token required; anonymous VIN lookup not supported")))
    }
}

} // verus!
