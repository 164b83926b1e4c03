use vstd::prelude::*;

use crate::error::SourceError;
use crate::models::SourceData;
use crate::sources::{is_country_code, DAY_SECS};

verus! {

/// Italy — ACI / Portale dell'Automobilista
/// Vincoli (encumbrance) and history lookups are plate-based (targa).
/// No public VIN-based JSON API endpoint verified.
pub struct ItAci {
    client: reqwest::Client,
}

impl ItAci {
    /// The client the source's requests are sent with.
    pub closed spec fn spec_client(&self) -> reqwest::Client {
        self.client
    }

    pub fn new(client: reqwest::Client) -> (s: Self)
        ensures
            s.spec_client() == client,
    {
        Self { client }
    }

    /// The client the source's requests are sent with.
    pub fn client(&self) -> (c: &reqwest::Client)
        ensures
            *c == self.spec_client(),
    {
        &self.client
    }

    /// Short machine-readable id.
    pub fn id(&self) -> (r: &'static str)
        ensures
            r@ == "it_aci"@,
    {
        "it_aci"
    }

    /// Country code of the source.
    pub fn country(&self) -> (r: &'static str)
        ensures
            r@ == "IT"@,
            is_country_code(r@),
    {
        proof {
            reveal_strlit("IT");
        }
        "IT"
    }

    /// Human-readable display name.
    pub fn name(&self) -> (r: &'static str)
        ensures
            r@ == "ACI (IT)"@,
    {
        "ACI (IT)"
    }

    /// How long a successful answer may be cached, in seconds.
    pub fn cache_ttl_secs(&self) -> (r: u64)
        ensures
            r == DAY_SECS,
    {
        DAY_SECS
    }

    /// Looking a VIN up here is not possible; the source reports why.
    pub fn fetch_by_vin(&self, vin: &str) -> (r: Result<SourceData, SourceError>)
        ensures
            r matches Err(SourceError::Unavailable(m)) && m@ == "Plate-based only; ACI portal requires targa (Italian plate)"@,
    {
        Err(SourceError::Unavailable(String::from_str("Plate-based only; ACI portal requires targa (Italian plate)")))
    }
}

} // verus!
