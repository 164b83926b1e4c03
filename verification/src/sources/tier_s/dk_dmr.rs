use vstd::prelude::*;

use crate::error::SourceError;
use crate::models::SourceData;
use crate::sources::{is_country_code, DAY_SECS};

verus! {

/// Denmark — DMR Motorregister
/// The official Motorregisteret (SKAT) has no public VIN API.
/// Third-party aggregators (altombilen.dk, bilinfo.dk) do not expose a verified
/// public JSON endpoint. Plate-based lookups only.
pub struct DkDmr {
    client: reqwest::Client,
}

impl DkDmr {
    /// The client the source's requests are sent with.
    pub closed spec fn spec_client(&self) -> reqwest::Client {
        self.client
    }

    pub fn new(client: reqwest::Client) -> (s: Self)
        ensures
            s.spec_client() == client,
    {
        Self { client }
    }

    /// The client the source's requests are sent with.
    pub fn client(&self) -> (c: &reqwest::Client)
        ensures
            *c == self.spec_client(),
    {
        &self.client
    }

    /// Short machine-readable id.
    pub fn id(&self) -> (r: &'static str)
        ensures
            r@ == "dk_dmr"@,
    {
        "dk_dmr"
    }

    /// Country code of the source.
    pub fn country(&self) -> (r: &'static str)
        ensures
            r@ == "DK"@,
            is_country_code(r@),
    {
        proof {
            reveal_strlit("DK");
        }
        "DK"
    }

    /// Human-readable display name.
    pub fn name(&self) -> (r: &'static str)
        ensures
            r@ == "DMR Motorregister (DK)"@,
    {
        "DMR Motorregister (DK)"
    }

    /// How long a successful answer may be cached, in seconds.
    pub fn cache_ttl_secs(&self) -> (r: u64)
        ensures
            r == DAY_SECS,
    {
        DAY_SECS
    }

    /// Looking a VIN up here is not possible; the source reports why.
    pub fn fetch_by_vin(&self, vin: &str) -> (r: Result<SourceData, SourceError>)
        ensures
            r matches Err(SourceError::Unavailable(m)) && m@ == "No verified public VIN API for Danish Motorregister"@,
    {
        Err(SourceError::Unavailable(String::from_str("No verified public VIN API for Danish Motorregister")))
    }
}

} // verus!
