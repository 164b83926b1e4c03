use vstd::prelude::*;

use crate::error::SourceError;
use crate::models::SourceData;
use crate::sources::{is_country_code, DAY_SECS};

verus! {

/// Netherlands — RDW Open Data (Socrata)
/// The public dataset (m9d7-ebf2) is keyed by registration plate (kenteken), not VIN.
/// There is no chassisnummer column in the open dataset; VIN-based lookup is unavailable.
/// A plate-keyed lookup path (kenteken → APK history) could be added once we have a
/// cross-reference mechanism from VIN to plate.
pub struct NlRdw {
    client: reqwest::Client,
}

impl NlRdw {
    /// The client the source's requests are sent with.
    pub closed spec fn spec_client(&self) -> reqwest::Client {
        self.client
    }

    pub fn new(client: reqwest::Client) -> (s: Self)
        ensures
            s.spec_client() == client,
    {
        Self { client }
    }

    /// The client the source's requests are sent with.
    pub fn client(&self) -> (c: &reqwest::Client)
        ensures
            *c == self.spec_client(),
    {
        &self.client
    }

    /// Short machine-readable id.
    pub fn id(&self) -> (r: &'static str)
        ensures
            r@ == "nl_rdw"@,
    {
        "nl_rdw"
    }

    /// Country code of the source.
    pub fn country(&self) -> (r: &'static str)
        ensures
            r@ == "NL"@,
            is_country_code(r@),
    {
        proof {
            reveal_strlit("NL");
        }
        "NL"
    }

    /// Human-readable display name.
    pub fn name(&self) -> (r: &'static str)
        ensures
            r@ == "RDW Open Data"@,
    {
        "RDW Open Data"
    }

    /// How long a successful answer may be cached, in seconds.
    pub fn cache_ttl_secs(&self) -> (r: u64)
        ensures
            r == DAY_SECS,
    {
        DAY_SECS
    }

    /// Looking a VIN up here is not possible; the source reports why.
    pub fn fetch_by_vin(&self, vin: &str) -> (r: Result<SourceData, SourceError>)
        ensures
            r matches Err(SourceError::Unavailable(m)) && m@ == "RDW public dataset is plate-keyed; no VIN column available"@,
    {
        Err(SourceError::Unavailable(String::from_str("RDW public dataset is plate-keyed; no VIN column available")))
    }
}

} // verus!
