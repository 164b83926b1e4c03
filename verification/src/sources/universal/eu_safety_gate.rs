use vstd::prelude::*;

use crate::error::SourceError;
use crate::models::SourceData;
use crate::sources::{is_country_code, WEEK_SECS};

verus! {

/// EU Safety Gate (ex-RAPEX) — model-level recall alerts.
/// VIN-keyed lookup is not possible; this source is used for
/// make/model enrichment after VIN decode.
pub struct EuSafetyGate {
    client: reqwest::Client,
}

impl EuSafetyGate {
    /// The client the source's requests are sent with.
    pub closed spec fn spec_client(&self) -> reqwest::Client {
        self.client
    }

    pub fn new(client: reqwest::Client) -> (s: Self)
        ensures
            s.spec_client() == client,
    {
        Self { client }
    }

    /// The client the source's requests are sent with.
    pub fn client(&self) -> (c: &reqwest::Client)
        ensures
            *c == self.spec_client(),
    {
        &self.client
    }

    /// Short machine-readable id.
    pub fn id(&self) -> (r: &'static str)
        ensures
            r@ == "eu_safety_gate"@,
    {
        "eu_safety_gate"
    }

    /// Country code of the source.
    pub fn country(&self) -> (r: &'static str)
        ensures
            r@ == "EU"@,
            is_country_code(r@),
    {
        proof {
            reveal_strlit("EU");
        }
        "EU"
    }

    /// Human-readable display name.
    pub fn name(&self) -> (r: &'static str)
        ensures
            r@ == "EU Safety Gate"@,
    {
        "EU Safety Gate"
    }

    /// How long a successful answer may be cached, in seconds.
    pub fn cache_ttl_secs(&self) -> (r: u64)
        ensures
            r == WEEK_SECS,
    {
        WEEK_SECS
    }

    /// The Safety Gate cannot be searched by VIN; a lookup contributes nothing
    /// (model-level alerts are matched after the VIN is decoded).
    pub fn fetch_by_vin(&self, vin: &str) -> (r: Result<SourceData, SourceError>)
        ensures
            r matches Ok(d) && d.is_empty(),
    {
        Ok(SourceData::default())
    }
}

} // verus!
