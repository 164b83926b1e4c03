use vstd::prelude::*;

use crate::error::joined;
use crate::json::JsonValue;
use crate::models::{Recall, RecallStatus, SourceData};
use crate::sources::{is_country_code, parse_date, spec_parse_date, WEEK_SECS};

verus! {

/// NHTSA Recalls — recall campaigns that apply to a VIN.
pub struct NhtsaRecalls {
    client: reqwest::Client,
}

impl NhtsaRecalls {
    /// The client the source's requests are sent with.
    pub closed spec fn spec_client(&self) -> reqwest::Client {
        self.client
    }

    pub fn new(client: reqwest::Client) -> (s: Self)
        ensures
            s.spec_client() == client,
    {
        Self { client }
    }

    /// The client the source's requests are sent with.
    pub fn client(&self) -> (c: &reqwest::Client)
        ensures
            *c == self.spec_client(),
    {
        &self.client
    }

    /// Short machine-readable id.
    pub fn id(&self) -> (r: &'static str)
        ensures
            r@ == "nhtsa_recalls"@,
    {
        "nhtsa_recalls"
    }

    /// Country code of the source.
    pub fn country(&self) -> (r: &'static str)
        ensures
            r@ == "XX"@,
            is_country_code(r@),
    {
        proof {
            reveal_strlit("XX");
        }
        "XX"
    }

    /// Human-readable display name.
    pub fn name(&self) -> (r: &'static str)
        ensures
            r@ == "NHTSA Recalls"@,
    {
        "NHTSA Recalls"
    }

    /// How long a successful answer may be cached, in seconds.
    pub fn cache_ttl_secs(&self) -> (r: u64)
        ensures
            r == WEEK_SECS,
    {
        WEEK_SECS
    }

    /// The recall request for `vin`.
    pub fn recalls_url(&self, vin: &str) -> (r: String)
        ensures
            r@ == "https://api.nhtsa.gov/recalls/recallsByVehicle?vin="@ + vin@,
    {
        joined("https://api.nhtsa.gov/recalls/recallsByVehicle?vin=", vin)
    }

    /// The recalls listed in an answer: one per item of its `results` array
    /// (none when there is no such array).
    pub fn source_data(&self, body: &JsonValue) -> (r: SourceData)
        ensures
            r.registrations@.len() == 0,
            r.inspections@.len() == 0,
            r.encumbrances@.len() == 0,
            r.decode is None,
            recalls_listed(body.spec_get("results"@), r.recalls@),
    {
        let items = match body.get("results") {
            Some(JsonValue::Array(items)) => items,
            _ => {
                return SourceData {
                    registrations: Vec::new(),
                    inspections: Vec::new(),
                    recalls: Vec::new(),
                    encumbrances: Vec::new(),
                    decode: None,
                };
            },
        };
        let mut recalls: Vec<Recall> = Vec::new();
        let n = items.len();
        let mut i: usize = 0;
        while i < n
            invariant
                i <= n,
                n == items@.len(),
                recalls@.len() == i,
                forall|j: int| 0 <= j < i ==> recall_matches(items@[j], #[trigger] recalls@[j]),
            decreases n - i,
        {
            recalls.push(recall_from(&items[i]));
            i = i + 1;
        }
        SourceData {
            registrations: Vec::new(),
            inspections: Vec::new(),
            recalls,
            encumbrances: Vec::new(),
            decode: None,
        }
    }
}

/// The campaign number of an item, empty when it has none.
pub open spec fn campaign_of(item: JsonValue) -> Seq<char> {
    match item.str_at("NHTSACampaignNumber"@) {
        Some(c) => c@,
        None => Seq::empty(),
    }
}

/// The description of an item: its summary, else its subject, else a placeholder.
pub open spec fn description_of(item: JsonValue) -> Seq<char> {
    match item.str_at("Summary"@) {
        Some(t) => t@,
        None => match item.str_at("Subject"@) {
            Some(t) => t@,
            None => "No description"@,
        },
    }
}

/// `rc` is the recall an item of the answer describes.
pub open spec fn recall_matches(item: JsonValue, rc: Recall) -> bool {
    &&& rc.id@ == campaign_of(item)
    &&& rc.campaign_number matches Some(c) && c@ == campaign_of(item)
    &&& rc.date == match item.str_at("ReportReceivedDate"@) {
        Some(d) => spec_parse_date(d@),
        None => None,
    }
    &&& rc.description@ == description_of(item)
    &&& rc.component == item.str_at("Component"@)
    &&& rc.remedy == item.str_at("Remedy"@)
    &&& rc.status == RecallStatus::Unknown
    &&& rc.source@ == "nhtsa_recalls"@
    &&& rc.url is None
}

/// `recalls` are the recalls of the `results` member `results` of an answer.
pub open spec fn recalls_listed(results: Option<JsonValue>, recalls: Seq<Recall>) -> bool {
    match results {
        Some(JsonValue::Array(items)) => recalls.len() == items@.len() && forall|j: int|
            0 <= j < recalls.len() ==> recall_matches(items@[j], #[trigger] recalls[j]),
        _ => recalls.len() == 0,
    }
}

/// The recall an item of the answer describes.
fn recall_from(item: &JsonValue) -> (rc: Recall)
    ensures
        recall_matches(*item, rc),
{
    let campaign = match item.str_field("NHTSACampaignNumber") {
        Some(c) => c.clone(),
        None => String::new(),
    };
    let description = match item.str_field("Summary") {
        Some(t) => t.clone(),
        None => match item.str_field("Subject") {
            Some(t) => t.clone(),
            None => String::from_str("No description"),
        },
    };
    let date = match item.str_field("ReportReceivedDate") {
        Some(d) => parse_date(d.as_str()),
        None => None,
    };
    let component = match item.str_field("Component") {
        Some(t) => Some(t.clone()),
        None => None,
    };
    let remedy = match item.str_field("Remedy") {
        Some(t) => Some(t.clone()),
        None => None,
    };
    Recall {
        id: campaign.clone(),
        campaign_number: Some(campaign),
        date,
        description,
        component,
        remedy,
        status: RecallStatus::Unknown,
        source: String::from_str("nhtsa_recalls"),
        url: None,
    }
}

} // verus!
