use vstd::prelude::*;

use crate::error::{joined, SourceError};
use crate::models::{Registration, RegistrationStatus, SourceData};
use crate::sources::{is_country_code, parse_date, spec_parse_date, DAY_SECS};

verus! {

/// DVLA Vehicle Enquiry Service (UK)
/// https://developer-portal.driver-vehicle-licensing.api.gov.uk/
pub struct UkDvla {
    client: reqwest::Client,
    api_key: Option<String>,
}

/// The DVLA's answer about a vehicle.
#[derive(Debug, Clone, PartialEq, Eq)]
pub struct VesResponse {
    pub registration_number: Option<String>,
    pub make: Option<String>,
    pub fuel_type: Option<String>,
    pub primary_colour: Option<String>,
    pub engine_capacity: Option<u32>,
    pub month_of_first_registration: Option<String>,
    pub year_of_manufacture: Option<u16>,
    pub tax_status: Option<String>,
    pub mot_status: Option<String>,
    pub marked_for_export: Option<bool>,
}

impl UkDvla {
    /// The client the source's requests are sent with.
    pub closed spec fn spec_client(&self) -> reqwest::Client {
        self.client
    }

    /// The API key the source was configured with.
    pub closed spec fn spec_api_key(&self) -> Option<String> {
        self.api_key
    }

    pub fn new(client: reqwest::Client, api_key: Option<String>) -> (s: Self)
        ensures
            s.spec_client() == client,
            s.spec_api_key() == api_key,
    {
        Self { client, api_key }
    }

    /// The client the source's requests are sent with.
    pub fn client(&self) -> (c: &reqwest::Client)
        ensures
            *c == self.spec_client(),
    {
        &self.client
    }

    /// Short machine-readable id.
    pub fn id(&self) -> (r: &'static str)
        ensures
            r@ == "uk_dvla"@,
    {
        "uk_dvla"
    }

    /// Country code of the source.
    pub fn country(&self) -> (r: &'static str)
        ensures
            r@ == "GB"@,
            is_country_code(r@),
    {
        proof {
            reveal_strlit("GB");
        }
        "GB"
    }

    /// Human-readable display name.
    pub fn name(&self) -> (r: &'static str)
        ensures
            r@ == "DVLA Vehicle Enquiry"@,
    {
        "DVLA Vehicle Enquiry"
    }

    /// How long a successful answer may be cached, in seconds.
    pub fn cache_ttl_secs(&self) -> (r: u64)
        ensures
            r == DAY_SECS,
    {
        DAY_SECS
    }

    /// The DVLA is asked by plate, not by VIN: without an API key the source is
    /// unavailable, with one the VIN lookup is not supported.
    pub fn fetch_by_vin(&self, vin: &str) -> (r: Result<SourceData, SourceError>)
        ensures
            self.spec_api_key() is None ==> (r matches Err(SourceError::Unavailable(m)) && m@
                == "No DVLA API key configured"@),
            self.spec_api_key() is Some ==> r == Err::<SourceData, SourceError>(
                SourceError::NotSupported,
            ),
    {
        match &self.api_key {
            Some(_) => Err(SourceError::NotSupported),
            None => Err(SourceError::Unavailable(String::from_str("No DVLA API key configured"))),
        }
    }

    /// The key a plate enquiry is sent with; the source is unavailable without one.
    pub fn plate_api_key(&self) -> (r: Result<String, SourceError>)
        ensures
            match self.spec_api_key() {
                Some(k) => r == Ok::<String, SourceError>(k),
                None => r matches Err(SourceError::Unavailable(m)) && m@
                    == "No DVLA API key configured"@,
            },
    {
        match &self.api_key {
            Some(k) => Ok(k.clone()),
            None => Err(SourceError::Unavailable(String::from_str("No DVLA API key configured"))),
        }
    }

    /// Where plate enquiries are sent.
    pub fn enquiry_url(&self) -> (r: &'static str)
        ensures
            r@ == "https://driver-vehicle-licensing.api.gov.uk/vehicle-enquiry/v1/vehicles"@,
    {
        "https://driver-vehicle-licensing.api.gov.uk/vehicle-enquiry/v1/vehicles"
    }

    /// The registration a plate enquiry answered with.
    pub fn source_data(&self, v: VesResponse) -> (r: SourceData)
        ensures
            r.registrations@.len() == 1,
            dvla_registration_matches(v, r.registrations@[0]),
            r.inspections@.len() == 0,
            r.recalls@.len() == 0,
            r.encumbrances@.len() == 0,
            r.decode is None,
    {
        let first_registered = match &v.month_of_first_registration {
            Some(month) => {
                let day = joined(month.as_str(), "-01");
                parse_date(day.as_str())
            },
            None => None,
        };
        let status = match v.marked_for_export {
            Some(true) => RegistrationStatus::Exported,
            _ => RegistrationStatus::Active,
        };
        let reg = Registration {
            country: String::from_str("GB"),
            plate: v.registration_number,
            first_registered,
            deregistered: None,
            status,
            color: v.primary_colour,
            fuel: v.fuel_type,
            body: None,
            engine_cc: v.engine_capacity,
            power_kw: None,
            seats: None,
            weight_kg: None,
            source: String::from_str("uk_dvla"),
        };
        SourceData {
            registrations: vec![reg],
            inspections: Vec::new(),
            recalls: Vec::new(),
            encumbrances: Vec::new(),
            decode: None,
        }
    }
}

/// `reg` is the registration a DVLA answer describes; the first registration
/// is the first day of the month the answer gives (`YYYY-MM`).
pub open spec fn dvla_registration_matches(v: VesResponse, reg: Registration) -> bool {
    &&& reg.country@ == "GB"@
    &&& reg.plate == v.registration_number
    &&& reg.first_registered == match v.month_of_first_registration {
        Some(m) => spec_parse_date(m@ + "-01"@),
        None => None,
    }
    &&& reg.deregistered is None
    &&& reg.status == if v.marked_for_export == Some(true) {
        RegistrationStatus::Exported
    } else {
        RegistrationStatus::Active
    }
    &&& reg.color == v.primary_colour
    &&& reg.fuel == v.fuel_type
    &&& reg.body is None
    &&& reg.engine_cc == v.engine_capacity
    &&& reg.power_kw is None
    &&& reg.seats is None
    &&& reg.weight_kg is None
    &&& reg.source@ == "uk_dvla"@
}

} // verus!
