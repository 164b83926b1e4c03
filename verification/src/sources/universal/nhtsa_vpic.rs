use vstd::prelude::*;

use crate::error::{joined, SourceError};
use crate::models::{SourceData, VinDecode};
use crate::sources::{is_country_code, MONTH_SECS};
use crate::text::{
    boundary_at, byte_prefix, is_blank, nonempty, parse_u16, parse_unsigned, prefix_bytes, spec_nonempty,
};

verus! {

/// NHTSA vPIC — structural decode of a VIN (make, model, year, plant...).
pub struct NhtsaVpic {
    client: reqwest::Client,
}

impl NhtsaVpic {
    /// The client the source's requests are sent with.
    pub closed spec fn spec_client(&self) -> reqwest::Client {
        self.client
    }

    pub fn new(client: reqwest::Client) -> (s: Self)
        ensures
            s.spec_client() == client,
    {
        Self { client }
    }

    /// The client the source's requests are sent with.
    pub fn client(&self) -> (c: &reqwest::Client)
        ensures
            *c == self.spec_client(),
    {
        &self.client
    }

    /// Short machine-readable id.
    pub fn id(&self) -> (r: &'static str)
        ensures
            r@ == "nhtsa_vpic"@,
    {
        "nhtsa_vpic"
    }

    /// Country code of the source.
    pub fn country(&self) -> (r: &'static str)
        ensures
            r@ == "XX"@,
            is_country_code(r@),
    {
        proof {
            reveal_strlit("XX");
        }
        "XX"
    }

    /// Human-readable display name.
    pub fn name(&self) -> (r: &'static str)
        ensures
            r@ == "NHTSA vPIC"@,
    {
        "NHTSA vPIC"
    }

    /// How long a successful answer may be cached, in seconds.
    pub fn cache_ttl_secs(&self) -> (r: u64)
        ensures
            r == MONTH_SECS,
    {
        MONTH_SECS
    }

    /// The decode request for `vin`.
    pub fn decode_url(&self, vin: &str) -> (r: String)
        ensures
            r@ == "https://vpic.nhtsa.dot.gov/api/vehicles/DecodeVinValues/"@ + vin@
                + "?format=json"@,
    {
        let mut url = joined("https://vpic.nhtsa.dot.gov/api/vehicles/DecodeVinValues/", vin);
        url.append("?format=json");
        url
    }

    /// The decode of `vin` from the rows vPIC answered with: the first row
    /// gives it, unless it names neither a make nor a model year.
    pub fn source_data(&self, vin: &str, results: Vec<VpicResult>) -> (r: Result<
        SourceData,
        SourceError,
    >)
        ensures
            results@.len() == 0 ==> r == Err::<SourceData, SourceError>(SourceError::NotFound),
            results@.len() > 0 && !vpic_has_vehicle(results@[0]) ==> r == Err::<
                SourceData,
                SourceError,
            >(SourceError::NotFound),
            results@.len() > 0 && vpic_has_vehicle(results@[0]) ==> (r matches Ok(data) && {
                &&& data.registrations@.len() == 0
                &&& data.inspections@.len() == 0
                &&& data.recalls@.len() == 0
                &&& data.encumbrances@.len() == 0
                &&& data.decode matches Some(d) && vpic_decode_matches(vin@, results@[0], d)
            }),
    {
        let mut results = results;
        if results.len() == 0 {
            return Err(SourceError::NotFound);
        }
        let row = results.remove(0);
        let year = match nonempty(row.model_year) {
            Some(y) => parse_u16(y.as_str()),
            None => None,
        };
        let no_make = match &row.make {
            Some(m) => m.as_str().is_empty(),
            None => true,
        };
        if no_make && year.is_none() {
            return Err(SourceError::NotFound);
        }
        let wmi = match prefix_bytes(vin, 3) {
            Some(w) => w,
            None => String::new(),
        };
        let decode = VinDecode {
            make: nonempty(row.make),
            model: nonempty(row.model),
            year,
            body_style: nonempty(row.body_class),
            engine: nonempty(row.engine_model),
            fuel_type: nonempty(row.fuel_type),
            transmission: nonempty(row.transmission),
            drive_type: nonempty(row.drive_type),
            plant_country: nonempty(row.plant_country),
            plant_city: nonempty(row.plant_city),
            manufacturer: nonempty(row.manufacturer),
            series: nonempty(row.series),
            trim: nonempty(row.trim),
            wmi,
        };
        Ok(
            SourceData {
                registrations: Vec::new(),
                inspections: Vec::new(),
                recalls: Vec::new(),
                encumbrances: Vec::new(),
                decode: Some(decode),
            },
        )
    }
}

/// One row of a vPIC decode.
#[derive(Debug, Clone, PartialEq, Eq)]
pub struct VpicResult {
    pub make: Option<String>,
    pub model: Option<String>,
    pub model_year: Option<String>,
    pub body_class: Option<String>,
    pub engine_cylinders: Option<String>,
    pub fuel_type: Option<String>,
    pub transmission: Option<String>,
    pub drive_type: Option<String>,
    pub plant_country: Option<String>,
    pub plant_city: Option<String>,
    pub manufacturer: Option<String>,
    pub series: Option<String>,
    pub trim: Option<String>,
    pub engine_model: Option<String>,
}

/// The model year of a row: its non-blank `ModelYear`, read as a `u16`.
pub open spec fn vpic_year(row: VpicResult) -> Option<u16> {
    match spec_nonempty(row.model_year) {
        Some(y) => match parse_unsigned(y@, u16::MAX as nat) {
            Some(v) => Some(v as u16),
            None => None,
        },
        None => None,
    }
}

/// A row describes a vehicle: it names a make or a model year.
pub open spec fn vpic_has_vehicle(row: VpicResult) -> bool {
    (row.make matches Some(m) && m@.len() > 0) || vpic_year(row) is Some
}

/// A first row that names a make describes a vehicle whatever its model year,
/// and its decode carries that make (unless the make is only white space);
/// a row that describes no vehicle names no make.
pub proof fn lemma_vpic_make_is_a_vehicle(vin: Seq<char>, row: VpicResult, d: VinDecode)
    ensures
        (row.make matches Some(m) && m@.len() > 0) ==> vpic_has_vehicle(row),
        !vpic_has_vehicle(row) ==> (row.make is None || row.make.unwrap()@.len() == 0),
        row.make is None && row.model_year is None ==> !vpic_has_vehicle(row),
        vpic_decode_matches(vin, row, d) && (row.make matches Some(m) && !is_blank(m@)) ==> d.make
            == row.make,
{
}

/// The world manufacturer identifier: the first three bytes of the VIN, or
/// nothing when they do not end on a character boundary.
pub open spec fn wmi_of(vin: Seq<char>) -> Seq<char> {
    if boundary_at(vin, 3) {
        byte_prefix(vin, 3)
    } else {
        Seq::empty()
    }
}

/// `d` is the decode of `vin` given by `row`.
pub open spec fn vpic_decode_matches(vin: Seq<char>, row: VpicResult, d: VinDecode) -> bool {
    &&& d.make == spec_nonempty(row.make)
    &&& d.model == spec_nonempty(row.model)
    &&& d.year == vpic_year(row)
    &&& d.body_style == spec_nonempty(row.body_class)
    &&& d.engine == spec_nonempty(row.engine_model)
    &&& d.fuel_type == spec_nonempty(row.fuel_type)
    &&& d.transmission == spec_nonempty(row.transmission)
    &&& d.drive_type == spec_nonempty(row.drive_type)
    &&& d.plant_country == spec_nonempty(row.plant_country)
    &&& d.plant_city == spec_nonempty(row.plant_city)
    &&& d.manufacturer == spec_nonempty(row.manufacturer)
    &&& d.series == spec_nonempty(row.series)
    &&& d.trim == spec_nonempty(row.trim)
    &&& d.wmi@ == wmi_of(vin)
}

} // verus!
