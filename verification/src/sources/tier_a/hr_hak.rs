use vstd::prelude::*;

use crate::error::{joined, SourceError};
use crate::json::JsonValue;
use crate::models::{
    CalendarDate, Inspection, InspectionResult, Registration, RegistrationStatus, SourceData,
};
use crate::sources::{
    is_country_code, opt_date_in_prefix, opt_is_sliceable, opt_prefix_date, opt_sliceable, owned_opt, DAY_SECS,
};
use crate::text::is_text;

verus! {

/// Croatia — HAK/CVH vehicle history
/// https://www.hak.hr/provjera-vozila/
/// Free VIN-based lookup: registration data + technical inspection history (periodični tehnički pregled).
pub struct HrHak {
    client: reqwest::Client,
}

impl HrHak {
    /// The client the source's requests are sent with.
    pub closed spec fn spec_client(&self) -> reqwest::Client {
        self.client
    }

    pub fn new(client: reqwest::Client) -> (s: Self)
        ensures
            s.spec_client() == client,
    {
        Self { client }
    }

    /// The client the source's requests are sent with.
    pub fn client(&self) -> (c: &reqwest::Client)
        ensures
            *c == self.spec_client(),
    {
        &self.client
    }

    /// Short machine-readable id.
    pub fn id(&self) -> (r: &'static str)
        ensures
            r@ == "hr_hak"@,
    {
        "hr_hak"
    }

    /// Country code of the source.
    pub fn country(&self) -> (r: &'static str)
        ensures
            r@ == "HR"@,
            is_country_code(r@),
    {
        proof {
            reveal_strlit("HR");
        }
        "HR"
    }

    /// Human-readable display name.
    pub fn name(&self) -> (r: &'static str)
        ensures
            r@ == "HAK/CVH (HR)"@,
    {
        "HAK/CVH (HR)"
    }

    /// How long a successful answer may be cached, in seconds.
    pub fn cache_ttl_secs(&self) -> (r: u64)
        ensures
            r == DAY_SECS,
    {
        DAY_SECS
    }

    /// The vehicle request for `vin`.
    pub fn vehicle_url(&self, vin: &str) -> (r: String)
        ensures
            r@ == "https://eservisi.hak.hr/api/vozilo/"@ + vin@,
    {
        joined("https://eservisi.hak.hr/api/vozilo/", vin)
    }

    /// The registration and inspection history in an answer: `NotFound` when
    /// the answer is `null` or has no `vin`, else one registration and one
    /// inspection per dated item of `tehničkiPregledi`.
    pub fn source_data(&self, body: &JsonValue) -> (r: Result<SourceData, SourceError>)
        requires
            hak_found(*body) ==> hak_sliceable(*body),
        ensures
            !hak_found(*body) ==> r == Err::<SourceData, SourceError>(SourceError::NotFound),
            hak_found(*body) ==> (r matches Ok(data) && {
                &&& data.registrations@.len() == 1
                &&& hak_registration_matches(*body, data.registrations@[0])
                &&& hak_inspections_match(hak_items(*body), data.inspections@)
                &&& data.recalls@.len() == 0
                &&& data.encumbrances@.len() == 0
                &&& data.decode is None
            }),
    {
        if body.is_null() || body.get("vin").is_none() {
            return Err(SourceError::NotFound);
        }
        let status = hak_status(body.str_field("statusVozila"));
        let reg = Registration {
            country: String::from_str("HR"),
            plate: cloned(body.str_field("registarskaOznaka")),
            first_registered: opt_date_in_prefix(body.str_field("datumPrveRegistracije")),
            deregistered: opt_date_in_prefix(body.str_field("datumOdjave")),
            status,
            color: cloned(body.str_field("boja")),
            fuel: cloned(body.str_field("vrstaGoriva")),
            body: cloned(body.str_field("vrstaKaroserije")),
            engine_cc: as_u32(body.u64_field("obujamMotora")),
            power_kw: as_u32(body.u64_field("snagaMotora")),
            seats: as_u8(body.u64_field("brojSjedala")),
            weight_kg: as_u32(body.u64_field("masinaVozila")),
            source: String::from_str("hr_hak"),
        };
        let mut inspections: Vec<Inspection> = Vec::new();
        match body.array_field("tehničkiPregledi") {
            Some(items) => {
                let n = items.len();
                let mut i: usize = 0;
                assert(items@.take(0) =~= Seq::<JsonValue>::empty());
                assert(hak_found(*body));
                assert(items@ == hak_items(*body));
                assert forall|j: int| 0 <= j < n implies hak_item_sliceable(#[trigger] items@[j]) by {
                    assert(items@[j] == hak_items(*body)[j]);
                }
                while i < n
                    invariant
                        i <= n,
                        n == items@.len(),
                        items@ == hak_items(*body),
                        forall|j: int| 0 <= j < n ==> hak_item_sliceable(#[trigger] items@[j]),
                        hak_inspections_match(items@.take(i as int), inspections@),
                    decreases n - i,
                {
                    let ghost before = inspections@;
                    let item = &items[i];
                    assert(hak_item_sliceable(*item));
                    proof {
                        lemma_hak_kept_push(items@.take(i as int), *item);
                        assert(items@.take(i + 1) =~= items@.take(i as int).push(*item));
                    }
                    match hak_inspection(item) {
                        Some(insp) => {
                            inspections.push(insp);
                            assert(inspections@.drop_last() =~= before);
                        },
                        None => {},
                    }
                    i = i + 1;
                }
                assert(items@.take(n as int) =~= items@);
            },
            None => {
                assert(hak_items(*body) =~= Seq::<JsonValue>::empty());
            },
        }
        Ok(
            SourceData {
                registrations: vec![reg],
                inspections,
                recalls: Vec::new(),
                encumbrances: Vec::new(),
                decode: None,
            },
        )
    }

    /// The data of an answer, or `None` when one of its date texts is too short
    /// to take the first ten bytes of (see `dates_readable`).
    pub fn read_answer(&self, body: &JsonValue) -> (r: Option<Result<SourceData, SourceError>>)
        ensures
            r is None <==> !(hak_found(*body) ==> hak_sliceable(*body)),
            r matches Some(res) ==> {
                &&& !hak_found(*body) ==> res == Err::<SourceData, SourceError>(SourceError::NotFound)
                &&& hak_found(*body) ==> (res matches Ok(data) && {
                    &&& data.registrations@.len() == 1
                    &&& hak_registration_matches(*body, data.registrations@[0])
                    &&& hak_inspections_match(hak_items(*body), data.inspections@)
                    &&& data.recalls@.len() == 0
                    &&& data.encumbrances@.len() == 0
                    &&& data.decode is None
                })
            },
    {
        if self.dates_readable(body) {
            Some(self.source_data(body))
        } else {
            None
        }
    }

    /// Whether reading an answer's dates would succeed: for an answer that
    /// describes a vehicle, each date text read is at least ten bytes long and
    /// byte 10 starts a character (dates are taken from their first ten bytes).
    pub fn dates_readable(&self, body: &JsonValue) -> (r: bool)
        ensures
            r == (hak_found(*body) ==> hak_sliceable(*body)),
    {
        if body.is_null() || body.get("vin").is_none() {
            return true;
        }
        if !opt_is_sliceable(body.str_field("datumPrveRegistracije")) {
            return false;
        }
        if !opt_is_sliceable(body.str_field("datumOdjave")) {
            return false;
        }
        match body.array_field("tehničkiPregledi") {
            Some(items) => {
                let n = items.len();
                let mut i: usize = 0;
                while i < n
                    invariant
                        i <= n,
                        n == items@.len(),
                        items@ == hak_items(*body),
                        hak_found(*body),
                        forall|j: int| 0 <= j < i ==> hak_item_sliceable(#[trigger] items@[j]),
                    decreases n - i,
                {
                    let item = &items[i];
                    let date = item.str_field("datumPregleda");
                    if !opt_is_sliceable(date) {
                        return false;
                    }
                    if opt_date_in_prefix(date).is_some() && !opt_is_sliceable(
                        item.str_field("vrijediDo"),
                    ) {
                        return false;
                    }
                    i = i + 1;
                }
                true
            },
            None => true,
        }
    }
}

/// The answer describes a vehicle: it is not `null` and has a `vin` member.
pub open spec fn hak_found(body: JsonValue) -> bool {
    !(body is Null) && body.spec_get("vin"@) is Some
}

/// The inspection items of an answer (`tehničkiPregledi`, none when absent).
pub open spec fn hak_items(body: JsonValue) -> Seq<JsonValue> {
    match body.array_at("tehničkiPregledi"@) {
        Some(items) => items,
        None => Seq::empty(),
    }
}

/// The date an inspection item was held on, when it gives a readable one.
pub open spec fn hak_item_date(item: JsonValue) -> Option<CalendarDate> {
    opt_prefix_date(item.str_at("datumPregleda"@))
}

/// Reading the dates of an inspection item does not fail.
pub open spec fn hak_item_sliceable(item: JsonValue) -> bool {
    &&& opt_sliceable(item.str_at("datumPregleda"@))
    &&& hak_item_date(item) is Some ==> opt_sliceable(item.str_at("vrijediDo"@))
}

/// Reading the dates of an answer does not fail.
pub open spec fn hak_sliceable(body: JsonValue) -> bool {
    &&& opt_sliceable(body.str_at("datumPrveRegistracije"@))
    &&& opt_sliceable(body.str_at("datumOdjave"@))
    &&& forall|j: int|
        0 <= j < hak_items(body).len() ==> hak_item_sliceable(#[trigger] hak_items(body)[j])
}

/// The registration status an answer's `statusVozila` stands for.
pub open spec fn hak_spec_status(s: Option<String>) -> RegistrationStatus {
    match s {
        Some(v) => if v@ == "REGISTRIRANO"@ {
            RegistrationStatus::Active
        } else if v@ == "ODJAVLJENO"@ {
            RegistrationStatus::Deregistered
        } else if v@ == "IZVEZENO"@ {
            RegistrationStatus::Exported
        } else {
            RegistrationStatus::Unknown
        },
        None => RegistrationStatus::Unknown,
    }
}

/// The outcome an inspection item's `ishod` stands for.
pub open spec fn hak_spec_result(s: Option<String>) -> InspectionResult {
    match s {
        Some(v) => if v@ == "POZITIVAN"@ || v@ == "PASSED"@ {
            InspectionResult::Pass
        } else if v@ == "NEGATIVAN"@ || v@ == "FAILED"@ {
            InspectionResult::Fail
        } else if v@ == "UVJETNO"@ {
            InspectionResult::Advisory
        } else {
            InspectionResult::Unknown
        },
        None => InspectionResult::Unknown,
    }
}

/// A number read as `u32` (keeping its low 32 bits).
pub open spec fn low_u32(n: Option<u64>) -> Option<u32> {
    match n {
        Some(v) => Some(v as u32),
        None => None,
    }
}

/// A number read as `u8` (keeping its low 8 bits).
pub open spec fn low_u8(n: Option<u64>) -> Option<u8> {
    match n {
        Some(v) => Some(v as u8),
        None => None,
    }
}

/// `reg` is the registration an answer describes.
pub open spec fn hak_registration_matches(body: JsonValue, reg: Registration) -> bool {
    &&& reg.country@ == "HR"@
    &&& reg.plate == body.str_at("registarskaOznaka"@)
    &&& reg.first_registered == opt_prefix_date(body.str_at("datumPrveRegistracije"@))
    &&& reg.deregistered == opt_prefix_date(body.str_at("datumOdjave"@))
    &&& reg.status == hak_spec_status(body.str_at("statusVozila"@))
    &&& reg.color == body.str_at("boja"@)
    &&& reg.fuel == body.str_at("vrstaGoriva"@)
    &&& reg.body == body.str_at("vrstaKaroserije"@)
    &&& reg.engine_cc == low_u32(body.u64_at("obujamMotora"@))
    &&& reg.power_kw == low_u32(body.u64_at("snagaMotora"@))
    &&& reg.seats == low_u8(body.u64_at("brojSjedala"@))
    &&& reg.weight_kg == low_u32(body.u64_at("masinaVozila"@))
    &&& reg.source@ == "hr_hak"@
}

/// The registration read from a HAK answer is active exactly when the answer's
/// `statusVozila` is `REGISTRIRANO`, deregistered exactly when it is
/// `ODJAVLJENO`, exported exactly when it is `IZVEZENO`, and of unknown status
/// for any other text or none.
pub proof fn lemma_hak_registration_status(body: JsonValue, reg: Registration)
    requires
        hak_registration_matches(body, reg),
    ensures
        (reg.status == RegistrationStatus::Active) <==> (body.str_at("statusVozila"@) matches Some(v) && v@
            == "REGISTRIRANO"@),
        (reg.status == RegistrationStatus::Deregistered) <==> (body.str_at("statusVozila"@) matches Some(
            v) && v@ == "ODJAVLJENO"@),
        (reg.status == RegistrationStatus::Exported) <==> (body.str_at("statusVozila"@) matches Some(v)
            && v@ == "IZVEZENO"@),
        (reg.status == RegistrationStatus::Unknown) <==> !(body.str_at("statusVozila"@) matches Some(v)
            && (v@ == "REGISTRIRANO"@ || v@ == "ODJAVLJENO"@ || v@ == "IZVEZENO"@)),
{
    reveal_strlit("REGISTRIRANO");
    reveal_strlit("ODJAVLJENO");
    reveal_strlit("IZVEZENO");
    assert("REGISTRIRANO"@ != "ODJAVLJENO"@ && "REGISTRIRANO"@ != "IZVEZENO"@ && "ODJAVLJENO"@
        != "IZVEZENO"@) by {
        assert("REGISTRIRANO"@[0] != "ODJAVLJENO"@[0]);
        assert("REGISTRIRANO"@[0] != "IZVEZENO"@[0]);
        assert("ODJAVLJENO"@[0] != "IZVEZENO"@[0]);
    }
}

/// `insp` is the inspection a dated item describes.
pub open spec fn hak_inspection_matches(item: JsonValue, insp: Inspection) -> bool {
    &&& hak_item_date(item) == Some(insp.date)
    &&& insp.country@ == "HR"@
    &&& insp.result == hak_spec_result(item.str_at("ishod"@))
    &&& insp.mileage_km == item.u64_at("kilometeraza"@)
    &&& insp.defects@.len() == 0
    &&& insp.advisories@.len() == 0
    &&& insp.expiry == opt_prefix_date(item.str_at("vrijediDo"@))
    &&& insp.test_number == item.str_at("brojPotvrde"@)
    &&& insp.source@ == "hr_hak"@
}

/// The items that give a readable date, in order.
pub open spec fn hak_kept(items: Seq<JsonValue>) -> Seq<JsonValue> {
    items.filter(|item: JsonValue| hak_item_date(item) is Some)
}

/// `out` holds one inspection per dated item of `items`, in order.
pub open spec fn hak_inspections_match(items: Seq<JsonValue>, out: Seq<Inspection>) -> bool {
    &&& out.len() == hak_kept(items).len()
    &&& forall|j: int| 0 <= j < out.len() ==> hak_inspection_matches(hak_kept(items)[j], #[trigger] out[j])
}

proof fn lemma_hak_kept_push(items: Seq<JsonValue>, item: JsonValue)
    ensures
        hak_kept(items.push(item)) == if hak_item_date(item) is Some {
            hak_kept(items).push(item)
        } else {
            hak_kept(items)
        },
{
    items.lemma_filter_push(item, |item: JsonValue| hak_item_date(item) is Some);
}

/// A copy of an optional text.
fn cloned(s: Option<&String>) -> (r: Option<String>)
    ensures
        r == owned_opt(s),
{
    match s {
        Some(v) => Some(v.clone()),
        None => None,
    }
}

fn as_u32(n: Option<u64>) -> (r: Option<u32>)
    ensures
        r == low_u32(n),
{
    match n {
        Some(v) => Some(v as u32),
        None => None,
    }
}

fn as_u8(n: Option<u64>) -> (r: Option<u8>)
    ensures
        r == low_u8(n),
{
    match n {
        Some(v) => Some(v as u8),
        None => None,
    }
}

fn hak_status(s: Option<&String>) -> (r: RegistrationStatus)
    ensures
        r == hak_spec_status(owned_opt(s)),
{
    if is_text(s, "REGISTRIRANO") {
        RegistrationStatus::Active
    } else if is_text(s, "ODJAVLJENO") {
        RegistrationStatus::Deregistered
    } else if is_text(s, "IZVEZENO") {
        RegistrationStatus::Exported
    } else {
        RegistrationStatus::Unknown
    }
}

fn hak_result(s: Option<&String>) -> (r: InspectionResult)
    ensures
        r == hak_spec_result(owned_opt(s)),
{
    if is_text(s, "POZITIVAN") || is_text(s, "PASSED") {
        InspectionResult::Pass
    } else if is_text(s, "NEGATIVAN") || is_text(s, "FAILED") {
        InspectionResult::Fail
    } else if is_text(s, "UVJETNO") {
        InspectionResult::Advisory
    } else {
        InspectionResult::Unknown
    }
}

/// The inspection an item describes, when it gives a readable date.
fn hak_inspection(item: &JsonValue) -> (r: Option<Inspection>)
    requires
        hak_item_sliceable(*item),
    ensures
        r is Some <==> hak_item_date(*item) is Some,
        r matches Some(insp) ==> hak_inspection_matches(*item, insp),
{
    let date = match opt_date_in_prefix(item.str_field("datumPregleda")) {
        Some(d) => d,
        None => {
            return None;
        },
    };
    Some(
        Inspection {
            country: String::from_str("HR"),
            date,
            result: hak_result(item.str_field("ishod")),
            mileage_km: item.u64_field("kilometeraza"),
            defects: Vec::new(),
            advisories: Vec::new(),
            expiry: opt_date_in_prefix(item.str_field("vrijediDo")),
            test_number: cloned(item.str_field("brojPotvrde")),
            source: String::from_str("hr_hak"),
        },
    )
}

} // verus!
