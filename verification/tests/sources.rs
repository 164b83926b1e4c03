use vindicate_api::error::SourceError;
use vindicate_api::json::JsonValue;
use vindicate_api::models::{CalendarDate, InspectionResult, RecallStatus, RegistrationStatus};
use vindicate_api::sources::tier_a::es_dgt::EsDgt;
use vindicate_api::sources::tier_a::hr_hak::HrHak;
use vindicate_api::sources::tier_a::lt_regitra::LtRegitra;
use vindicate_api::sources::tier_b::de_kba::DeKba;
use vindicate_api::sources::tier_s::ua_hsc::UaHsc;
use vindicate_api::sources::tier_s::uk_dvla::{UkDvla, VesResponse};
use vindicate_api::sources::tier_s::uk_dvsa_mot::{MotTest, Odometer, RfrComment, UkDvsaMot};
use vindicate_api::sources::universal::eu_safety_gate::EuSafetyGate;
use vindicate_api::sources::universal::nhtsa_recalls::NhtsaRecalls;
use vindicate_api::sources::universal::nhtsa_vpic::{NhtsaVpic, VpicResult};
use vindicate_api::sources::{check_status, check_success, parse_date};

fn client() -> reqwest::Client {
    reqwest::Client::new()
}

fn s(v: &str) -> JsonValue {
    JsonValue::Str(v.to_string())
}

fn n(v: u64) -> JsonValue {
    JsonValue::Number(Some(v))
}

fn obj(members: Vec<(&str, JsonValue)>) -> JsonValue {
    JsonValue::Object(members.into_iter().map(|(k, v)| (k.to_string(), v)).collect())
}

fn date(year: i32, month: u32, day: u32) -> CalendarDate {
    CalendarDate { year, month, day }
}

#[test]
fn stub_sources_explain_why_they_cannot_look_up_a_vin() {
    let es = EsDgt::new(client());
    assert_eq!(es.id(), "es_dgt");
    assert_eq!(es.country(), "ES");
    assert_eq!(es.name(), "DGT/ITV (ES)");
    assert_eq!(es.cache_ttl_secs(), 86400);
    assert_eq!(
        es.fetch_by_vin("1HGCM82633A004352"),
        Err(SourceError::Unavailable(
            "Plate-based only; DGT requires plate + owner NIF".to_string()
        ))
    );
    let de = DeKba::new(client());
    assert_eq!(de.cache_ttl_secs(), 604800);
    assert_eq!(de.name(), "KBA Rückrufe (DE)");
    let lt = LtRegitra::new(client());
    assert_eq!(
        lt.fetch_by_vin("X"),
        Err(SourceError::Unavailable("Not yet implemented".to_string()))
    );
    let ua = UaHsc::new(client());
    assert_eq!(
        ua.fetch_by_vin("X"),
        Err(SourceError::Unavailable("Geo-restricted — API blocked outside Ukraine".to_string()))
    );
}

#[test]
fn eu_safety_gate_contributes_nothing() {
    let eu = EuSafetyGate::new(client());
    assert_eq!(eu.country(), "EU");
    let data = eu.fetch_by_vin("1HGCM82633A004352").unwrap();
    assert!(data.registrations.is_empty() && data.recalls.is_empty() && data.decode.is_none());
}

#[test]
fn status_checks() {
    assert_eq!(check_status(200), Ok(()));
    assert_eq!(check_status(404), Err(SourceError::NotFound));
    assert_eq!(check_status(429), Err(SourceError::RateLimited));
    assert_eq!(check_status(503), Err(SourceError::Unavailable("HTTP 503".to_string())));
    assert_eq!(check_status(201), Err(SourceError::Unavailable("HTTP 201".to_string())));
    assert_eq!(check_success(204, "204 No Content".to_string()), Ok(()));
    assert_eq!(
        check_success(500, "500 Internal Server Error".to_string()),
        Err(SourceError::Unavailable("500 Internal Server Error".to_string()))
    );
}

#[test]
fn parses_iso_dates() {
    assert_eq!(parse_date("2023-11-01"), Some(date(2023, 11, 1)));
    assert_eq!(parse_date("2023-02-30"), None);
    assert_eq!(parse_date("yesterday"), None);
}

#[test]
fn vpic_decodes_the_first_row() {
    let vpic = NhtsaVpic::new(client());
    assert_eq!(
        vpic.decode_url("1HGCM82633A004352"),
        "https://vpic.nhtsa.dot.gov/api/vehicles/DecodeVinValues/1HGCM82633A004352?format=json"
    );
    let row = VpicResult {
        make: Some("HONDA".to_string()),
        model: Some("Accord".to_string()),
        model_year: Some("2003".to_string()),
        body_class: Some("   ".to_string()),
        engine_cylinders: Some("4".to_string()),
        fuel_type: Some("Gasoline".to_string()),
        transmission: None,
        drive_type: Some("".to_string()),
        plant_country: Some("UNITED STATES (USA)".to_string()),
        plant_city: Some("MARYSVILLE".to_string()),
        manufacturer: Some("AMERICAN HONDA MOTOR CO., INC.".to_string()),
        series: None,
        trim: Some("EX-V6".to_string()),
        engine_model: Some("J30A4".to_string()),
    };
    let data = vpic.source_data("1HGCM82633A004352", vec![row]).unwrap();
    let d = data.decode.unwrap();
    assert_eq!(d.make, Some("HONDA".to_string()));
    assert_eq!(d.year, Some(2003));
    assert_eq!(d.body_style, None);
    assert_eq!(d.drive_type, None);
    assert_eq!(d.engine, Some("J30A4".to_string()));
    assert_eq!(d.wmi, "1HG");
}

#[test]
fn vpic_without_make_or_year_is_not_found() {
    let vpic = NhtsaVpic::new(client());
    let row = VpicResult {
        make: Some("".to_string()),
        model: Some("X".to_string()),
        model_year: Some("+20x".to_string()),
        body_class: None,
        engine_cylinders: None,
        fuel_type: None,
        transmission: None,
        drive_type: None,
        plant_country: None,
        plant_city: None,
        manufacturer: None,
        series: None,
        trim: None,
        engine_model: None,
    };
    assert_eq!(vpic.source_data("1HGCM82633A004352", vec![row]), Err(SourceError::NotFound));
    assert_eq!(vpic.source_data("1HGCM82633A004352", vec![]), Err(SourceError::NotFound));
}

#[test]
fn vpic_wmi_is_empty_for_a_short_vin() {
    let vpic = NhtsaVpic::new(client());
    let row = VpicResult {
        make: None,
        model: None,
        model_year: Some("1999".to_string()),
        body_class: None,
        engine_cylinders: None,
        fuel_type: None,
        transmission: None,
        drive_type: None,
        plant_country: None,
        plant_city: None,
        manufacturer: None,
        series: None,
        trim: None,
        engine_model: None,
    };
    let d = vpic.source_data("AB", vec![row]).unwrap().decode.unwrap();
    assert_eq!(d.wmi, "");
    assert_eq!(d.year, Some(1999));
}

#[test]
fn recalls_are_read_from_the_results_array() {
    let recalls = NhtsaRecalls::new(client());
    assert_eq!(
        recalls.recalls_url("VIN"),
        "https://api.nhtsa.gov/recalls/recallsByVehicle?vin=VIN"
    );
    let body = obj(vec![(
        "results",
        JsonValue::Array(vec![
            obj(vec![
                ("NHTSACampaignNumber", s("03V123000")),
                ("ReportReceivedDate", s("2003-04-05")),
                ("Subject", s("Airbag")),
                ("Component", s("AIR BAGS")),
            ]),
            obj(vec![("Summary", s("Brakes may fail")), ("Subject", s("Brakes"))]),
            JsonValue::Null,
        ]),
    )]);
    let data = recalls.source_data(&body);
    assert_eq!(data.recalls.len(), 3);
    let first = &data.recalls[0];
    assert_eq!(first.id, "03V123000");
    assert_eq!(first.campaign_number, Some("03V123000".to_string()));
    assert_eq!(first.date, Some(date(2003, 4, 5)));
    assert_eq!(first.description, "Airbag");
    assert_eq!(first.component, Some("AIR BAGS".to_string()));
    assert_eq!(first.status, RecallStatus::Unknown);
    assert_eq!(first.source, "nhtsa_recalls");
    assert_eq!(data.recalls[1].id, "");
    assert_eq!(data.recalls[1].description, "Brakes may fail");
    assert_eq!(data.recalls[2].description, "No description");
}

#[test]
fn recalls_without_results_are_empty() {
    let recalls = NhtsaRecalls::new(client());
    assert!(recalls.source_data(&obj(vec![("Count", n(0))])).recalls.is_empty());
    assert!(recalls.source_data(&obj(vec![("results", s("none"))])).recalls.is_empty());
}

#[test]
fn hak_reads_registration_and_inspections() {
    let hak = HrHak::new(client());
    assert_eq!(hak.vehicle_url("VIN1"), "https://eservisi.hak.hr/api/vozilo/VIN1");
    let body = obj(vec![
        ("vin", s("VF1AAAAA555555555")),
        ("statusVozila", s("ODJAVLJENO")),
        ("registarskaOznaka", s("ZG1234AB")),
        ("datumPrveRegistracije", s("2015-03-20T00:00:00")),
        ("obujamMotora", n(1598)),
        ("brojSjedala", n(261)),
        (
            "tehničkiPregledi",
            JsonValue::Array(vec![
                obj(vec![
                    ("datumPregleda", s("2021-06-01T10:00:00")),
                    ("ishod", s("POZITIVAN")),
                    ("kilometeraza", n(120000)),
                    ("vrijediDo", s("2022-06-01")),
                    ("brojPotvrde", s("P-1")),
                ]),
                obj(vec![("ishod", s("NEGATIVAN"))]),
                obj(vec![("datumPregleda", s("not a date")), ("ishod", s("UVJETNO"))]),
                obj(vec![("datumPregleda", s("2019-06-01")), ("ishod", s("UVJETNO"))]),
            ]),
        ),
    ]);
    assert!(hak.dates_readable(&body));
    let data = hak.source_data(&body).unwrap();
    let reg = &data.registrations[0];
    assert_eq!(reg.country, "HR");
    assert_eq!(reg.status, RegistrationStatus::Deregistered);
    assert_eq!(reg.plate, Some("ZG1234AB".to_string()));
    assert_eq!(reg.first_registered, Some(date(2015, 3, 20)));
    assert_eq!(reg.deregistered, None);
    assert_eq!(reg.engine_cc, Some(1598));
    assert_eq!(reg.seats, Some(5));
    assert_eq!(reg.source, "hr_hak");
    assert_eq!(data.inspections.len(), 2);
    assert_eq!(data.inspections[0].date, date(2021, 6, 1));
    assert_eq!(data.inspections[0].result, InspectionResult::Pass);
    assert_eq!(data.inspections[0].mileage_km, Some(120000));
    assert_eq!(data.inspections[0].expiry, Some(date(2022, 6, 1)));
    assert_eq!(data.inspections[0].test_number, Some("P-1".to_string()));
    assert_eq!(data.inspections[1].result, InspectionResult::Advisory);
}

#[test]
fn hak_without_a_vin_is_not_found() {
    let hak = HrHak::new(client());
    assert_eq!(hak.source_data(&JsonValue::Null), Err(SourceError::NotFound));
    assert_eq!(hak.source_data(&obj(vec![("boja", s("crvena"))])), Err(SourceError::NotFound));
}

#[test]
fn hak_short_dates_are_not_readable() {
    let hak = HrHak::new(client());
    let body = obj(vec![("vin", s("X")), ("datumOdjave", s("2020-1-1"))]);
    assert!(!hak.dates_readable(&body));
}

#[test]
fn dvla_needs_a_key_and_is_asked_by_plate() {
    let none = UkDvla::new(client(), None);
    assert_eq!(
        none.fetch_by_vin("V"),
        Err(SourceError::Unavailable("No DVLA API key configured".to_string()))
    );
    assert_eq!(
        none.plate_api_key(),
        Err(SourceError::Unavailable("No DVLA API key configured".to_string()))
    );
    let keyed = UkDvla::new(client(), Some("k".to_string()));
    assert_eq!(keyed.fetch_by_vin("V"), Err(SourceError::NotSupported));
    assert_eq!(keyed.plate_api_key(), Ok("k".to_string()));
}

#[test]
fn dvla_answer_becomes_a_registration() {
    let dvla = UkDvla::new(client(), Some("k".to_string()));
    let v = VesResponse {
        registration_number: Some("AB12CDE".to_string()),
        make: Some("FORD".to_string()),
        fuel_type: Some("PETROL".to_string()),
        primary_colour: Some("BLUE".to_string()),
        engine_capacity: Some(1596),
        month_of_first_registration: Some("2012-09".to_string()),
        year_of_manufacture: Some(2012),
        tax_status: None,
        mot_status: None,
        marked_for_export: Some(true),
    };
    let data = dvla.source_data(v);
    let reg = &data.registrations[0];
    assert_eq!(reg.country, "GB");
    assert_eq!(reg.first_registered, Some(date(2012, 9, 1)));
    assert_eq!(reg.status, RegistrationStatus::Exported);
    assert_eq!(reg.engine_cc, Some(1596));
    assert_eq!(reg.source, "uk_dvla");
}

#[test]
fn dvsa_credentials_and_token() {
    let none = UkDvsaMot::new(client(), Some("id".to_string()), None);
    assert_eq!(
        none.credentials(),
        Err(SourceError::Unavailable("No DVSA credentials configured".to_string()))
    );
    let mot = UkDvsaMot::new(client(), Some("id".to_string()), Some("secret".to_string()));
    assert_eq!(mot.credentials(), Ok(("id".to_string(), "secret".to_string())));
    assert_eq!(
        mot.token_from_response(&obj(vec![("access_token", s("t")), ("expires_in", n(3599))])),
        Ok(("t".to_string(), 3539))
    );
    assert_eq!(
        mot.token_from_response(&obj(vec![("access_token", s("t"))])),
        Ok(("t".to_string(), 3540))
    );
    assert_eq!(
        mot.token_from_response(&obj(vec![("access_token", s("t")), ("expires_in", n(30))])),
        Ok(("t".to_string(), 0))
    );
    assert_eq!(
        mot.token_from_response(&obj(vec![])),
        Err(SourceError::Parse("No access_token in DVSA response".to_string()))
    );
}

fn mot_test(done: Option<&str>, result: &str, odo: Option<&str>, unit: &str) -> MotTest {
    MotTest {
        completed_date: done.map(|d| d.to_string()),
        test_result: Some(result.to_string()),
        odometer_value: odo.map(|o| o.to_string()),
        odometer_unit: Some(unit.to_string()),
        mot_test_number: Some("123".to_string()),
        expiry_date: Some("2024-11-01".to_string()),
        rfr_and_comments: Some(vec![
            RfrComment { text: Some("Brake pipe corroded".to_string()), kind: Some("FAIL".to_string()) },
            RfrComment { text: Some("Tyre worn".to_string()), kind: Some("ADVISORY".to_string()) },
            RfrComment { text: None, kind: Some("FAIL".to_string()) },
        ]),
    }
}

#[test]
fn dvsa_odometer_readings() {
    let mot = UkDvsaMot::new(client(), None, None);
    assert_eq!(mot.odometer(&mot_test(None, "PASSED", Some("1000"), "mi")), Odometer::Miles(1000));
    assert_eq!(mot.odometer(&mot_test(None, "PASSED", Some("1000"), "km")), Odometer::Kilometres(1000));
    assert_eq!(mot.odometer(&mot_test(None, "PASSED", Some("n/a"), "mi")), Odometer::Unreadable);
    assert_eq!(mot.odometer(&mot_test(None, "PASSED", None, "mi")), Odometer::Unreadable);
}

#[test]
fn dvsa_tests_become_inspections() {
    let mot = UkDvsaMot::new(client(), None, None);
    assert_eq!(
        mot.history_url("AB12CDE"),
        "https://history.mot.api.gov.uk/v1/trade/vehicles/registration/AB12CDE"
    );
    let tests = vec![
        mot_test(Some("2023-11-01T09:00:00.000Z"), "FAILED", Some("1000"), "mi"),
        mot_test(None, "PASSED", None, "km"),
        mot_test(Some("2022-10-30T09:00:00.000Z"), "PASSED", Some("50"), "km"),
    ];
    assert!(mot.dates_readable(&tests));
    let data = mot.source_data(tests, vec![Some(1609), None, Some(50)]);
    assert_eq!(data.inspections.len(), 2);
    let first = &data.inspections[0];
    assert_eq!(first.date, date(2023, 11, 1));
    assert_eq!(first.result, InspectionResult::Fail);
    assert_eq!(first.mileage_km, Some(1609));
    assert_eq!(first.defects, vec!["Brake pipe corroded".to_string()]);
    assert_eq!(first.advisories, vec!["Tyre worn".to_string()]);
    assert_eq!(first.expiry, Some(date(2024, 11, 1)));
    assert_eq!(first.source, "uk_dvsa_mot");
    assert_eq!(data.inspections[1].result, InspectionResult::Pass);
    assert_eq!(data.inspections[1].mileage_km, Some(50));
}

#[test]
fn dvsa_short_completion_date_is_not_readable() {
    let mot = UkDvsaMot::new(client(), None, None);
    assert!(!mot.dates_readable(&vec![mot_test(Some("2023"), "PASSED", None, "km")]));
}

#[test]
fn hak_reading_an_answer_with_a_short_date_gives_nothing() {
    let hak = HrHak::new(client());
    let short = obj(vec![("vin", s("X")), ("datumPrveRegistracije", s("2020"))]);
    assert_eq!(hak.read_answer(&short), None);
    let unknown = obj(vec![("datumPrveRegistracije", s("2020"))]);
    assert!(hak.dates_readable(&unknown));
    assert_eq!(hak.read_answer(&unknown), Some(Err(SourceError::NotFound)));
    let fine = obj(vec![("vin", s("X")), ("statusVozila", s("IZVEZENO"))]);
    let data = hak.read_answer(&fine).unwrap().unwrap();
    assert_eq!(data.registrations[0].status, RegistrationStatus::Exported);
    assert!(data.inspections.is_empty());
}

#[test]
fn dvsa_reading_tests_with_a_short_date_gives_nothing() {
    let mot = UkDvsaMot::new(client(), None, None);
    let bad = vec![mot_test(Some("2023-1-1"), "PASSED", None, "km")];
    assert_eq!(mot.read_tests(bad, vec![None]), None);
    let good = vec![mot_test(Some("2023-01-01"), "PASSED", None, "km")];
    let data = mot.read_tests(good, vec![None]).unwrap();
    assert_eq!(data.inspections.len(), 1);
    assert_eq!(data.inspections[0].mileage_km, None);
}
