use vindicate_api::error::SourceError;
use vindicate_api::models::{
    CalendarDate, Inspection, InspectionResult, Registration, RegistrationStatus, SourceData,
    SourceStatus, Timestamp, VehicleReport, VinDecode,
};
use vindicate_api::report::{assemble, classify, sort_newest_first, SourceOutcome};

fn date(year: i32, month: u32, day: u32) -> CalendarDate {
    CalendarDate { year, month, day }
}

fn inspection(d: CalendarDate, tag: &str) -> Inspection {
    Inspection {
        country: "GB".to_string(),
        date: d,
        result: InspectionResult::Pass,
        mileage_km: None,
        defects: vec![],
        advisories: vec![],
        expiry: None,
        test_number: Some(tag.to_string()),
        source: "test".to_string(),
    }
}

fn tags(v: &[Inspection]) -> Vec<String> {
    v.iter().map(|i| i.test_number.clone().unwrap()).collect()
}

fn empty_data() -> SourceData {
    SourceData {
        registrations: vec![],
        inspections: vec![],
        recalls: vec![],
        encumbrances: vec![],
        decode: None,
    }
}

fn decode(make: &str) -> VinDecode {
    VinDecode {
        make: Some(make.to_string()),
        model: None,
        year: None,
        body_style: None,
        engine: None,
        fuel_type: None,
        transmission: None,
        drive_type: None,
        plant_country: None,
        plant_city: None,
        manufacturer: None,
        wmi: "1HG".to_string(),
        series: None,
        trim: None,
    }
}

fn registration(country: &str) -> Registration {
    Registration {
        country: country.to_string(),
        plate: None,
        first_registered: None,
        deregistered: None,
        status: RegistrationStatus::Active,
        color: None,
        fuel: None,
        body: None,
        engine_cc: None,
        power_kw: None,
        seats: None,
        weight_kg: None,
        source: "test".to_string(),
    }
}

fn outcome(id: &str, result: Result<SourceData, SourceError>, cached: bool) -> SourceOutcome {
    SourceOutcome {
        id: id.to_string(),
        country: "XX".to_string(),
        name: format!("{} name", id),
        result,
        queried_at: Timestamp { secs: 1_700_000_000, nanos: 5 },
        cached,
    }
}

#[test]
fn sorts_newest_first_and_keeps_ties_in_order() {
    let v = vec![
        inspection(date(2020, 5, 1), "a"),
        inspection(date(2022, 1, 9), "b"),
        inspection(date(2020, 5, 1), "c"),
        inspection(date(2021, 12, 31), "d"),
        inspection(date(2022, 1, 9), "e"),
    ];
    let sorted = sort_newest_first(v);
    assert_eq!(tags(&sorted), vec!["b", "e", "d", "a", "c"]);
}

#[test]
fn sorting_twice_changes_nothing() {
    let v = vec![
        inspection(date(2019, 3, 4), "x"),
        inspection(date(2023, 3, 4), "y"),
        inspection(date(2019, 3, 4), "z"),
    ];
    let once = sort_newest_first(v);
    let twice = sort_newest_first(once.clone());
    assert_eq!(once, twice);
    assert_eq!(tags(&twice), vec!["y", "x", "z"]);
}

#[test]
fn sorting_an_empty_list_gives_an_empty_list() {
    assert!(sort_newest_first(vec![]).is_empty());
}

#[test]
fn classifies_each_kind_of_result() {
    assert_eq!(classify(&Ok(empty_data())), (SourceStatus::Success, None));
    assert_eq!(classify(&Err(SourceError::NotFound)), (SourceStatus::NotFound, None));
    assert_eq!(
        classify(&Err(SourceError::RateLimited)),
        (SourceStatus::RateLimited, Some("Rate limited".to_string()))
    );
    assert_eq!(classify(&Err(SourceError::NotSupported)), (SourceStatus::Skipped, None));
    assert_eq!(
        classify(&Err(SourceError::Unavailable("Geo-restricted".to_string()))),
        (SourceStatus::Skipped, Some("Geo-restricted".to_string()))
    );
    assert_eq!(
        classify(&Err(SourceError::Http("timed out".to_string()))),
        (SourceStatus::Error, Some("HTTP error: timed out".to_string()))
    );
    assert_eq!(
        classify(&Err(SourceError::Parse("bad json".to_string()))),
        (SourceStatus::Error, Some("Parse error: bad json".to_string()))
    );
}

#[test]
fn assembles_sources_in_order_and_merges_only_answers() {
    let report = VehicleReport::new("1HGCM82633A004352");
    let mut first = empty_data();
    first.decode = Some(decode("HONDA"));
    first.inspections = vec![inspection(date(2018, 1, 1), "old")];
    let mut second = empty_data();
    second.decode = Some(decode("OTHER"));
    second.registrations = vec![registration("HR")];
    second.inspections = vec![inspection(date(2021, 6, 1), "new")];
    let outcomes = vec![
        outcome("a", Ok(first), true),
        outcome("b", Err(SourceError::Unavailable("down".to_string())), false),
        outcome("c", Ok(second), false),
    ];
    let r = assemble(report, outcomes);
    assert_eq!(r.vin, "1HGCM82633A004352");
    let ids: Vec<&str> = r.sources.iter().map(|s| s.id.as_str()).collect();
    assert_eq!(ids, vec!["a", "b", "c"]);
    assert_eq!(r.sources[0].status, SourceStatus::Success);
    assert!(r.sources[0].cached);
    assert_eq!(r.sources[1].status, SourceStatus::Skipped);
    assert_eq!(r.sources[1].error, Some("down".to_string()));
    assert_eq!(r.sources[1].name, "b name");
    assert_eq!(r.sources[2].queried_at, Timestamp { secs: 1_700_000_000, nanos: 5 });
    assert_eq!(r.decode.unwrap().make, Some("HONDA".to_string()));
    assert_eq!(r.registrations.len(), 1);
    assert_eq!(r.registrations[0].country, "HR");
    assert_eq!(tags(&r.inspections), vec!["new", "old"]);
}

#[test]
fn a_failed_source_contributes_only_its_entry() {
    let report = VehicleReport::new("1HGCM82633A004352");
    let r = assemble(report, vec![outcome("x", Err(SourceError::NotFound), false)]);
    assert_eq!(r.sources.len(), 1);
    assert_eq!(r.sources[0].status, SourceStatus::NotFound);
    assert_eq!(r.sources[0].error, None);
    assert!(r.decode.is_none());
    assert!(r.registrations.is_empty() && r.inspections.is_empty());
}

#[test]
fn a_new_report_is_empty_and_stamped() {
    let r = VehicleReport::new("WVWZZZ1JZXW000001");
    assert_eq!(r.vin, "WVWZZZ1JZXW000001");
    assert!(r.sources.is_empty() && r.recalls.is_empty() && r.encumbrances.is_empty());
    assert!(r.generated_at.secs > 1_600_000_000);
    assert!(r.generated_at.nanos < 2_000_000_000);
}

#[test]
fn absorbing_keeps_an_existing_decode() {
    let mut report = VehicleReport::new("1HGCM82633A004352");
    let mut data = empty_data();
    data.decode = Some(decode("FIRST"));
    report.absorb(outcome("a", Ok(data), false));
    let mut later = empty_data();
    later.decode = Some(decode("SECOND"));
    report.absorb(outcome("b", Ok(later), false));
    assert_eq!(report.decode.unwrap().make, Some("FIRST".to_string()));
    assert_eq!(report.sources.len(), 2);
}
