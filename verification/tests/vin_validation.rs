use vindicate_api::cache::Cache;
use vindicate_api::error::ApiError;
use vindicate_api::vin::{normalize_vin, report_key, validate_vin};

#[test]
fn accepts_a_well_formed_vin() {
    assert_eq!(validate_vin("1HGCM82633A004352"), Ok(()));
}

#[test]
fn accepts_lowercase_letters_other_than_the_forbidden_capitals() {
    assert_eq!(validate_vin("1hgcm82633a004352"), Ok(()));
}

#[test]
fn rejects_a_short_vin_with_its_length() {
    assert_eq!(
        validate_vin("ABC"),
        Err(ApiError::InvalidVin("VIN must be 17 characters, got 3".to_string()))
    );
}

#[test]
fn rejects_an_empty_vin() {
    assert_eq!(
        validate_vin(""),
        Err(ApiError::InvalidVin("VIN must be 17 characters, got 0".to_string()))
    );
}

#[test]
fn length_counts_bytes_not_characters() {
    // 16 ASCII characters and one two-byte character: 18 bytes.
    assert_eq!(
        validate_vin("1HGCM82633A00435é"),
        Err(ApiError::InvalidVin("VIN must be 17 characters, got 18".to_string()))
    );
}

#[test]
fn rejects_forbidden_letters() {
    for bad in ["1HGCM82633A00435I", "OHGCM82633A004352", "1HGCM82Q33A004352"] {
        assert_eq!(
            validate_vin(bad),
            Err(ApiError::InvalidVin(
                "VIN contains invalid characters (I, O, Q not allowed)".to_string()
            ))
        );
    }
}

#[test]
fn rejects_punctuation() {
    assert_eq!(
        validate_vin("1HGCM82633A00435-"),
        Err(ApiError::InvalidVin(
            "VIN contains invalid characters (I, O, Q not allowed)".to_string()
        ))
    );
}

#[test]
fn normalizing_upper_cases_the_vin() {
    assert_eq!(normalize_vin("1hgcm82633a004352"), Ok("1HGCM82633A004352".to_string()));
}

#[test]
fn normalizing_rejects_a_lowercase_i_once_upper_cased() {
    assert_eq!(
        normalize_vin("1hgcm82633a00435i"),
        Err(ApiError::InvalidVin(
            "VIN contains invalid characters (I, O, Q not allowed)".to_string()
        ))
    );
}

#[test]
fn report_key_prefixes_the_vin() {
    assert_eq!(report_key("1HGCM82633A004352"), "report:1HGCM82633A004352");
}

#[test]
fn source_cache_key_upper_cases_the_vin() {
    assert_eq!(
        Cache::vin_key("nhtsa_vpic", "1hgcm82633a004352"),
        "v1:nhtsa_vpic:1HGCM82633A004352"
    );
}
