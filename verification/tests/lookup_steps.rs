use vindicate_api::cache::{Cache, REPORT_TTL_SECS};
use vindicate_api::lookup::{after_report_read, ReportStep};
use vindicate_api::models::VehicleReport;
use vindicate_api::sources::registry::registry_ids;
use vindicate_api::sources::tier_a::{es_dgt, hr_hak, is_samgongustofa, it_aci, lt_regitra};
use vindicate_api::sources::tier_b::{bg_mobile, de_kba, fr_histovec};
use vindicate_api::sources::tier_s::uk_dvsa_mot::{fresh_token, reusable_token, Odometer, TokenCache};
use vindicate_api::sources::tier_s::{
    cz_kontrolatachometru, dk_dmr, ee_transpordiamet, lv_csdd, nl_rdw, no_vegvesen,
    pl_historiapojazdu, se_transportstyrelsen, si_avtolog, sk_stkonline, ua_hsc,
};
use vindicate_api::sources::universal::{eu_safety_gate, nhtsa_recalls, nhtsa_vpic};

const VIN: &str = "WVWZZZ1JZXW000001";

#[test]
fn cached_report_is_returned_as_it_is() {
    let again = VehicleReport::new(VIN);
    match after_report_read(VIN, Some(again)) {
        ReportStep::Cached(r) => {
            assert_eq!(r.vin, VIN);
            assert!(r.sources.is_empty());
        }
        ReportStep::Assemble { .. } => panic!("a cached report must not be assembled again"),
    }
}

#[test]
fn missing_report_is_assembled_and_cached_for_an_hour() {
    match after_report_read(VIN, None) {
        ReportStep::Assemble { start, ttl_secs } => {
            assert_eq!(ttl_secs, 3600);
            assert_eq!(ttl_secs, REPORT_TTL_SECS);
            assert_eq!(start.vin, VIN);
            assert!(start.decode.is_none());
            assert!(start.sources.is_empty());
            assert!(start.inspections.is_empty());
        }
        ReportStep::Cached(_) => panic!("nothing was cached"),
    }
}

#[test]
fn token_is_reused_only_before_it_expires() {
    let stored = Some(TokenCache { access_token: "abc".to_string(), expires_at_ms: 5000 });
    assert_eq!(reusable_token(&stored, 4999), Some("abc".to_string()));
    assert_eq!(reusable_token(&stored, 5000), None);
    assert_eq!(reusable_token(&stored, 9000), None);
    assert_eq!(reusable_token(&None, 0), None);
}

#[test]
fn fresh_token_expires_after_its_lifetime() {
    let t = fresh_token("tok".to_string(), 3540, 1000);
    assert_eq!(t.access_token, "tok");
    assert_eq!(t.expires_at_ms, 3_541_000);
    let late = fresh_token("tok".to_string(), u64::MAX, 7);
    assert_eq!(late.expires_at_ms, u64::MAX);
    assert_eq!(reusable_token(&Some(t), 3_540_999), Some("tok".to_string()));
}

#[test]
fn odometer_kilometres() {
    assert_eq!(Odometer::Unreadable.kilometres(Some(9)), None);
    assert_eq!(Odometer::Kilometres(120).kilometres(Some(9)), Some(120));
    assert_eq!(Odometer::Miles(100).kilometres(Some(160)), Some(160));
    assert_eq!(Odometer::Miles(100).miles(), Some(100));
    assert_eq!(Odometer::Kilometres(100).miles(), None);
    assert_eq!(Odometer::Unreadable.miles(), None);
}

#[test]
fn registry_ids_match_the_sources() {
    let c = reqwest::Client::new();
    let ids: Vec<&str> = vec![
        nhtsa_vpic::NhtsaVpic::new(c.clone()).id(),
        nhtsa_recalls::NhtsaRecalls::new(c.clone()).id(),
        eu_safety_gate::EuSafetyGate::new(c.clone()).id(),
        nl_rdw::NlRdw::new(c.clone()).id(),
        dk_dmr::DkDmr::new(c.clone()).id(),
        se_transportstyrelsen::SeTransportstyrelsen::new(c.clone()).id(),
        no_vegvesen::NoVegvesen::new(c.clone()).id(),
        pl_historiapojazdu::PlHistoriaPojazdu::new(c.clone()).id(),
        cz_kontrolatachometru::CzKontrolaTachometru::new(c.clone()).id(),
        sk_stkonline::SkStkonline::new(c.clone()).id(),
        si_avtolog::SiAvtolog::new(c.clone()).id(),
        ee_transpordiamet::EeTranspordiamet::new(c.clone()).id(),
        lv_csdd::LvCsdd::new(c.clone()).id(),
        ua_hsc::UaHsc::new(c.clone()).id(),
        hr_hak::HrHak::new(c.clone()).id(),
        lt_regitra::LtRegitra::new(c.clone()).id(),
        is_samgongustofa::IsSamgongustofa::new(c.clone()).id(),
        es_dgt::EsDgt::new(c.clone()).id(),
        it_aci::ItAci::new(c.clone()).id(),
        de_kba::DeKba::new(c.clone()).id(),
        fr_histovec::FrHistovec::new(c.clone()).id(),
        bg_mobile::BgMobile::new(c.clone()).id(),
    ];
    assert_eq!(registry_ids(), ids);
}

#[test]
fn registry_cache_keys_are_distinct() {
    let ids = registry_ids();
    assert_eq!(ids.len(), 22);
    let keys: Vec<String> = ids.iter().map(|id| Cache::vin_key(id, VIN)).collect();
    for i in 0..keys.len() {
        for j in (i + 1)..keys.len() {
            assert_ne!(keys[i], keys[j]);
        }
    }
    assert_eq!(keys[3], "v1:nl_rdw:WVWZZZ1JZXW000001");
}
