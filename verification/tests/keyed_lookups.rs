//! Keyed record lookups of the store and the file-name choices around them.

use ref_data::cbsa::{CbsaDesignation, CbsaEntry};
use ref_data::lender::{LenderOverlays, LenderProfile};
use ref_data::lookup::{
    select_cbsa, select_lender_overlays, select_lender_profile, select_rate_sheet,
    select_rural_eligibility, select_zip_hoi,
};
use ref_data::money::{Cents, ProgramCode};
use ref_data::store::{is_rate_sheet_file, zip_hoi_candidate};
use ref_data::{CalendarDate, RateSheet, UsdaruralEligibility, ZipHoiRate};

fn rural(geoid: &str, sfh: bool) -> UsdaruralEligibility {
    UsdaruralEligibility {
        geoid: geoid.to_owned(),
        fips_code: "48209".to_owned(),
        state_abbr: "TX".to_owned(),
        is_sfh_eligible: sfh,
        is_mfh_eligible: false,
        pct_eligible_bps: None,
        source_version: "2018-08-23".to_owned(),
    }
}

#[test]
fn first_record_with_the_key_answers() {
    let recs = vec![rural("48209010905", true), rural("48209010906", false), rural("48209010905", false)];
    let r = select_rural_eligibility(recs.clone(), "48209010905").unwrap();
    assert!(r.is_sfh_eligible);
    assert!(!select_rural_eligibility(recs.clone(), "48209010906").unwrap().is_sfh_eligible);
    assert!(select_rural_eligibility(recs, "48209010907").is_none());
    assert!(select_rural_eligibility(Vec::new(), "48209010905").is_none());
}

#[test]
fn cbsa_and_zip_lookups() {
    let c = |fips: &str, d: CbsaDesignation| CbsaEntry {
        fips_code: fips.to_owned(),
        cbsa_code: None,
        cbsa_name: None,
        designation: d,
        is_metro: false,
    };
    let recs = vec![c("48209", CbsaDesignation::Metropolitan), c("48001", CbsaDesignation::Rural)];
    assert_eq!(select_cbsa(recs.clone(), "48001").unwrap().designation, CbsaDesignation::Rural);
    assert!(select_cbsa(recs, "48002").is_none());
    let z = |zip: &str, bps: u16| ZipHoiRate {
        zip5: zip.to_owned(),
        state_abbr: "TX".to_owned(),
        annual_rate_bps: bps,
        median_annual_premium_cents: Some(Cents(250_000)),
        sample_size: None,
        effective_year: 2025,
    };
    assert_eq!(select_zip_hoi(vec![z("78666", 95), z("78701", 80)], "78701").unwrap().annual_rate_bps, 80);
    assert!(select_zip_hoi(vec![z("78666", 95)], "78667").is_none());
}

#[test]
fn lender_lookups_match_lender_and_program() {
    let p = |id: &str, active: bool| LenderProfile { lender_id: id.to_owned(), name: id.to_uppercase(), nmls_id: None, active };
    assert!(!select_lender_profile(vec![p("acme", true), p("beta", false)], "beta").unwrap().active);
    assert!(select_lender_profile(vec![p("acme", true)], "gamma").is_none());
    let o = |id: &str, program: ProgramCode, score: u16| LenderOverlays {
        lender_id: id.to_owned(),
        program,
        min_credit_score_override: Some(score),
        max_ltv_bps_override: None,
        dti_max_bps_override: None,
        effective_date: CalendarDate::from_ymd_opt(2025, 1, 1).unwrap(),
    };
    let recs = vec![o("acme", ProgramCode::Fha, 620), o("acme", ProgramCode::Va, 600), o("beta", ProgramCode::Va, 640)];
    assert_eq!(select_lender_overlays(recs.clone(), "acme", ProgramCode::Va).unwrap().min_credit_score_override, Some(600));
    assert_eq!(select_lender_overlays(recs.clone(), "beta", ProgramCode::Va).unwrap().min_credit_score_override, Some(640));
    assert!(select_lender_overlays(recs, "beta", ProgramCode::Fha).is_none());
}

#[test]
fn rate_sheet_lookup_by_lender() {
    let s = |id: &str| RateSheet { lender_id: id.to_owned(), as_of: "2025-06-01".to_owned(), entries: Vec::new() };
    assert_eq!(select_rate_sheet(vec![s("acme"), s("beta")], "beta").unwrap().lender_id, "beta");
    assert!(select_rate_sheet(vec![s("acme")], "beta").is_none());
}

#[test]
fn rate_sheet_file_names() {
    assert!(is_rate_sheet_file("rate_sheet_acme.json"));
    assert!(is_rate_sheet_file("rate_sheet_.json"));
    assert!(!is_rate_sheet_file("rate_sheet_acme.json.bak"));
    assert!(!is_rate_sheet_file("rate_sheets.json"));
    assert!(!is_rate_sheet_file("llpa_matrix_fnma_2025.json"));
}

#[test]
fn zip_hoi_scan_keeps_the_latest_year_not_after_the_request() {
    assert_eq!(zip_hoi_candidate("zip_hoi_rates_tx_2024.json", 2025, None), Some(2024));
    assert_eq!(zip_hoi_candidate("zip_hoi_rates_tx_2025.json", 2025, Some(2024)), Some(2025));
    assert_eq!(zip_hoi_candidate("zip_hoi_rates_ca_2025.json", 2025, Some(2025)), None);
    assert_eq!(zip_hoi_candidate("zip_hoi_rates_tx_2026.json", 2025, None), None);
    assert_eq!(zip_hoi_candidate("zip_hoi_rates_tx_2023.json", 2025, Some(2024)), None);
    assert_eq!(zip_hoi_candidate("state_hoi_rates_2025.json", 2025, None), None);
}
