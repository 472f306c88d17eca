//! Versioned-file resolution, record selection, SQL rows and errors.

use ref_data::geo::{AmiTractData, FhaLimitType, FhaLoanLimits, GseLoanLimits, UsdaruralEligibility};
use ref_data::money::{Cents, ProgramCode};
use ref_data::sql_rows::{
    ami_from_row, date_or_default, fha_limits_from_row, program_rules_from_row, AmiRow,
    FhaLimitsRow, ProgramRulesRow,
};
use ref_data::store::{
    assemble_geo_eligibility, date_year_or, designation_str, find_years, latest_year,
    limit_type_str, parse_designation, parse_limit_type, parse_u16, program_code_str,
    resolve_year, resolve_year_or_error, select_ami_data, select_fha_limits, select_state_hoi,
    versioned_file_name, versioned_file_year, zip_hoi_file_year,
};
use ref_data::{CalendarDate, CbsaDesignation, JsonFileStore, RefDataError, StateHoiRate};

fn names(v: &[&str]) -> Vec<String> {
    v.iter().map(|s| s.to_string()).collect()
}

#[test]
fn parses_u16_like_str_parse() {
    assert_eq!(parse_u16("2025"), Some(2025));
    assert_eq!(parse_u16("+7"), Some(7));
    assert_eq!(parse_u16("007"), Some(7));
    assert_eq!(parse_u16("65535"), Some(65535));
    assert_eq!(parse_u16("65536"), None);
    assert_eq!(parse_u16(""), None);
    assert_eq!(parse_u16("+"), None);
    assert_eq!(parse_u16("-1"), None);
    assert_eq!(parse_u16("20x5"), None);
    for s in ["0", "12", "+65535", "99999", "1_0"] {
        assert_eq!(parse_u16(s), s.parse::<u16>().ok(), "{s}");
    }
}

#[test]
fn versioned_file_names() {
    assert_eq!(versioned_file_year("fha_limits_2025.json", "fha_limits"), Some(2025));
    assert_eq!(versioned_file_year("fha_limits_2025.json.bak", "fha_limits"), None);
    assert_eq!(versioned_file_year("fha_limits.json", "fha_limits"), None);
    assert_eq!(versioned_file_year("gse_limits_2025.json", "fha_limits"), None);
    assert_eq!(versioned_file_year("fha_limits_tx_2025.json", "fha_limits"), None);
    assert_eq!(versioned_file_name("mcc_catalog", 2024), "mcc_catalog_2024.json");
}

#[test]
fn year_resolution_takes_latest_not_after_request() {
    let n = names(&[
        "fha_limits_2023.json",
        "fha_limits_2025.json",
        "fha_limits_2024.json",
        "fha_limits_2027.json",
        "gse_limits_2026.json",
        "README.md",
    ]);
    assert_eq!(find_years(&n, "fha_limits"), vec![2023, 2025, 2024, 2027]);
    assert_eq!(resolve_year(&n, "fha_limits", 2026), Some(2025));
    assert_eq!(resolve_year(&n, "fha_limits", 2024), Some(2024));
    assert_eq!(resolve_year(&n, "fha_limits", 2022), None);
    assert_eq!(latest_year(&n, "fha_limits"), Some(2027));
    assert_eq!(latest_year(&n, "ami_tract_data"), None);
    match resolve_year_or_error(&n, "fha_limits", 2022) {
        Err(RefDataError::Storage(m)) => assert_eq!(m, "no fha_limits file found for year ≤ 2022"),
        other => panic!("unexpected {other:?}"),
    }
}

#[test]
fn zip_hoi_file_names() {
    assert_eq!(zip_hoi_file_year("zip_hoi_rates_tx_2025.json"), Some(2025));
    assert_eq!(zip_hoi_file_year("zip_hoi_rates_2024.json"), Some(2024));
    assert_eq!(zip_hoi_file_year("zip_hoi_rates_tx_2025.json.json"), Some(2025));
    assert_eq!(zip_hoi_file_year("zip_hoi_rates_tx.json"), None);
    assert_eq!(zip_hoi_file_year("state_hoi_rates_2025.json"), None);
}

fn fha(fips: &str) -> FhaLoanLimits {
    FhaLoanLimits {
        fips_code: fips.to_owned(),
        state_abbr: "TX".to_owned(),
        county_name: "Hays".to_owned(),
        limit_type: FhaLimitType::Standard,
        limit_1_unit: Cents(52_422_500),
        limit_2_unit: Cents(67_100_000),
        limit_3_unit: Cents(81_100_000),
        limit_4_unit: Cents(100_757_500),
        effective_year: 2025,
    }
}

#[test]
fn selects_county_records() {
    let v = select_fha_limits(vec![fha("48453"), fha("48209")], "48209", 2025).unwrap();
    assert_eq!(v.data.fips_code, "48209");
    assert_eq!(v.version_id.as_str(), "fha_loan_limits:2025-01-01");
    match select_fha_limits(vec![fha("48453")], "99999", 2024) {
        Err(RefDataError::NotFound { data_type, fips, year }) => {
            assert_eq!((data_type, fips.as_str(), year), ("FhaLoanLimits", "99999", 2024));
        }
        other => panic!("unexpected {other:?}"),
    }
}

#[test]
fn state_hoi_matches_case_insensitively() {
    let recs = vec![StateHoiRate { state_abbr: "TX".to_owned(), annual_rate_bps: 56, effective_year: 2025 }];
    assert_eq!(select_state_hoi(recs.clone(), "tx", 2025).unwrap().annual_rate_bps, 56);
    assert!(matches!(select_state_hoi(recs, "ZZ", 2025), Err(RefDataError::NotFound { year: 2025, .. })));
}

fn ami() -> AmiTractData {
    AmiTractData {
        geoid: "48209010905".to_owned(),
        fips_code: "48209".to_owned(),
        state_abbr: "TX".to_owned(),
        county_name: "Hays".to_owned(),
        tract_name: None,
        ami_100pct: Some(Cents(11_700_000)),
        ami_50pct: Some(Cents(5_850_000)),
        ami_80pct: Some(Cents(9_360_000)),
        ami_115pct: Some(Cents(13_455_000)),
        ami_120pct: None,
        ami_140pct: None,
        is_low_income_tract: false,
        hp_income_limit_waived: true,
        effective_year: 2025,
    }
}

#[test]
fn assembles_geo_eligibility() {
    let f = fha("48209");
    let g = GseLoanLimits {
        fips_code: "48209".to_owned(),
        state_abbr: "TX".to_owned(),
        county_name: "Hays".to_owned(),
        cbsa_name: None,
        limit_1_unit: Cents(80_650_000),
        limit_2_unit: Cents(103_265_000),
        limit_3_unit: Cents(124_815_000),
        limit_4_unit: Cents(155_125_000),
        is_high_cost: false,
        effective_year: 2025,
    };
    let u = UsdaruralEligibility {
        geoid: "48209010905".to_owned(),
        fips_code: "48209".to_owned(),
        state_abbr: "TX".to_owned(),
        is_sfh_eligible: true,
        is_mfh_eligible: false,
        pct_eligible_bps: Some(9850),
        source_version: "2018-08-23".to_owned(),
    };
    let a = ami();
    let e = assemble_geo_eligibility("48209", Some("48209010905"), 2025, &f, &g, Some(&u), None, Some(&a));
    assert_eq!(e.fha_limit_1_unit, Cents(52_422_500));
    assert_eq!(e.gse_limit_4_unit, Cents(155_125_000));
    assert!(e.usda_sfh_eligible && !e.usda_mfh_eligible);
    assert_eq!(e.usda_pct_eligible_bps, Some(9850));
    assert_eq!(e.usda_income_limits, [Cents(0); 8]);
    assert_eq!(e.ami_80pct, Some(Cents(9_360_000)));
    assert!(e.hp_income_limit_waived);
    assert_eq!(e.tract_geoid.as_deref(), Some("48209010905"));
    let bare = assemble_geo_eligibility("48209", None, 2025, &f, &g, None, None, None);
    assert!(!bare.usda_sfh_eligible && bare.ami_100pct.is_none() && !bare.hp_income_limit_waived);
    let v = select_ami_data(vec![ami()], "48209010905", 2024).unwrap();
    assert_eq!(v.version_id.as_str(), "ami_tract_data:2024-01-01");
    assert!(select_ami_data(vec![ami()], "1", 2024).is_none());
}

#[test]
fn stored_names_round_trip() {
    for lt in [FhaLimitType::Floor, FhaLimitType::Standard, FhaLimitType::HighCost] {
        assert_eq!(parse_limit_type(limit_type_str(lt)), lt);
    }
    assert_eq!(parse_limit_type("bogus"), FhaLimitType::Standard);
    for d in [CbsaDesignation::Metropolitan, CbsaDesignation::Micropolitan, CbsaDesignation::Rural] {
        assert_eq!(parse_designation(designation_str(d)), d);
    }
    assert_eq!(parse_designation("metro"), CbsaDesignation::Rural);
    assert_eq!(program_code_str(ProgramCode::NonQm), "non_qm");
    assert_eq!(program_code_str(ProgramCode::HomeReady), "home_ready");
}

#[test]
fn sql_rows_become_records() {
    let v = fha_limits_from_row(
        "48209",
        FhaLimitsRow {
            state_abbr: "TX".to_owned(),
            county_name: "Hays".to_owned(),
            limit_type: "HighCost".to_owned(),
            limit_1_unit: 1,
            limit_2_unit: 2,
            limit_3_unit: 3,
            limit_4_unit: 4,
            effective_year: 2024,
        },
    );
    assert_eq!(v.data.limit_type, FhaLimitType::HighCost);
    assert_eq!(v.version_id.as_str(), "fha_loan_limits:2024-01-01");
    let a = ami_from_row(
        "g",
        AmiRow {
            fips_code: "48209".to_owned(),
            state_abbr: "TX".to_owned(),
            county_name: "Hays".to_owned(),
            tract_name: None,
            ami_100pct: Some(100),
            ami_50pct: None,
            ami_80pct: None,
            ami_115pct: None,
            ami_120pct: None,
            ami_140pct: None,
            is_low_income_tract: 2,
            hp_income_limit_waived: 0,
            effective_year: 2025,
        },
    );
    assert_eq!(a.data.ami_100pct, Some(Cents(100)));
    assert!(a.data.is_low_income_tract && !a.data.hp_income_limit_waived);
    let row = ProgramRulesRow {
        min_credit_score: 580,
        min_credit_score_alt: Some(500),
        alt_credit_min_down_payment_bps: Some(1000),
        max_ltv_bps: 9650,
        max_ltv_bps_alt_credit: Some(9000),
        max_ltv_bps_high_balance: None,
        front_end_dti_max_bps: 3100,
        requires_primary_residence: 1,
        requires_first_time_buyer: 0,
        requires_va_entitlement: 0,
        requires_usda_eligibility: 0,
        requires_ami_income_check: 0,
        effective_date: "2024-03-15".to_owned(),
    };
    let r = program_rules_from_row(ProgramCode::Fha, &row);
    assert_eq!(r.min_credit_score_alt, Some(500));
    assert!(r.requires_primary_residence);
    assert_eq!(r.effective_date, CalendarDate::from_ymd_opt(2024, 3, 15).unwrap());
}

#[test]
fn dates_parse_or_default() {
    assert_eq!(date_or_default("2025-10-01").format_ymd(), "2025-10-01");
    assert_eq!(date_or_default("2024-02-29").format_ymd(), "2024-02-29");
    assert_eq!(date_or_default("2023-02-29").format_ymd(), "1970-01-01");
    assert_eq!(date_or_default("not a date").format_ymd(), "1970-01-01");
    assert_eq!(date_year_or(CalendarDate::from_ymd_opt(2025, 6, 1).unwrap(), 2025), 2025);
    assert_eq!(date_year_or(CalendarDate::from_ymd_opt(-5, 6, 1).unwrap(), 2025), 2025);
    assert_eq!(date_year_or(CalendarDate::from_ymd_opt(70000, 1, 1).unwrap(), 0), 0);
}

#[test]
fn calendar_dates() {
    assert!(CalendarDate::from_ymd_opt(2024, 2, 29).is_some());
    assert!(CalendarDate::from_ymd_opt(2023, 2, 29).is_none());
    assert!(CalendarDate::from_ymd_opt(1900, 2, 29).is_none());
    assert!(CalendarDate::from_ymd_opt(2000, 2, 29).is_some());
    assert!(CalendarDate::from_ymd_opt(2025, 4, 31).is_none());
    assert!(CalendarDate::from_ymd_opt(2025, 13, 1).is_none());
    assert!(CalendarDate::from_ymd_opt(2025, 1, 0).is_none());
    assert_eq!(CalendarDate::from_ymd_opt(99, 7, 4).unwrap().format_ymd(), "0099-07-04");
    assert_eq!(CalendarDate::from_ymd_opt(12345, 7, 4).unwrap().format_ymd(), "+12345-07-04");
    assert_eq!(CalendarDate::from_ymd_opt(-44, 3, 15).unwrap().format_ymd(), "-0044-03-15");
}

#[test]
fn error_messages() {
    assert_eq!(RefDataError::Storage("x".to_owned()).message(), "storage error: x");
    assert_eq!(
        RefDataError::InvalidHouseholdSize(0).message(),
        "household size 0 is outside the valid USDA range of 1–8"
    );
    assert_eq!(
        RefDataError::InvalidGeoid("123".to_owned()).message(),
        "census tract GEOID '123' must be 11 digits (state2+county3+tract6)"
    );
    assert_eq!(
        RefDataError::UsdaIncomeLimitNotFound { fips: "48209".to_owned(), household_size: 3 }.message(),
        "no USDA income limit for FIPS '48209', size 3"
    );
    assert_eq!(
        RefDataError::DataIntegrity { table: "fha", detail: "null".to_owned() }.message(),
        "data integrity error in fha: null"
    );
    assert_eq!(
        RefDataError::StaleManifest("v1".to_owned()).message(),
        "version 'v1' referenced in manifest is not present in the store"
    );
    let source = serde_json::from_str::<u32>("nope").unwrap_err();
    let text = source.to_string();
    let e = RefDataError::Json { file: "a.json".to_owned(), source };
    assert_eq!(e.message(), format!("JSON error in a.json: {text}"));
}

#[test]
fn store_keeps_its_directory() {
    let s = JsonFileStore::new(std::path::PathBuf::from("/srv/ref_data"));
    assert_eq!(s.data_dir, std::path::PathBuf::from("/srv/ref_data"));
}
