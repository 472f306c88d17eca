//! CBSA / MSA crosswalk and Texas HOI premiums by ZIP.

use ref_data::lookup::{select_cbsa, select_zip_hoi};
use ref_data::money::Cents;
use ref_data::sql_rows::{state_hoi_from_row, zip_hoi_from_row, ZipHoiRow};
use ref_data::store::{designation_str, parse_designation, resolve_year_or_error, select_state_hoi, zip_hoi_candidate};
use ref_data::{CbsaDesignation, CbsaEntry, RefDataResult, StateHoiRate, ZipHoiRate};

/// The crosswalk, the state HOI table and the ZIP HOI files as the data
/// directory ships them.
struct GeoStore {
    names: Vec<String>,
}

fn store() -> GeoStore {
    GeoStore {
        names: vec![
            "cbsa_crosswalk.json".to_owned(),
            "state_hoi_rates_2025.json".to_owned(),
            "zip_hoi_rates_tx_2024.json".to_owned(),
            "zip_hoi_rates_tx_2025.json".to_owned(),
        ],
    }
}

fn cbsa(fips: &str, code: Option<&str>, name: Option<&str>, designation: CbsaDesignation) -> CbsaEntry {
    CbsaEntry {
        fips_code: fips.to_owned(),
        cbsa_code: code.map(str::to_owned),
        cbsa_name: name.map(str::to_owned),
        designation,
        is_metro: designation == CbsaDesignation::Metropolitan,
    }
}

fn zip(zip5: &str, bps: u16, median: i64, sample: u32, year: u16) -> ZipHoiRate {
    ZipHoiRate {
        zip5: zip5.to_owned(),
        state_abbr: "TX".to_owned(),
        annual_rate_bps: bps,
        median_annual_premium_cents: Some(Cents(median)),
        sample_size: Some(sample),
        effective_year: year,
    }
}

fn zip_file(year: u16) -> Vec<ZipHoiRate> {
    if year == 2024 {
        vec![zip("78640", 60, 276_000, 4_120, 2024)]
    } else {
        vec![
            zip("78640", 62, 284_400, 4_318, 2025),
            zip("78701", 48, 312_500, 2_207, 2025),
            zip("78666", 65, 265_000, 3_940, 2025),
        ]
    }
}

impl GeoStore {
    fn cbsa_for_county(&self, fips_code: &str) -> RefDataResult<Option<CbsaEntry>> {
        let records = vec![
            cbsa("48209", Some("12420"), Some("Austin-Round Rock-San Marcos, TX"), CbsaDesignation::Metropolitan),
            cbsa("48453", Some("12420"), Some("Austin-Round Rock-San Marcos, TX"), CbsaDesignation::Metropolitan),
            cbsa("06075", Some("41860"), Some("San Francisco-Oakland-Fremont, CA"), CbsaDesignation::Metropolitan),
            cbsa("06037", Some("31080"), Some("Los Angeles-Long Beach-Anaheim, CA"), CbsaDesignation::Metropolitan),
            cbsa("12086", Some("33100"), Some("Miami-Fort Lauderdale-West Palm Beach, FL"), CbsaDesignation::Metropolitan),
            cbsa("36061", Some("35620"), Some("New York-Newark-Jersey City, NY-NJ"), CbsaDesignation::Metropolitan),
            cbsa("48299", Some("32320"), Some("Marble Falls, TX"), CbsaDesignation::Micropolitan),
            cbsa("48107", None, None, CbsaDesignation::Rural),
        ];
        Ok(select_cbsa(records, fips_code))
    }

    fn state_hoi_rate(&self, state_abbr: &str, year: u16) -> RefDataResult<StateHoiRate> {
        let y = resolve_year_or_error(&self.names, "state_hoi_rates", year)?;
        let rate = |s: &str, bps: u16| StateHoiRate { state_abbr: s.to_owned(), annual_rate_bps: bps, effective_year: y };
        select_state_hoi(vec![rate("CA", 35), rate("FL", 105), rate("TX", 56)], state_abbr, year)
    }

    fn zip_hoi_rate(&self, zip5: &str, year: u16) -> RefDataResult<Option<ZipHoiRate>> {
        let mut best: Option<u16> = None;
        for name in &self.names {
            if let Some(y) = zip_hoi_candidate(name, year, best) {
                best = Some(y);
            }
        }
        Ok(best.and_then(|y| select_zip_hoi(zip_file(y), zip5)))
    }
}

// ════════════════════════════════════════════════════════════════════════════
// CBSA / MSA Crosswalk
// ════════════════════════════════════════════════════════════════════════════

#[test]
fn test_cbsa_hays_county_is_metropolitan() {
    let r = store().cbsa_for_county("48209").unwrap().unwrap();
    assert_eq!(r.fips_code, "48209");
    assert_eq!(r.designation, CbsaDesignation::Metropolitan);
    assert!(r.is_metro);
}

#[test]
fn test_cbsa_hays_county_austin_msa() {
    let r = store().cbsa_for_county("48209").unwrap().unwrap();
    assert_eq!(r.cbsa_code.as_deref(), Some("12420"));
    let name = r.cbsa_name.unwrap();
    assert!(name.contains("Austin"), "CBSA name should mention Austin");
}

#[test]
fn test_cbsa_travis_county_same_msa_as_hays() {
    let hays = store().cbsa_for_county("48209").unwrap().unwrap();
    let travis = store().cbsa_for_county("48453").unwrap().unwrap();
    assert_eq!(hays.cbsa_code, travis.cbsa_code, "both in Austin MSA");
}

#[test]
fn test_cbsa_san_francisco_metropolitan() {
    let r = store().cbsa_for_county("06075").unwrap().unwrap();
    assert!(r.is_metro);
    assert_eq!(r.cbsa_code.as_deref(), Some("41860"));
}

#[test]
fn test_cbsa_micropolitan_designation() {
    // Llano County TX (48299) → Marble Falls, TX micro
    let r = store().cbsa_for_county("48299").unwrap().unwrap();
    assert_eq!(r.designation, CbsaDesignation::Micropolitan);
    assert!(!r.is_metro);
    assert!(r.is_micro());
}

#[test]
fn test_cbsa_rural_county_no_cbsa_code() {
    // Crockett County TX (48107) → rural
    let r = store().cbsa_for_county("48107").unwrap().unwrap();
    assert_eq!(r.designation, CbsaDesignation::Rural);
    assert!(r.cbsa_code.is_none());
    assert!(r.cbsa_name.is_none());
    assert!(r.is_rural());
}

#[test]
fn test_cbsa_unknown_fips_returns_none() {
    let r = store().cbsa_for_county("99999").unwrap();
    assert!(r.is_none());
}

#[test]
fn test_cbsa_designation_predicates() {
    assert!(CbsaDesignation::Metropolitan.is_metro());
    assert!(!CbsaDesignation::Micropolitan.is_metro());
    assert!(!CbsaDesignation::Rural.is_metro());

    assert!(CbsaDesignation::Metropolitan.is_urban());
    assert!(CbsaDesignation::Micropolitan.is_urban());
    assert!(!CbsaDesignation::Rural.is_urban());
}

#[test]
fn test_cbsa_all_seeded_counties_found() {
    let counties = ["48209", "48453", "06075", "06037", "12086", "36061"];
    for fips in counties {
        assert!(store().cbsa_for_county(fips).unwrap().is_some(), "county {fips} must be in CBSA data");
    }
}

// ════════════════════════════════════════════════════════════════════════════
// Texas HOI Premiums by ZIP
// ════════════════════════════════════════════════════════════════════════════

#[test]
fn test_zip_hoi_kyle_tx_found() {
    let r = store().zip_hoi_rate("78640", 2025).unwrap();
    assert!(r.is_some(), "Kyle TX ZIP 78640 must be in ZIP HOI data");
}

#[test]
fn test_zip_hoi_kyle_tx_rate() {
    let r = store().zip_hoi_rate("78640", 2025).unwrap().unwrap();
    assert_eq!(r.zip5, "78640");
    assert_eq!(r.state_abbr, "TX");
    // Kyle TX: 62 bps (0.62% per year)
    assert_eq!(r.annual_rate_bps, 62);
}

#[test]
fn test_zip_hoi_kyle_tx_higher_than_state_average() {
    let zip_rate = store().zip_hoi_rate("78640", 2025).unwrap().unwrap();
    let state_rate = store().state_hoi_rate("TX", 2025).unwrap();
    // Kyle 62 bps > TX state avg 56 bps (higher risk area within TX)
    assert!(
        zip_rate.annual_rate_bps > state_rate.annual_rate_bps,
        "Kyle ZIP rate {} should exceed TX state avg {}",
        zip_rate.annual_rate_bps,
        state_rate.annual_rate_bps
    );
}

#[test]
fn test_zip_hoi_monthly_estimate_kyle_tx() {
    let r = store().zip_hoi_rate("78640", 2025).unwrap().unwrap();
    // $459,000 × 0.0062 / 12 = $237/mo (ceiling)
    let monthly = r.monthly_estimate(Cents(45_900_000)).unwrap();
    assert!(monthly.0 > 0, "monthly estimate must be positive");
    assert!(
        monthly.0 >= 23_000 && monthly.0 <= 26_000,
        "Kyle TX HOI $459k should be $230-$260/mo, got Cents({})",
        monthly.0
    );
}

#[test]
fn zip_hoi_monthly_estimate_is_the_rounded_up_twelfth() {
    let r = store().zip_hoi_rate("78640", 2025).unwrap().unwrap();
    // 45_900_000 × 62 / 10_000 = 284_580 cents a year; a twelfth rounded up is 23_715.
    assert_eq!(r.monthly_estimate(Cents(45_900_000)), Some(Cents(23_715)));
    assert_eq!(r.monthly_estimate(Cents(0)), None);
}

#[test]
fn test_zip_hoi_austin_downtown() {
    let r = store().zip_hoi_rate("78701", 2025).unwrap().unwrap();
    assert_eq!(r.state_abbr, "TX");
    assert_eq!(r.annual_rate_bps, 48);
}

#[test]
fn test_zip_hoi_unknown_zip_returns_none() {
    // Engine should fall through to state_hoi_rate for unknown ZIPs
    let r = store().zip_hoi_rate("00000", 2025).unwrap();
    assert!(r.is_none());
}

#[test]
fn test_zip_hoi_median_premium_populated() {
    let r = store().zip_hoi_rate("78640", 2025).unwrap().unwrap();
    assert!(r.median_annual_premium_cents.is_some(), "median premium should be populated from TDOI data");
    let median = r.median_annual_premium_cents.unwrap();
    // $2,844/yr median is reasonable for Kyle TX
    assert!(median.0 > 100_000, "median premium should be > $1,000/yr");
}

#[test]
fn test_zip_hoi_sample_size_populated() {
    let r = store().zip_hoi_rate("78640", 2025).unwrap().unwrap();
    assert!(r.sample_size.unwrap_or(0) > 1000, "sample_size should be substantial");
}

#[test]
fn test_zip_hoi_fallthrough_pattern() {
    // When ZIP not found, caller uses state rate. Simulate the pattern:
    let zip = store().zip_hoi_rate("99999", 2025).unwrap();
    assert!(zip.is_none());
    // Caller falls through to:
    let state = store().state_hoi_rate("TX", 2025).unwrap();
    assert_eq!(state.annual_rate_bps, 56);
}

#[test]
fn zip_hoi_request_for_an_earlier_year_reads_that_year() {
    let r = store().zip_hoi_rate("78640", 2024).unwrap().unwrap();
    assert_eq!(r.annual_rate_bps, 60);
    assert!(store().zip_hoi_rate("78640", 2023).unwrap().is_none());
}

// ════════════════════════════════════════════════════════════════════════════
// The SQLite store: the crosswalk and the ZIP rates seeded into tables and
// read back, the designation stored as text.
// ════════════════════════════════════════════════════════════════════════════

/// The tables seeded from the same files.
struct SqlStore {
    cbsa: Vec<(String, Option<String>, Option<String>, String, i32)>,
    zip: Vec<(String, String, i32, Option<i64>, Option<i64>, i32)>,
}

fn sqlite_store() -> SqlStore {
    let json = store();
    let mut cbsa = Vec::new();
    for fips in ["48209", "48453", "06075", "06037", "12086", "36061", "48299", "48107"] {
        let r = json.cbsa_for_county(fips).unwrap().unwrap();
        cbsa.push((r.fips_code, r.cbsa_code, r.cbsa_name, designation_str(r.designation).to_owned(), r.is_metro as i32));
    }
    let mut zip = Vec::new();
    for year in [2024, 2025] {
        for r in zip_file(year) {
            zip.push((
                r.zip5,
                r.state_abbr,
                i32::from(r.annual_rate_bps),
                r.median_annual_premium_cents.map(|c| c.0),
                r.sample_size.map(i64::from),
                i32::from(year),
            ));
        }
    }
    SqlStore { cbsa, zip }
}

impl SqlStore {
    fn cbsa_for_county(&self, fips_code: &str) -> RefDataResult<Option<CbsaEntry>> {
        Ok(self.cbsa.iter().find(|r| r.0 == fips_code).map(|(fips, code, name, desig, metro)| CbsaEntry {
            fips_code: fips.clone(),
            cbsa_code: code.clone(),
            cbsa_name: name.clone(),
            designation: parse_designation(desig),
            is_metro: *metro != 0,
        }))
    }

    fn zip_hoi_rate(&self, zip5: &str, year: u16) -> RefDataResult<Option<ZipHoiRate>> {
        let row = self
            .zip
            .iter()
            .filter(|r| r.0 == zip5 && r.5 <= i32::from(year))
            .max_by_key(|r| r.5);
        Ok(row.map(|(zip, state, rate, med, sample, yr)| {
            zip_hoi_from_row(
                zip,
                ZipHoiRow {
                    state_abbr: state.clone(),
                    annual_rate_bps: *rate,
                    median_annual_premium_cents: *med,
                    sample_size: *sample,
                    effective_year: *yr,
                },
            )
        }))
    }
}

#[test]
fn test_sqlite_cbsa_matches_json_store() {
    let json = store();
    let sqlite = sqlite_store();
    let j = json.cbsa_for_county("48209").unwrap().unwrap();
    let s = sqlite.cbsa_for_county("48209").unwrap().unwrap();
    assert_eq!(j.cbsa_code, s.cbsa_code);
    assert_eq!(j.designation, s.designation);
}

#[test]
fn test_sqlite_zip_hoi_matches_json_store() {
    let json = store();
    let sqlite = sqlite_store();
    let j = json.zip_hoi_rate("78640", 2025).unwrap().unwrap();
    let s = sqlite.zip_hoi_rate("78640", 2025).unwrap().unwrap();
    assert_eq!(j.annual_rate_bps, s.annual_rate_bps);
}

#[test]
fn sqlite_designations_survive_the_text_column() {
    let sqlite = sqlite_store();
    for fips in ["48209", "48299", "48107"] {
        assert_eq!(
            store().cbsa_for_county(fips).unwrap().unwrap().designation,
            sqlite.cbsa_for_county(fips).unwrap().unwrap().designation
        );
    }
}

#[test]
fn sqlite_zip_row_keeps_every_column() {
    let r = sqlite_store().zip_hoi_rate("78640", 2025).unwrap().unwrap();
    assert_eq!(r.zip5, "78640");
    assert_eq!(r.state_abbr, "TX");
    assert_eq!(r.median_annual_premium_cents, Some(Cents(284_400)));
    assert_eq!(r.sample_size, Some(4_318));
    assert_eq!(r.effective_year, 2025);
    assert_eq!(sqlite_store().zip_hoi_rate("78640", 2024).unwrap().unwrap().annual_rate_bps, 60);
}

#[test]
fn sqlite_state_row_uppercases_the_state_asked() {
    let r = state_hoi_from_row("tx", 56, 2025);
    assert_eq!(r.state_abbr, "TX");
    assert_eq!(r.annual_rate_bps, 56);
    assert_eq!(r.effective_year, 2025);
    // Columns wider than the record keep their low bits.
    assert_eq!(state_hoi_from_row("tx", 65_536 + 56, 2025).annual_rate_bps, 56);
}
