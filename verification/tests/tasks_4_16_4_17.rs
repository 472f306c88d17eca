//! Lender profiles and overlays, and single-premium MI rates.

use ref_data::conv_mi::{MiMonthlyRow, MiMonthlyTable};
use ref_data::lender::{LenderOverlays, LenderProfile};
use ref_data::lookup::{select_lender_overlays, select_lender_profile};
use ref_data::money::ProgramCode;
use ref_data::store::{file_prefix, mi_monthly_rate_or_error, mi_single_premium_or_error, resolve_year_or_error};
use ref_data::{AllProgramRules, CalendarDate, MiRateInput, ProgramEligibilityRules, RefDataResult};

/// The lender file, the program rules and the NMI rate cards as the data
/// directory ships them.
struct LenderStore {
    names: Vec<String>,
}

fn store() -> LenderStore {
    LenderStore {
        names: vec![
            "mi_rates_nmi_monthly_2022.json".to_owned(),
            "mi_rates_nmi_sp_bp_nr_2022.json".to_owned(),
        ],
    }
}

fn date(y: i32, m: u32, d: u32) -> CalendarDate {
    CalendarDate::from_ymd_opt(y, m, d).unwrap()
}

fn profile(id: &str, name: &str, nmls: Option<&str>, active: bool) -> LenderProfile {
    LenderProfile {
        lender_id: id.to_owned(),
        name: name.to_owned(),
        nmls_id: nmls.map(str::to_owned),
        active,
    }
}

fn overlay(id: &str, program: ProgramCode, score: Option<u16>, ltv: Option<u32>, dti: Option<u32>) -> LenderOverlays {
    LenderOverlays {
        lender_id: id.to_owned(),
        program,
        min_credit_score_override: score,
        max_ltv_bps_override: ltv,
        dti_max_bps_override: dti,
        effective_date: date(2024, 1, 1),
    }
}

#[allow(clippy::too_many_arguments)]
fn rules(program: ProgramCode, min: u16, alt: Option<(u16, u16, u32)>, max_ltv: u32, hb: Option<u32>, dti: u32) -> ProgramEligibilityRules {
    ProgramEligibilityRules {
        program,
        min_credit_score: min,
        min_credit_score_alt: alt.map(|a| a.0),
        alt_credit_min_down_payment_bps: alt.map(|a| a.1),
        max_ltv_bps: max_ltv,
        max_ltv_bps_alt_credit: alt.map(|a| a.2),
        max_ltv_bps_high_balance: hb,
        front_end_dti_max_bps: dti,
        requires_primary_residence: true,
        requires_first_time_buyer: false,
        requires_va_entitlement: program == ProgramCode::Va,
        requires_usda_eligibility: program == ProgramCode::Usda,
        requires_ami_income_check: false,
        effective_date: date(2025, 1, 1),
    }
}

fn sp_row(min: u32, max: u32, coverage: u8, rates: [u16; 8]) -> MiMonthlyRow {
    MiMonthlyRow {
        ltv_min_bps: min,
        ltv_max_bps: max,
        coverage_pct: coverage,
        term_gt_20yr: true,
        rates_by_fico: rates,
        floor_bps: 14,
    }
}

impl LenderStore {
    fn lender_profile(&self, lender_id: &str) -> RefDataResult<Option<LenderProfile>> {
        let lenders = vec![
            profile("lndr_abc_mortgage", "ABC Mortgage Company", Some("1234567"), true),
            profile("lndr_first_national", "First National Lending", Some("7654321"), true),
            profile("lndr_inactive_test", "Inactive Test Lender", None, false),
        ];
        Ok(select_lender_profile(lenders, lender_id))
    }

    fn lender_overlays(&self, lender_id: &str, program: ProgramCode) -> RefDataResult<Option<LenderOverlays>> {
        let overlays = vec![
            overlay("lndr_abc_mortgage", ProgramCode::Fha, Some(620), None, Some(2800)),
            overlay("lndr_abc_mortgage", ProgramCode::Conventional, Some(660), Some(9500), None),
            overlay("lndr_first_national", ProgramCode::Va, Some(640), None, None),
        ];
        Ok(select_lender_overlays(overlays, lender_id, program))
    }

    fn program_rules(&self, program: ProgramCode) -> RefDataResult<ProgramEligibilityRules> {
        let all = AllProgramRules(vec![
            rules(ProgramCode::Conventional, 620, None, 9700, None, 3600),
            rules(ProgramCode::Fha, 580, Some((500, 1000, 9000)), 9650, None, 3100),
            rules(ProgramCode::Va, 580, None, 10_000, None, 9999),
            rules(ProgramCode::Usda, 640, None, 10_000, None, 2900),
        ]);
        all.for_program(program).cloned()
    }

    fn mi_monthly_rate(&self, provider: &str, input: &MiRateInput, year: u16) -> RefDataResult<u16> {
        resolve_year_or_error(&self.names, &file_prefix("mi_rates_", provider, "_monthly"), year)?;
        let table = MiMonthlyTable {
            provider: provider.to_owned(),
            effective_date: "2022-04-01".to_owned(),
            floor_bps: 14,
            rows: vec![sp_row(9000, 9500, 25, [34, 43, 54, 66, 85, 104, 124, 135])],
        };
        mi_monthly_rate_or_error(&table, provider, input)
    }

    fn mi_single_premium_bps(&self, provider: &str, input: &MiRateInput, year: u16) -> RefDataResult<u16> {
        resolve_year_or_error(&self.names, &file_prefix("mi_rates_", provider, "_sp_bp_nr"), year)?;
        let table = MiMonthlyTable {
            provider: provider.to_owned(),
            effective_date: "2022-04-01".to_owned(),
            floor_bps: 14,
            rows: vec![
                sp_row(9500, 9700, 35, [158, 185, 222, 264, 318, 378, 440, 468]),
                sp_row(9000, 9500, 30, [130, 157, 199, 252, 310, 371, 432, 461]),
                sp_row(9000, 9500, 25, [120, 144, 180, 221, 272, 326, 381, 407]),
                sp_row(8500, 9000, 12, [59, 70, 88, 106, 132, 160, 188, 203]),
            ],
        };
        mi_single_premium_or_error(&table, provider, input)
    }
}

// ════════════════════════════════════════════════════════════════════════════
// Lender Profiles + Overlays
// ════════════════════════════════════════════════════════════════════════════

#[test]
fn test_lender_profile_found_by_id() {
    let p = store().lender_profile("lndr_abc_mortgage").unwrap().unwrap();
    assert_eq!(p.lender_id, "lndr_abc_mortgage");
    assert_eq!(p.name, "ABC Mortgage Company");
    assert!(p.active);
}

#[test]
fn test_lender_profile_has_nmls_id() {
    let p = store().lender_profile("lndr_abc_mortgage").unwrap().unwrap();
    assert_eq!(p.nmls_id.as_deref(), Some("1234567"));
}

#[test]
fn test_lender_profile_unknown_returns_none() {
    let p = store().lender_profile("lndr_does_not_exist").unwrap();
    assert!(p.is_none());
}

#[test]
fn test_lender_profile_inactive_still_returned() {
    let p = store().lender_profile("lndr_inactive_test").unwrap().unwrap();
    assert!(!p.active);
}

#[test]
fn test_lender_overlays_fha_for_abc() {
    let o = store().lender_overlays("lndr_abc_mortgage", ProgramCode::Fha).unwrap().unwrap();
    assert_eq!(o.lender_id, "lndr_abc_mortgage");
    assert_eq!(o.program, ProgramCode::Fha);
    assert_eq!(o.min_credit_score_override, Some(620));
    assert_eq!(o.dti_max_bps_override, Some(2800));
    assert!(o.max_ltv_bps_override.is_none());
}

#[test]
fn test_lender_overlays_conventional_for_abc() {
    let o = store().lender_overlays("lndr_abc_mortgage", ProgramCode::Conventional).unwrap().unwrap();
    assert_eq!(o.min_credit_score_override, Some(660));
    assert_eq!(o.max_ltv_bps_override, Some(9500));
}

#[test]
fn test_lender_overlays_no_overlay_returns_none() {
    // ABC has no USDA overlay
    let o = store().lender_overlays("lndr_abc_mortgage", ProgramCode::Usda).unwrap();
    assert!(o.is_none());
}

#[test]
fn test_lender_overlays_va_first_national() {
    let o = store().lender_overlays("lndr_first_national", ProgramCode::Va).unwrap().unwrap();
    assert_eq!(o.min_credit_score_override, Some(640));
}

#[test]
fn test_lender_overlay_apply_tightens_min_fico() {
    let agency = store().program_rules(ProgramCode::Fha).unwrap();
    assert_eq!(agency.min_credit_score, 580, "FHA agency min is 580");

    let overlay = store().lender_overlays("lndr_abc_mortgage", ProgramCode::Fha).unwrap().unwrap();
    let tightened = overlay.apply(&agency);
    assert_eq!(tightened.min_credit_score, 620, "overlay raises min FICO to 620");
    assert_eq!(tightened.max_ltv_bps, agency.max_ltv_bps, "other fields unchanged");
}

#[test]
fn test_lender_overlay_apply_tightens_max_ltv() {
    let agency = store().program_rules(ProgramCode::Conventional).unwrap();
    let overlay = store().lender_overlays("lndr_abc_mortgage", ProgramCode::Conventional).unwrap().unwrap();
    let tightened = overlay.apply(&agency);
    assert_eq!(tightened.max_ltv_bps, 9500, "overlay caps LTV at 95%");
}

#[test]
fn test_lender_overlay_never_loosens_rules() {
    let agency = store().program_rules(ProgramCode::Fha).unwrap();
    // Try to apply a "loosening" overlay (lower FICO, higher LTV — should be ignored)
    let bad_overlay = LenderOverlays {
        lender_id: "test".to_owned(),
        program: ProgramCode::Fha,
        min_credit_score_override: Some(500), // below agency 580
        max_ltv_bps_override: Some(10000),    // above agency max
        dti_max_bps_override: Some(9999),
        effective_date: CalendarDate::from_ymd_opt(2024, 1, 1).unwrap(),
    };
    let result = bad_overlay.apply(&agency);
    // Agency values must win since they are stricter
    assert_eq!(result.min_credit_score, agency.min_credit_score, "cannot loosen FICO");
    assert_eq!(result.max_ltv_bps, agency.max_ltv_bps, "cannot loosen LTV");
}

#[test]
fn test_lender_overlay_null_fields_preserve_agency() {
    let agency = store().program_rules(ProgramCode::Va).unwrap();
    let overlay = store().lender_overlays("lndr_first_national", ProgramCode::Va).unwrap().unwrap();
    let tightened = overlay.apply(&agency);
    // Only min_credit_score was overridden (640); max_ltv and dti are None → preserve agency
    assert_eq!(tightened.max_ltv_bps, agency.max_ltv_bps);
    assert_eq!(tightened.front_end_dti_max_bps, agency.front_end_dti_max_bps);
}

#[test]
fn test_multiple_lenders_return_correct_overlays() {
    // First National: VA 640 FICO
    let fn_va = store().lender_overlays("lndr_first_national", ProgramCode::Va).unwrap().unwrap();
    // ABC: FHA 620 FICO
    let abc_fha = store().lender_overlays("lndr_abc_mortgage", ProgramCode::Fha).unwrap().unwrap();
    assert_ne!(fn_va.min_credit_score_override, abc_fha.min_credit_score_override);
}

#[test]
fn overlay_dti_cap_tightens_front_end_dti() {
    let agency = store().program_rules(ProgramCode::Fha).unwrap();
    let overlay = store().lender_overlays("lndr_abc_mortgage", ProgramCode::Fha).unwrap().unwrap();
    assert_eq!(overlay.apply(&agency).front_end_dti_max_bps, 2800);
}

#[test]
fn rules_for_a_program_without_rules_is_not_found() {
    let err = store().program_rules(ProgramCode::Jumbo).unwrap_err();
    assert_eq!(err.message(), "no ProgramEligibilityRules found for FIPS 'Jumbo' year 0");
}

// ════════════════════════════════════════════════════════════════════════════
// Single Premium BPMI NR rates
// ════════════════════════════════════════════════════════════════════════════

fn sp_input(ltv_bps: u32, cov_pct: u8, fico: u16) -> MiRateInput {
    MiRateInput {
        ltv_bps,
        coverage_pct: cov_pct,
        fico,
        term_months: 360,
        is_non_fixed: false,
    }
}

#[test]
fn test_nmi_sp_bp_nr_30yr_ltv96_cov35_fico760_is_158bps() {
    let r = store().mi_single_premium_bps("nmi", &sp_input(9600, 35, 760), 2025).unwrap();
    assert_eq!(r, 158, "NMI SP BPMI NR: 95-97% LTV, 35% cov, 760+ FICO = 1.58%");
}

#[test]
fn test_nmi_sp_bp_nr_30yr_ltv92_cov30_fico700() {
    let r = store().mi_single_premium_bps("nmi", &sp_input(9200, 30, 700), 2025).unwrap();
    assert_eq!(r, 252);
}

#[test]
fn test_nmi_sp_bp_nr_30yr_ltv87_cov12_fico760() {
    let r = store().mi_single_premium_bps("nmi", &sp_input(8700, 12, 760), 2025).unwrap();
    assert_eq!(r, 59);
}

#[test]
fn test_nmi_sp_is_higher_than_monthly_for_same_scenario() {
    // Single premium bundles the entire coverage period; should exceed monthly rate
    let monthly = store().mi_monthly_rate("nmi", &sp_input(9200, 25, 760), 2025).unwrap();
    let single_prem = store().mi_single_premium_bps("nmi", &sp_input(9200, 25, 760), 2025).unwrap();
    assert!(single_prem > monthly, "single premium ({single_prem}) > monthly rate ({monthly})");
}

#[test]
fn test_nmi_sp_year_fallback() {
    let r2022 = store().mi_single_premium_bps("nmi", &sp_input(9600, 35, 760), 2022).unwrap();
    let r2030 = store().mi_single_premium_bps("nmi", &sp_input(9600, 35, 760), 2030).unwrap();
    assert_eq!(r2022, r2030);
}

#[test]
fn single_premium_without_a_matching_row_is_a_storage_error() {
    let err = store().mi_single_premium_bps("nmi", &sp_input(9600, 18, 760), 2025).unwrap_err();
    assert_eq!(err.message(), "storage error: no SP row: provider=nmi, ltv=9600, cov=18%, fico=760");
}
