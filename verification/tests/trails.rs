//! Derivation trails of catalog answers, step by step.

use ref_data::dpa_catalog::{
    estimate_dpa_amount, DpaAmountBasis, DpaAssistanceType, DpaCatalogFile, DpaCountyLimit,
    DpaEligibilityInput, DpaFundsSource, DpaProgram, HeroCategory, JurisdictionLevel,
};
use ref_data::mcc_catalog::{estimate_annual_credit, MccCatalogFile, MccEligibilityInput, MccProgram};
use ref_data::money::Cents;
use ref_data::provenance::RuleStep;

fn texts(steps: &[RuleStep]) -> Vec<(String, String, String)> {
    steps.iter().map(|s| (s.rule.clone(), s.inputs.clone(), s.outcome.clone())).collect()
}

fn t(rule: &str, inputs: &str, outcome: &str) -> (String, String, String) {
    (rule.to_owned(), inputs.to_owned(), outcome.to_owned())
}

fn mcc_catalog() -> MccCatalogFile {
    MccCatalogFile {
        effective_date: "2025-01-01".to_owned(),
        source_citation: "TSAHC MCC program guidelines".to_owned(),
        programs: vec![MccProgram {
            program_id: "tx_tsahc_mcc".to_owned(),
            state: "TX".to_owned(),
            administering_agency: "TSAHC".to_owned(),
            program_name: "Texas Mortgage Credit Certificate".to_owned(),
            credit_rate_bps: 4000,
            annual_credit_cap_cents: 200_000,
            fthb_required: true,
            veteran_fthb_exempt: true,
            targeted_area_fthb_exempt: true,
            income_limit_1_2_cents: 10_000_000,
            income_limit_3plus_cents: 11_500_000,
            income_limit_targeted_1_2_cents: 12_000_000,
            income_limit_targeted_3plus_cents: 14_000_000,
            price_limit_cents: 51_000_000,
            price_limit_targeted_cents: 62_000_000,
        }],
    }
}

fn mcc_input() -> MccEligibilityInput {
    MccEligibilityInput {
        state: "tx".to_owned(),
        is_first_time_homebuyer: false,
        is_veteran: false,
        in_targeted_area: false,
        household_size: 3,
        annual_household_income: Cents(12_000_000),
        purchase_price: Cents(40_000_000),
    }
}

#[test]
fn mcc_lookup_copies_the_program_and_names_it() {
    let d = mcc_catalog().lookup("TX", "mcc_catalog_2025.json", 2026, 2025).unwrap();
    assert_eq!(d.value, mcc_catalog().programs[0]);
    assert_eq!(
        texts(&d.steps),
        vec![t("lookup_program_by_state", "state=TX", "matched 'Texas Mortgage Credit Certificate' (TSAHC)")]
    );
    assert!(d.provenance.is_fallback());
}

#[test]
fn mcc_evaluation_trail_records_each_gate() {
    let d = mcc_catalog().evaluate(&mcc_input(), "mcc_catalog_2025.json", 2025, 2025).unwrap();
    assert!(!d.value.eligible);
    assert_eq!(
        texts(&d.steps),
        vec![
            t("lookup_program_by_state", "state=tx", "matched 'Texas Mortgage Credit Certificate'"),
            t(
                "first_time_homebuyer_requirement",
                "is_fthb=false, is_veteran=false, targeted_area=false",
                "FAILED — no exemption",
            ),
            t("income_limit", "income=$120000, size=3, targeted=false", "FAILED — exceeds limit $115000"),
            t("purchase_price_limit", "price=$400000, targeted=false", "satisfied (limit $510000)"),
            t("final_determination", "2 gate(s) failed", "INELIGIBLE"),
        ]
    );
    let mut vet = mcc_input();
    vet.is_veteran = true;
    vet.annual_household_income = Cents(9_000_000);
    let d = mcc_catalog().evaluate(&vet, "mcc_catalog_2025.json", 2025, 2025).unwrap();
    assert!(d.value.eligible);
    assert_eq!(
        texts(&d.steps)[1],
        t("first_time_homebuyer_requirement", "is_fthb=false, is_veteran=true", "satisfied via veteran exemption")
    );
    assert_eq!(texts(&d.steps)[4], t("final_determination", "0 gate(s) failed", "ELIGIBLE"));
}

#[test]
fn mcc_credit_trail_reports_rate_and_cap() {
    let p = mcc_catalog().lookup("TX", "mcc_catalog_2025.json", 2025, 2025).unwrap();
    let c = estimate_annual_credit(p, Cents(1_800_000));
    assert_eq!(c.value, Cents(200_000));
    assert_eq!(
        texts(&c.steps)[1..],
        [
            t("apply_credit_rate", "annual_interest=$18000, rate=40%", "uncapped credit=$7200"),
            t("apply_annual_cap", "cap=$2000", "capped to $2000"),
        ]
    );
}

fn limit(fips: &str, price: i64) -> DpaCountyLimit {
    DpaCountyLimit {
        county_fips: fips.to_owned(),
        county_name: "Hays".to_owned(),
        income_1_2_cents: 9_000_000,
        income_3plus_cents: 10_000_000,
        income_targeted_1_2_cents: 11_000_000,
        income_targeted_3plus_cents: 12_000_000,
        price_limit_cents: price,
        price_limit_targeted_cents: price,
    }
}

fn dpa_program() -> DpaProgram {
    DpaProgram {
        program_id: "tx_hero".to_owned(),
        state: "TX".to_owned(),
        administering_agency: "TSAHC".to_owned(),
        program_name: "Homes for Texas Heroes".to_owned(),
        jurisdiction_level: JurisdictionLevel::State,
        jurisdiction_fips: None,
        funds_source: DpaFundsSource::StateAgency,
        assistance_type: DpaAssistanceType::Grant,
        amount_basis: DpaAmountBasis::PercentOfLoanAmount,
        amount_value_bps: 500,
        max_amount_cents: 1_500_000,
        interest_rate_bps: 0,
        term_months: 0,
        forgivable_years: 0,
        fthb_required: false,
        veteran_fthb_exempt: false,
        targeted_area_fthb_exempt: false,
        min_credit_score: 620,
        max_dti_bps: 4500,
        requires_agency_first_mortgage: true,
        homebuyer_education_required: true,
        min_borrower_contribution_bps: 0,
        eligible_loan_types: vec!["fha".to_owned(), "va".to_owned()],
        hero_categories: vec![HeroCategory::Teacher, HeroCategory::Firefighter],
        county_limits: vec![limit("48209", 0)],
        default_limit: limit("", 50_000_000),
    }
}

fn dpa_input() -> DpaEligibilityInput {
    DpaEligibilityInput {
        state: "TX".to_owned(),
        county_fips: "48209".to_owned(),
        is_first_time_homebuyer: true,
        is_veteran: false,
        in_targeted_area: false,
        household_size: 2,
        annual_household_income: Cents(8_000_000),
        purchase_price: Cents(30_000_000),
        loan_type: "conventional".to_owned(),
        credit_score: 640,
        dti_bps: 4000,
        borrower_contribution_bps: 0,
        using_agency_first_mortgage: false,
        completed_homebuyer_education: true,
        hero_category: Some(HeroCategory::Ems),
    }
}

fn dpa_catalog() -> DpaCatalogFile {
    DpaCatalogFile {
        effective_date: "2025-01-01".to_owned(),
        source_citation: "TSAHC".to_owned(),
        programs: vec![dpa_program()],
    }
}

#[test]
fn dpa_evaluation_trail_lists_what_failed() {
    let d = dpa_catalog().evaluate("tx_hero", &dpa_input(), "dpa_catalog_2025.json", 2025, 2025).unwrap();
    assert!(!d.value.eligible);
    assert_eq!(
        texts(&d.steps),
        vec![
            t("lookup_program_by_id", "program_id=tx_hero", "matched 'Homes for Texas Heroes'"),
            t("eligible_loan_type", "loan_type=conventional", "FAILED — program serves [\"fha\", \"va\"]"),
            t("hero_category", "borrower=Some(Ems)", "FAILED — requires one of [Teacher, Firefighter]"),
            t("first_time_homebuyer", "fthb_required=false, is_fthb=true", "satisfied"),
            t("income_limit", "income=$80000, size=2, targeted=false", "satisfied (limit $90000)"),
            t("purchase_price_limit", "price=$300000, targeted=false", "satisfied (no price limit for this program)"),
            t("min_credit_score", "score=640", "satisfied (min 620)"),
            t("max_dti", "dti=40%", "satisfied"),
            t("requires_agency_first_mortgage", "using_agency_first=false", "FAILED"),
            t("final_determination", "3 gate(s) failed", "INELIGIBLE"),
        ]
    );
}

#[test]
fn dpa_lookups_copy_the_program() {
    let c = dpa_catalog();
    let d = c.program_by_id("tx_hero", "dpa_catalog_2025.json", 2025, 2025).unwrap();
    assert_eq!(d.value, dpa_program());
    assert_eq!(texts(&d.steps), vec![t("lookup_program_by_id", "program_id=tx_hero", "matched 'Homes for Texas Heroes'")]);
    let v = c.programs_for_state("tx", "dpa_catalog_2025.json", 2025, 2025);
    assert_eq!(v.len(), 1);
    assert_eq!(texts(&v[0].steps), vec![t("lookup_program", "state=tx", "matched 'Homes for Texas Heroes' (State)")]);
    let a = estimate_dpa_amount(d, Cents(40_000_000), Cents(38_600_000));
    assert_eq!(a.value, Cents(1_500_000));
    assert_eq!(
        texts(&a.steps)[1..],
        [
            t("compute_base_amount", "5% of loan $386000", "raw=$19300"),
            t("apply_cap", "cap=$15000", "capped to $15000"),
        ]
    );
}
