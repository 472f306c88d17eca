//! DPA catalog (TX/CA/FL) with provenance.

use ref_data::dpa_catalog::{
    estimate_dpa_amount, DpaAmountBasis, DpaAssistanceType, DpaCatalogFile, DpaCountyLimit,
    DpaEligibilityInput, DpaFundsSource, DpaOutcome, DpaProgram, HeroCategory, JurisdictionLevel,
};
use ref_data::money::Cents;
use ref_data::provenance::Derived;
use ref_data::store::{resolve_year_or_error, versioned_file_name};
use ref_data::RefDataResult;

/// The catalog as the data directory ships it: one file for 2025.
struct CatalogStore {
    names: Vec<String>,
    file: DpaCatalogFile,
}

impl CatalogStore {
    fn resolve(&self, year: u16) -> RefDataResult<(u16, String)> {
        let resolved = resolve_year_or_error(&self.names, "dpa_catalog", year)?;
        Ok((resolved, versioned_file_name("dpa_catalog", resolved)))
    }

    fn dpa_programs_for_state(&self, state: &str, year: u16) -> RefDataResult<Vec<Derived<DpaProgram>>> {
        let (resolved, fname) = self.resolve(year)?;
        Ok(self.file.programs_for_state(state, &fname, year, resolved))
    }

    fn dpa_program(&self, program_id: &str, year: u16) -> RefDataResult<Option<Derived<DpaProgram>>> {
        let (resolved, fname) = self.resolve(year)?;
        Ok(self.file.program_by_id(program_id, &fname, year, resolved))
    }

    fn dpa_evaluate(
        &self,
        program_id: &str,
        input: &DpaEligibilityInput,
        year: u16,
    ) -> RefDataResult<Option<Derived<DpaOutcome>>> {
        let (resolved, fname) = self.resolve(year)?;
        Ok(self.file.evaluate(program_id, input, &fname, year, resolved))
    }
}

fn limit(fips: &str, name: &str, income: [i64; 4], price: [i64; 2]) -> DpaCountyLimit {
    DpaCountyLimit {
        county_fips: fips.to_owned(),
        county_name: name.to_owned(),
        income_1_2_cents: income[0],
        income_3plus_cents: income[1],
        income_targeted_1_2_cents: income[2],
        income_targeted_3plus_cents: income[3],
        price_limit_cents: price[0],
        price_limit_targeted_cents: price[1],
    }
}

/// A statewide grant of 5% of the loan, open to FTHBs with the government
/// loan types, scored at 620 / 45% DTI, with generous default limits.
fn base(id: &str, state: &str, agency: &str, name: &str) -> DpaProgram {
    DpaProgram {
        program_id: id.to_owned(),
        state: state.to_owned(),
        administering_agency: agency.to_owned(),
        program_name: name.to_owned(),
        jurisdiction_level: JurisdictionLevel::State,
        jurisdiction_fips: None,
        funds_source: DpaFundsSource::StateAgency,
        assistance_type: DpaAssistanceType::Grant,
        amount_basis: DpaAmountBasis::PercentOfLoanAmount,
        amount_value_bps: 500,
        max_amount_cents: 0,
        interest_rate_bps: 0,
        term_months: 0,
        forgivable_years: 0,
        fthb_required: true,
        veteran_fthb_exempt: true,
        targeted_area_fthb_exempt: true,
        min_credit_score: 620,
        max_dti_bps: 4500,
        requires_agency_first_mortgage: true,
        homebuyer_education_required: true,
        min_borrower_contribution_bps: 0,
        eligible_loan_types: vec!["fha".to_owned(), "va".to_owned(), "usda".to_owned(), "conventional".to_owned()],
        hero_categories: Vec::new(),
        county_limits: Vec::new(),
        default_limit: limit("", "statewide", [13_000_000, 15_000_000, 15_600_000, 18_200_000], [50_000_000, 60_000_000]),
    }
}

fn catalog() -> DpaCatalogFile {
    let mut mfth = base("dpa_tx_tdhca_mfth", "TX", "TDHCA", "My First Texas Home");
    mfth.assistance_type = DpaAssistanceType::DeferredLoan;
    mfth.eligible_loan_types = vec!["fha".to_owned(), "va".to_owned(), "usda".to_owned()];

    let mut mcth = base("dpa_tx_tdhca_mcth", "TX", "TDHCA", "My Choice Texas Home");
    mcth.assistance_type = DpaAssistanceType::DeferredLoan;
    mcth.fthb_required = false;

    let hays = limit("48209", "Hays", [16_725_000, 19_233_750, 20_070_000, 23_415_000], [59_336_300, 72_500_000]);
    let mut hstx = base("dpa_tx_tsahc_hstx", "TX", "TSAHC", "Home Sweet Texas");
    hstx.funds_source = DpaFundsSource::Nonprofit;
    hstx.min_credit_score = 640;
    hstx.county_limits = vec![hays.clone()];
    hstx.default_limit = limit("", "other counties", [12_350_000, 14_202_500, 14_820_000, 17_290_000], [50_000_000, 60_000_000]);

    let mut h4tx = base("dpa_tx_tsahc_h4tx", "TX", "TSAHC", "Homes for Texas Heroes");
    h4tx.funds_source = DpaFundsSource::Nonprofit;
    h4tx.min_credit_score = 640;
    h4tx.hero_categories = vec![
        HeroCategory::Teacher,
        HeroCategory::TeacherAide,
        HeroCategory::Librarian,
        HeroCategory::SchoolNurse,
        HeroCategory::SchoolCounselor,
        HeroCategory::PeaceOfficer,
        HeroCategory::Firefighter,
        HeroCategory::Ems,
        HeroCategory::CorrectionsOfficer,
        HeroCategory::CountyJailer,
        HeroCategory::Veteran,
        HeroCategory::PublicSecurityOfficer,
    ];
    h4tx.county_limits = vec![hays];

    let mut tarrant = base("dpa_tx_tarrant_hba", "TX", "Tarrant County", "Tarrant County Homebuyer Assistance");
    tarrant.jurisdiction_level = JurisdictionLevel::County;
    tarrant.jurisdiction_fips = Some("48439".to_owned());
    tarrant.funds_source = DpaFundsSource::LocalAgency;
    tarrant.assistance_type = DpaAssistanceType::ForgivableLoan;
    tarrant.forgivable_years = 5;
    tarrant.amount_basis = DpaAmountBasis::FixedDollar;
    tarrant.max_amount_cents = 1_450_000;

    let mut myhome = base("dpa_ca_calhfa_myhome", "CA", "CalHFA", "MyHome Assistance Program");
    myhome.assistance_type = DpaAssistanceType::DeferredLoan;
    myhome.amount_basis = DpaAmountBasis::PercentOfPurchasePrice;
    myhome.amount_value_bps = 350;

    let mut assist = base("dpa_fl_fhfc_assist", "FL", "Florida Housing", "Florida Assist");
    assist.assistance_type = DpaAssistanceType::DeferredLoan;
    assist.amount_basis = DpaAmountBasis::FixedDollar;
    assist.max_amount_cents = 1_000_000;

    let mut hlp = base("dpa_fl_fhfc_hlp", "FL", "Florida Housing", "Florida Homeownership Loan Program");
    hlp.assistance_type = DpaAssistanceType::AmortizingLoan;
    hlp.amount_basis = DpaAmountBasis::FixedDollar;
    hlp.max_amount_cents = 1_000_000;
    hlp.interest_rate_bps = 300;
    hlp.term_months = 180;

    let mut plus = base("dpa_fl_fhfc_plus", "FL", "Florida Housing", "HFA Preferred PLUS");
    plus.assistance_type = DpaAssistanceType::ForgivableLoan;
    plus.amount_value_bps = 400;
    plus.forgivable_years = 5;

    let mut heroes = base("dpa_fl_fhfc_heroes", "FL", "Florida Housing", "Florida Hometown Heroes");
    heroes.assistance_type = DpaAssistanceType::DeferredLoan;
    heroes.max_amount_cents = 3_500_000;
    heroes.hero_categories = vec![
        HeroCategory::Teacher,
        HeroCategory::Healthcare,
        HeroCategory::Firefighter,
        HeroCategory::PeaceOfficer,
        HeroCategory::ActiveMilitary,
        HeroCategory::Veteran,
    ];

    DpaCatalogFile {
        effective_date: "2025-01-01".to_owned(),
        source_citation: "TDHCA, TSAHC, Tarrant County, CalHFA and Florida Housing program guides".to_owned(),
        programs: vec![mfth, mcth, hstx, h4tx, tarrant, myhome, assist, hlp, plus, heroes],
    }
}

fn store() -> CatalogStore {
    CatalogStore {
        names: vec!["dpa_catalog_2025.json".to_owned(), "mcc_catalog_2025.json".to_owned()],
        file: catalog(),
    }
}

#[allow(clippy::too_many_arguments)]
fn elig(
    state: &str,
    fips: &str,
    fthb: bool,
    vet: bool,
    targeted: bool,
    size: u8,
    income: i64,
    price: i64,
    loan: &str,
    score: u16,
    dti_bps: u32,
    hero: Option<HeroCategory>,
) -> DpaEligibilityInput {
    DpaEligibilityInput {
        state: state.to_owned(),
        county_fips: fips.to_owned(),
        is_first_time_homebuyer: fthb,
        is_veteran: vet,
        in_targeted_area: targeted,
        household_size: size,
        annual_household_income: Cents(income),
        purchase_price: Cents(price),
        loan_type: loan.to_owned(),
        credit_score: score,
        dti_bps,
        borrower_contribution_bps: 0,
        using_agency_first_mortgage: true,
        completed_homebuyer_education: true,
        hero_category: hero,
    }
}

#[test]
fn test_dpa_texas_has_five_programs() {
    let progs = store().dpa_programs_for_state("TX", 2025).unwrap();
    assert_eq!(progs.len(), 5, "TX: TDHCA x2, TSAHC x2, Tarrant County");
}

#[test]
fn test_dpa_california_has_myhome() {
    let progs = store().dpa_programs_for_state("CA", 2025).unwrap();
    assert!(progs.iter().any(|p| p.value.program_id == "dpa_ca_calhfa_myhome"));
}

#[test]
fn test_dpa_florida_has_four_programs() {
    let progs = store().dpa_programs_for_state("FL", 2025).unwrap();
    assert_eq!(progs.len(), 4, "FL: Assist, HLP, PLUS, Hometown Heroes");
}

#[test]
fn test_dpa_state_lookup_case_insensitive() {
    assert_eq!(store().dpa_programs_for_state("tx", 2025).unwrap().len(), 5);
}

#[test]
fn test_dpa_unknown_state_empty() {
    assert!(store().dpa_programs_for_state("WY", 2025).unwrap().is_empty());
}

#[test]
fn test_dpa_program_by_id() {
    let p = store().dpa_program("dpa_tx_tdhca_mfth", 2025).unwrap().unwrap();
    assert_eq!(p.value.program_name, "My First Texas Home");
    assert_eq!(p.value.assistance_type, DpaAssistanceType::DeferredLoan);
}

#[test]
fn test_dpa_program_unknown_id_none() {
    assert!(store().dpa_program("dpa_zz_nope", 2025).unwrap().is_none());
}

#[test]
fn test_dpa_tarrant_is_county_jurisdiction() {
    let p = store().dpa_program("dpa_tx_tarrant_hba", 2025).unwrap().unwrap();
    assert_eq!(p.value.jurisdiction_level, JurisdictionLevel::County);
    assert_eq!(p.value.jurisdiction_fips.as_deref(), Some("48439"));
}

#[test]
fn test_dpa_tdhca_is_state_jurisdiction() {
    let p = store().dpa_program("dpa_tx_tdhca_mfth", 2025).unwrap().unwrap();
    assert_eq!(p.value.jurisdiction_level, JurisdictionLevel::State);
    assert!(p.value.jurisdiction_fips.is_none());
}

#[test]
fn test_dpa_florida_assist_is_fixed_dollar_10k() {
    let p = store().dpa_program("dpa_fl_fhfc_assist", 2025).unwrap().unwrap();
    assert_eq!(p.value.amount_basis, DpaAmountBasis::FixedDollar);
    assert_eq!(p.value.max_amount_cents, 1_000_000);
}

#[test]
fn test_dpa_fl_hlp_is_amortizing_at_3pct() {
    let p = store().dpa_program("dpa_fl_fhfc_hlp", 2025).unwrap().unwrap();
    assert_eq!(p.value.assistance_type, DpaAssistanceType::AmortizingLoan);
    assert_eq!(p.value.interest_rate_bps, 300);
    assert_eq!(p.value.term_months, 180);
}

#[test]
fn test_dpa_fl_plus_is_forgivable_5yr() {
    let p = store().dpa_program("dpa_fl_fhfc_plus", 2025).unwrap().unwrap();
    assert_eq!(p.value.assistance_type, DpaAssistanceType::ForgivableLoan);
    assert_eq!(p.value.forgivable_years, 5);
}

#[test]
fn test_dpa_amount_percent_of_loan() {
    // TDHCA MFTH: 5% of loan. $300k loan → $15,000
    let p = store().dpa_program("dpa_tx_tdhca_mfth", 2025).unwrap().unwrap();
    let amt = estimate_dpa_amount(p, Cents(38_000_000), Cents(30_000_000));
    assert_eq!(amt.value, Cents(1_500_000));
}

#[test]
fn test_dpa_amount_percent_of_price() {
    // CalHFA MyHome: 3.5% of price. $400k → $14,000
    let p = store().dpa_program("dpa_ca_calhfa_myhome", 2025).unwrap().unwrap();
    let amt = estimate_dpa_amount(p, Cents(40_000_000), Cents(38_000_000));
    assert_eq!(amt.value, Cents(1_400_000));
}

#[test]
fn test_dpa_amount_fixed_dollar() {
    // FL Assist: fixed $10,000 regardless of price/loan
    let p = store().dpa_program("dpa_fl_fhfc_assist", 2025).unwrap().unwrap();
    let amt = estimate_dpa_amount(p, Cents(30_000_000), Cents(29_000_000));
    assert_eq!(amt.value, Cents(1_000_000));
}

#[test]
fn test_dpa_amount_hits_cap() {
    // Hometown Heroes: 5% of loan capped at $35,000. $800k loan × 5% = $40k → capped
    let p = store().dpa_program("dpa_fl_fhfc_heroes", 2025).unwrap().unwrap();
    let amt = estimate_dpa_amount(p, Cents(82_000_000), Cents(80_000_000));
    assert_eq!(amt.value, Cents(3_500_000), "capped at $35,000");
    assert!(amt.steps.iter().any(|s| s.outcome.contains("capped")));
}

#[test]
fn test_dpa_amount_preserves_provenance() {
    let p = store().dpa_program("dpa_tx_tdhca_mfth", 2025).unwrap().unwrap();
    let amt = estimate_dpa_amount(p, Cents(38_000_000), Cents(30_000_000));
    assert_eq!(amt.provenance.record_id, "dpa_tx_tdhca_mfth");
    assert_eq!(amt.provenance.dataset, "dpa_catalog");
}

#[test]
fn test_dpa_eligible_clean_tdhca_hays() {
    let i = elig("TX", "48209", true, false, false, 3, 12_000_000, 40_000_000, "fha", 680, 4000, None);
    let d = store().dpa_evaluate("dpa_tx_tdhca_mfth", &i, 2025).unwrap().unwrap();
    assert!(d.value.eligible, "{:?}", d.value.disqualifiers);
}

#[test]
fn test_dpa_mcth_allows_repeat_buyer() {
    // My Choice does not require FTHB
    let i = elig("TX", "48209", false, false, false, 2, 12_000_000, 40_000_000, "conventional", 680, 4000, None);
    let d = store().dpa_evaluate("dpa_tx_tdhca_mcth", &i, 2025).unwrap().unwrap();
    assert!(d.value.eligible);
}

#[test]
fn test_dpa_mfth_rejects_repeat_buyer_no_exemption() {
    let i = elig("TX", "48209", false, false, false, 2, 12_000_000, 40_000_000, "fha", 680, 4000, None);
    let d = store().dpa_evaluate("dpa_tx_tdhca_mfth", &i, 2025).unwrap().unwrap();
    assert!(!d.value.eligible);
    assert!(d.value.disqualifiers.iter().any(|x| x.contains("first-time")));
}

#[test]
fn test_dpa_veteran_exempt_from_fthb() {
    let i = elig("TX", "48209", false, true, false, 2, 12_000_000, 40_000_000, "va", 680, 4000, None);
    let d = store().dpa_evaluate("dpa_tx_tdhca_mfth", &i, 2025).unwrap().unwrap();
    assert!(d.value.eligible, "veteran exempt");
}

#[test]
fn test_dpa_conventional_rejected_by_government_only_program() {
    // MFTH serves fha/va/usda only — conventional should fail
    let i = elig("TX", "48209", true, false, false, 2, 12_000_000, 40_000_000, "conventional", 680, 4000, None);
    let d = store().dpa_evaluate("dpa_tx_tdhca_mfth", &i, 2025).unwrap().unwrap();
    assert!(!d.value.eligible);
    assert!(d.value.disqualifiers.iter().any(|x| x.contains("loan type")));
}

#[test]
fn test_dpa_income_over_limit_fails() {
    // Hays TSAHC limit $167,250; use $200,000
    let i = elig("TX", "48209", true, false, false, 2, 20_000_000, 40_000_000, "fha", 680, 4000, None);
    let d = store().dpa_evaluate("dpa_tx_tsahc_hstx", &i, 2025).unwrap().unwrap();
    assert!(!d.value.eligible);
    assert!(d.value.disqualifiers.iter().any(|x| x.contains("income")));
}

#[test]
fn test_dpa_price_over_limit_fails() {
    // Hays TSAHC price limit $593,363; use $650,000
    let i = elig("TX", "48209", true, false, false, 2, 15_000_000, 65_000_000, "fha", 680, 4000, None);
    let d = store().dpa_evaluate("dpa_tx_tsahc_hstx", &i, 2025).unwrap().unwrap();
    assert!(!d.value.eligible);
    assert!(d.value.disqualifiers.iter().any(|x| x.contains("price")));
}

#[test]
fn test_dpa_targeted_area_raises_price_limit() {
    // $650k fails non-targeted (593k) but passes targeted (725k) in Hays
    let fail = elig("TX", "48209", true, false, false, 2, 15_000_000, 65_000_000, "fha", 680, 4000, None);
    let pass = elig("TX", "48209", true, false, true, 2, 15_000_000, 65_000_000, "fha", 680, 4000, None);
    assert!(!store().dpa_evaluate("dpa_tx_tsahc_hstx", &fail, 2025).unwrap().unwrap().value.eligible);
    assert!(store().dpa_evaluate("dpa_tx_tsahc_hstx", &pass, 2025).unwrap().unwrap().value.eligible);
}

#[test]
fn test_dpa_credit_below_min_fails() {
    // TSAHC min 640; use 620
    let i = elig("TX", "48209", true, false, false, 2, 12_000_000, 40_000_000, "fha", 620, 4000, None);
    let d = store().dpa_evaluate("dpa_tx_tsahc_hstx", &i, 2025).unwrap().unwrap();
    assert!(!d.value.eligible);
    assert!(d.value.disqualifiers.iter().any(|x| x.contains("credit")));
}

#[test]
fn test_dpa_county_default_fallback_for_unlisted_county() {
    // El Paso (48141) not listed for TSAHC → default limit $123,500
    let i = elig("TX", "48141", true, false, false, 2, 15_000_000, 40_000_000, "fha", 680, 4000, None);
    let d = store().dpa_evaluate("dpa_tx_tsahc_hstx", &i, 2025).unwrap().unwrap();
    // $150k > $123.5k default → income fail
    assert!(!d.value.eligible);
    assert!(d.value.disqualifiers.iter().any(|x| x.contains("income")));
}

#[test]
fn test_dpa_heroes_requires_hero_category() {
    let non_hero = elig("TX", "48209", true, false, false, 2, 12_000_000, 40_000_000, "fha", 680, 4000, None);
    let d = store().dpa_evaluate("dpa_tx_tsahc_h4tx", &non_hero, 2025).unwrap().unwrap();
    assert!(!d.value.eligible);
    assert!(d.value.disqualifiers.iter().any(|x| x.contains("hero")));
}

#[test]
fn test_dpa_heroes_accepts_teacher() {
    let teacher = elig(
        "TX",
        "48209",
        true,
        false,
        false,
        2,
        12_000_000,
        40_000_000,
        "fha",
        680,
        4000,
        Some(HeroCategory::Teacher),
    );
    let d = store().dpa_evaluate("dpa_tx_tsahc_h4tx", &teacher, 2025).unwrap().unwrap();
    assert!(d.value.eligible);
}

#[test]
fn test_dpa_fl_heroes_accepts_healthcare() {
    let nurse = elig(
        "FL",
        "12086",
        true,
        false,
        false,
        2,
        10_000_000,
        30_000_000,
        "fha",
        680,
        4000,
        Some(HeroCategory::Healthcare),
    );
    let d = store().dpa_evaluate("dpa_fl_fhfc_heroes", &nurse, 2025).unwrap().unwrap();
    assert!(d.value.eligible, "{:?}", d.value.disqualifiers);
}

#[test]
fn test_dpa_year_fallback() {
    let d = store().dpa_program("dpa_tx_tdhca_mfth", 2030).unwrap().unwrap();
    assert!(d.provenance.is_fallback());
    assert_eq!(d.provenance.resolved_version, 2025);
}

#[test]
fn test_dpa_explain_renders_trail() {
    let i = elig("TX", "48209", true, false, false, 3, 12_000_000, 40_000_000, "fha", 680, 4000, None);
    let d = store().dpa_evaluate("dpa_tx_tdhca_mfth", &i, 2025).unwrap().unwrap();
    let t = d.explain();
    assert!(t.contains("Source:"));
    assert!(t.contains("final_determination"));
}
