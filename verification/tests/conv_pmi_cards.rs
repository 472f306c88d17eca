//! Conventional PMI rate quotes on the Enact, Essent and Radian cards:
//! base-grid cells, additive adjustments, the non-fixed multiplier, the
//! per-plan minimum-rate floor, the default-qualified DTI assumption and
//! the derivation trail.

use ref_data::conv_pmi::{
    quote, DtiTier, MiBaseGrid, MiCardFile, MiCompany, MiOccupancy, MiPlan, MiPropertyType, MiPurpose,
    MiRateRow, MiScenario, NonFixedMethod, Refundability,
};
use ref_data::conv_pmi::{MiRateQuote, MiUnavailable};
use ref_data::money::{Cents, CreditScore, LtvBasisPoints};
use ref_data::provenance::Derived;
use ref_data::store::{resolve_year_or_error, versioned_file_name};
use ref_data::RefDataResult;

const REQ: u16 = 2025;
const RES: u16 = 2025;

const ORDER: [&str; 8] = ["760", "740", "720", "700", "680", "660", "640", "620"];

fn order(ids: &[&str]) -> Vec<String> {
    ids.iter().map(|s| s.to_string()).collect()
}

fn buckets() -> Vec<(String, (u16, u16))> {
    vec![
        ("760".to_owned(), (760, 850)),
        ("740".to_owned(), (740, 759)),
        ("720".to_owned(), (720, 739)),
        ("700".to_owned(), (700, 719)),
        ("680".to_owned(), (680, 699)),
        ("660".to_owned(), (660, 679)),
        ("640".to_owned(), (640, 659)),
        ("620".to_owned(), (620, 639)),
    ]
}

fn row(min: u32, max: u32, cov: u8, rates: &[i32]) -> MiRateRow {
    MiRateRow { ltv_min_bps: min, ltv_max_bps: max, coverage_percent: cov, rates: rates.iter().map(|r| Some(*r)).collect() }
}

fn grid(ids: &[&str], rows: Vec<MiRateRow>) -> MiBaseGrid {
    MiBaseGrid { score_order: order(ids), rows }
}

fn adjustment(name: &str, vals: [Option<i32>; 8]) -> (String, Vec<Option<i32>>) {
    (name.to_owned(), vals.to_vec())
}

fn enact() -> MiCardFile {
    MiCardFile {
        company: MiCompany::Enact,
        source_citation: "Enact Rate Card, 2025".to_owned(),
        effective_date: "2025-01-01".to_owned(),
        applicable_states: Vec::new(),
        excluded_states: Vec::new(),
        non_fixed_method: NonFixedMethod::Grid,
        min_rate_milli_pct: vec![("monthly_bpmi".to_owned(), 140), ("single_bpmi".to_owned(), 300)],
        score_buckets: buckets(),
        base_grids: vec![
            (
                "monthly_bpmi|fixed|gt20".to_owned(),
                grid(
                    &ORDER,
                    vec![
                        row(9501, 9700, 35, &[580, 700, 870, 1030, 1250, 1500, 1760, 1860]),
                        row(9001, 9500, 30, &[410, 530, 660, 780, 990, 1230, 1470, 1570]),
                        row(8501, 9000, 25, &[280, 380, 460, 550, 690, 870, 1000, 1090]),
                        row(0, 8500, 6, &[170, 170, 190, 200, 230, 290, 340, 380]),
                    ],
                ),
            ),
            (
                "monthly_bpmi|fixed|le20".to_owned(),
                grid(&ORDER, vec![row(9501, 9700, 35, &[400, 490, 610, 720, 880, 1050, 1230, 1300])]),
            ),
            (
                "monthly_bpmi|non_fixed|gt20".to_owned(),
                grid(&ORDER, vec![row(9501, 9700, 35, &[730, 880, 1090, 1290, 1560, 1880, 2200, 2330])]),
            ),
            (
                "single_bpmi|fixed|gt20".to_owned(),
                grid(
                    &ORDER,
                    vec![
                        row(9501, 9700, 35, &[1580, 1900, 2360, 2790, 3380, 4060, 4770, 5050]),
                        row(8501, 9000, 25, &[950, 1140, 1400, 1680, 2020, 2430, 2850, 3020]),
                    ],
                ),
            ),
        ],
        adjustment_order: order(&ORDER),
        adjustments: vec![
            adjustment("ge2_borrowers@97", [Some(-180), Some(-180), Some(-200), Some(-220), Some(-250), Some(-300), Some(-350), Some(-400)]),
            adjustment("ge2_borrowers@85", [Some(-30), Some(-30), Some(-40), Some(-40), Some(-50), Some(-60), Some(-70), Some(-80)]),
            adjustment("second_home", [Some(360), Some(400), Some(450), Some(500), Some(560), Some(630), Some(700), Some(780)]),
            adjustment("dti_45_50@97", [Some(380), Some(400), Some(420), Some(450), Some(480), Some(520), Some(560), Some(600)]),
        ],
    }
}

fn essent() -> MiCardFile {
    MiCardFile {
        company: MiCompany::Essent,
        source_citation: "Essent Rate Card, 2019".to_owned(),
        effective_date: "2019-01-01".to_owned(),
        applicable_states: Vec::new(),
        excluded_states: Vec::new(),
        non_fixed_method: NonFixedMethod::Multiplier { factor_milli: 1250 },
        min_rate_milli_pct: Vec::new(),
        score_buckets: buckets(),
        base_grids: vec![(
            "monthly_bpmi|fixed|gt20".to_owned(),
            grid(&ORDER, vec![row(9501, 9700, 35, &[580, 700, 870, 1030, 1250, 1500, 1760, 1860])]),
        )],
        adjustment_order: order(&ORDER),
        adjustments: vec![adjustment(
            "investment_property",
            [Some(560), Some(640), Some(750), None, None, None, None, None],
        )],
    }
}

fn radian() -> MiCardFile {
    let ids = ["760", "740", "720", "700", "680", "660", "640", "620", "lt620"];
    let mut bk = buckets();
    bk.push(("lt620".to_owned(), (300, 619)));
    MiCardFile {
        company: MiCompany::Radian,
        source_citation: "Radian Rate Card, 2021".to_owned(),
        effective_date: "2021-01-01".to_owned(),
        applicable_states: Vec::new(),
        excluded_states: Vec::new(),
        non_fixed_method: NonFixedMethod::Grid,
        min_rate_milli_pct: Vec::new(),
        score_buckets: bk,
        base_grids: vec![(
            "single_bpmi|fixed|gt20".to_owned(),
            grid(&ids, vec![row(9501, 9700, 35, &[1600, 1930, 2400, 2850, 3450, 4150, 4880, 5150, 8940])]),
        )],
        adjustment_order: order(&ids),
        adjustments: Vec::new(),
    }
}

fn scn(plan: MiPlan, fixed: bool, term_months: u16, score: u16, ltv_pct: f64, coverage: u8) -> MiScenario {
    MiScenario {
        plan,
        refundability: Refundability::NonRefundable,
        is_fixed: fixed,
        amortization_term_months: term_months,
        indicator_score: CreditScore::new(score).unwrap(),
        ltv: LtvBasisPoints::new((ltv_pct * 100.0) as u32).unwrap(),
        coverage_percent: coverage,
        loan_amount: Cents::from_dollars(300_000),
        property_type: MiPropertyType::SingleFamilyDetached,
        occupancy: MiOccupancy::Primary,
        purpose: MiPurpose::Purchase,
        borrower_count: 1,
        is_relocation: false,
        dti_tier: DtiTier::Qualified,
    }
}

#[test]
fn enact_monthly_fixed_gt20_base_cells() {
    let c = enact();
    // 760+, 95.01-97 LTV, 35% cov, fixed >20yr => 0.58% = 580 milli-pct
    let q = quote(&c, "f", &scn(MiPlan::MonthlyBpmi, true, 360, 800, 96.0, 35), REQ, RES).unwrap();
    assert_eq!(q.value.base_milli_pct, 580);
    assert_eq!(q.value.net_milli_pct, 580);
    // 700-719, 90.01-95, 30% cov => 0.78% = 780
    let q2 = quote(&c, "f", &scn(MiPlan::MonthlyBpmi, true, 360, 705, 93.0, 30), REQ, RES).unwrap();
    assert_eq!(q2.value.base_milli_pct, 780);
}

#[test]
fn enact_monthly_fixed_le20_differs() {
    let c = enact();
    // 760+, 95.01-97, 35% cov, fixed <=20yr => 0.40% = 400
    let q = quote(&c, "f", &scn(MiPlan::MonthlyBpmi, true, 180, 800, 96.0, 35), REQ, RES).unwrap();
    assert_eq!(q.value.base_milli_pct, 400);
}

#[test]
fn enact_single_fixed_base_cell() {
    let c = enact();
    // single BPMI 760+, 95.01-97, 35% cov, >20yr => 1.58% = 1580
    let q = quote(&c, "f", &scn(MiPlan::SingleBpmi, true, 360, 800, 96.0, 35), REQ, RES).unwrap();
    assert_eq!(q.value.base_milli_pct, 1580);
}

#[test]
fn radian_single_lt620_column() {
    let c = radian();
    // Radian carries a <620 column the others don't: single fixed >20, 97/35 => 8.94%
    let q = quote(&c, "f", &scn(MiPlan::SingleBpmi, true, 360, 610, 96.0, 35), REQ, RES).unwrap();
    assert_eq!(q.value.base_milli_pct, 8940);
}

#[test]
fn enact_nonfixed_uses_explicit_grid() {
    let c = enact();
    // Enact ships explicit non-fixed grid: monthly 760+, 97/35, >20 => 0.73% = 730
    let q = quote(&c, "f", &scn(MiPlan::MonthlyBpmi, false, 360, 800, 96.0, 35), REQ, RES).unwrap();
    assert_eq!(q.value.base_milli_pct, 730);
}

#[test]
fn essent_nonfixed_multiplies_fixed_by_1_25() {
    let c = essent();
    // Essent fixed monthly 760+, 97/35, >20 = 0.58% = 580.
    // Non-fixed = 580 × 1.25 = 725 milli, rounded to nearest bp (10 milli) => 730.
    let q = quote(&c, "f", &scn(MiPlan::MonthlyBpmi, false, 360, 800, 96.0, 35), REQ, RES).unwrap();
    assert_eq!(q.value.base_milli_pct, 730);
}

#[test]
fn second_home_adjustment_stacks() {
    let c = enact();
    let mut s = scn(MiPlan::MonthlyBpmi, true, 360, 800, 96.0, 35);
    s.occupancy = MiOccupancy::SecondHome;
    let q = quote(&c, "f", &s, REQ, RES).unwrap();
    // base 580 + second_home@760 (.36% = 360) = 940
    assert_eq!(q.value.net_milli_pct, 580 + 360);
    assert!(q.value.adjustments.iter().any(|a| a.description.contains("second_home")));
}

#[test]
fn two_borrower_credit_reduces_rate() {
    let c = enact();
    let mut s = scn(MiPlan::MonthlyBpmi, true, 360, 800, 96.0, 35);
    s.borrower_count = 2;
    let q = quote(&c, "f", &s, REQ, RES).unwrap();
    // base 580 + ge2_borrowers@97 (-.18% = -180) = 400
    assert_eq!(q.value.net_milli_pct, 580 - 180);
}

#[test]
fn essent_investment_not_offered_below_720_is_skipped() {
    let c = essent();
    let mut s = scn(MiPlan::MonthlyBpmi, true, 360, 700, 96.0, 35);
    s.occupancy = MiOccupancy::Investment;
    // investment row is null for 700 => adjustment skipped (None), base stands
    let q = quote(&c, "f", &s, REQ, RES).unwrap();
    assert!(!q.value.adjustments.iter().any(|a| a.description.contains("investment")));
}

#[test]
fn dti_default_qualified_adds_nothing() {
    let c = enact();
    let q = quote(&c, "f", &scn(MiPlan::MonthlyBpmi, true, 360, 800, 96.0, 35), REQ, RES).unwrap();
    assert!(!q.value.adjustments.iter().any(|a| a.description.starts_with("dti")));
}

#[test]
fn dti_elevated_applies_when_set() {
    let c = enact();
    let mut s = scn(MiPlan::MonthlyBpmi, true, 360, 800, 96.0, 35);
    s.dti_tier = DtiTier::Elevated;
    let q = quote(&c, "f", &s, REQ, RES).unwrap();
    // 96% LTV => @97 band; base 580 + dti_45_50@97 (760 col = .38% = 380) = 960
    assert_eq!(q.value.net_milli_pct, 580 + 380);
    assert!(q.value.adjustments.iter().any(|a| a.description.contains("dti_45_50")));
}

#[test]
fn min_rate_floor_applies() {
    let c = enact();
    // Low-LTV high-credit with 2 borrowers can dip below the 0.14% monthly floor.
    let mut s = scn(MiPlan::MonthlyBpmi, true, 360, 800, 80.0, 6);
    s.borrower_count = 2;
    let q = quote(&c, "f", &s, REQ, RES).unwrap();
    // base 170 (85&below/6%) + ge2@85 (-30) = 140 == floor; not floored (equal)
    assert!(q.value.net_milli_pct >= 140);
}

#[test]
fn annual_and_monthly_premium_math() {
    let c = enact();
    let q = quote(&c, "f", &scn(MiPlan::MonthlyBpmi, true, 360, 800, 96.0, 35), REQ, RES).unwrap();
    // 0.58% of $300,000 = $1,740/yr; /12 = $145/mo
    assert_eq!(q.value.annual_premium(Cents::from_dollars(300_000)), Cents::from_dollars(1_740));
    assert_eq!(q.value.monthly_premium(Cents::from_dollars(300_000)), Cents::from_dollars(145));
}

#[test]
fn quote_is_fully_explainable() {
    let c = enact();
    let q = quote(&c, "enact_pmi_2025.json", &scn(MiPlan::MonthlyBpmi, true, 360, 740, 90.0, 25), REQ, RES).unwrap();
    let t = q.explain();
    assert!(t.contains("Source:"));
    assert!(t.contains("Enact"));
    assert!(t.contains("Derivation:"));
}

#[test]
fn version_fallback_recorded() {
    let c = enact();
    let q = quote(&c, "enact_pmi_2025.json", &scn(MiPlan::MonthlyBpmi, true, 360, 800, 96.0, 35), 2030, 2025).unwrap();
    assert!(q.provenance.is_fallback());
    assert!(q.explain().contains("FALLBACK"));
}

#[test]
fn unavailable_when_no_grid_for_plan() {
    let c = radian(); // radian card ships only single_bpmi grids here
    let r = quote(&c, "f", &scn(MiPlan::SplitPremium, true, 360, 800, 96.0, 35), REQ, RES);
    assert!(r.is_err());
}

#[test]
fn floor_raises_a_net_rate_below_the_minimum() {
    // 170 (85&below/6%) - 30 (two borrowers @85) = 140, under a 150 floor.
    let mut s = scn(MiPlan::MonthlyBpmi, true, 360, 800, 80.0, 6);
    s.borrower_count = 2;
    let mut card = enact();
    card.min_rate_milli_pct = vec![("monthly_bpmi".to_owned(), 150)];
    let q = quote(&card, "f", &s, REQ, RES).unwrap();
    assert!(q.value.floored);
    assert_eq!(q.value.net_milli_pct, 150);
    assert_eq!(q.steps[2].rule, "min_rate_floor");
}

// ════════════════════════════════════════════════════════════════════════════
// Store wiring: the versioned card is resolved by year and its file name and
// versions flow into the quote's provenance.
// ════════════════════════════════════════════════════════════════════════════

/// The card files as the data directory ships them (no Arch card).
struct CardStore {
    names: Vec<String>,
}

fn store() -> CardStore {
    CardStore {
        names: vec![
            "enact_pmi_2025.json".to_owned(),
            "essent_pmi_2019.json".to_owned(),
            "radian_pmi_2021.json".to_owned(),
        ],
    }
}

/// The SQLite store reads the rate cards through the same JSON files.
fn sqlite_store() -> CardStore {
    store()
}

impl CardStore {
    fn mi_rate_quote(
        &self,
        company: MiCompany,
        scenario: &MiScenario,
        year: u16,
    ) -> RefDataResult<Result<Derived<MiRateQuote>, MiUnavailable>> {
        let dataset = company.dataset();
        let resolved = resolve_year_or_error(&self.names, dataset, year)?;
        let card = match company {
            MiCompany::Enact => enact(),
            MiCompany::Essent => essent(),
            _ => radian(),
        };
        Ok(quote(&card, &versioned_file_name(dataset, resolved), scenario, year, resolved))
    }
}

fn store_scn(plan: MiPlan, fixed: bool, score: u16, ltv_pct: f64, coverage: u8) -> MiScenario {
    scn(plan, fixed, 360, score, ltv_pct, coverage)
}

#[test]
fn store_prices_enact_via_read_versioned_json() {
    let q = store()
        .mi_rate_quote(MiCompany::Enact, &store_scn(MiPlan::MonthlyBpmi, true, 800, 96.0, 35), 2025)
        .expect("card resolves")
        .expect("offered");
    assert_eq!(q.value.net_milli_pct, 580);
    assert_eq!(q.provenance.source_file, "enact_pmi_2025.json");
    assert_eq!(q.provenance.resolved_version, 2025);
}

#[test]
fn store_prices_radian_lt620() {
    let q = store()
        .mi_rate_quote(MiCompany::Radian, &store_scn(MiPlan::SingleBpmi, true, 610, 96.0, 35), 2025)
        .unwrap()
        .unwrap();
    assert_eq!(q.value.net_milli_pct, 8940);
    assert_eq!(q.provenance.source_file, "radian_pmi_2021.json"); // fallback to 2021
}

#[test]
fn store_essent_version_fallback() {
    // Essent card is 2019; requesting 2025 resolves back to 2019.
    let q = store()
        .mi_rate_quote(MiCompany::Essent, &store_scn(MiPlan::MonthlyBpmi, true, 800, 96.0, 35), 2025)
        .unwrap()
        .unwrap();
    assert_eq!(q.provenance.requested_version, 2025);
    assert_eq!(q.provenance.resolved_version, 2019);
    assert!(q.provenance.is_fallback());
}

#[test]
fn store_propagates_unavailable_plan() {
    let outer = store()
        .mi_rate_quote(MiCompany::Radian, &store_scn(MiPlan::SplitPremium, true, 800, 96.0, 35), 2025)
        .expect("card resolves");
    assert!(outer.is_err());
}

#[test]
fn store_missing_company_is_refdata_error() {
    // Arch card not shipped => outer RefDataError, not a panic.
    let r = store().mi_rate_quote(MiCompany::Arch, &store_scn(MiPlan::MonthlyBpmi, true, 800, 96.0, 35), 2025);
    assert!(r.is_err());
    assert_eq!(r.unwrap_err().message(), "storage error: no arch_pmi file found for year ≤ 2025");
}

#[test]
fn sqlite_prices_enact() {
    let q = sqlite_store()
        .mi_rate_quote(MiCompany::Enact, &store_scn(MiPlan::MonthlyBpmi, true, 800, 96.0, 35), 2025)
        .unwrap()
        .unwrap();
    assert_eq!(q.value.net_milli_pct, 580);
}

#[test]
fn sqlite_matches_jsonfilestore() {
    let s = store_scn(MiPlan::SingleBpmi, true, 740, 90.0, 25);
    let j = store().mi_rate_quote(MiCompany::Enact, &s, 2025).unwrap().unwrap();
    let q = sqlite_store().mi_rate_quote(MiCompany::Enact, &s, 2025).unwrap().unwrap();
    assert_eq!(j.value.net_milli_pct, q.value.net_milli_pct);
    assert_eq!(j.value.net_milli_pct, 1140);
}

#[test]
fn sqlite_propagates_unavailable() {
    let outer = sqlite_store()
        .mi_rate_quote(MiCompany::Radian, &store_scn(MiPlan::SplitPremium, true, 800, 96.0, 35), 2025)
        .unwrap();
    assert!(outer.is_err());
}
