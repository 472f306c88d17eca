//! PMI rate quotes on a small hand-made card.

use ref_data::conv_pmi::{
    quote, DtiTier, MiAdjustment, MiBaseGrid, MiCardFile, MiCompany, MiOccupancy, MiPlan,
    MiPropertyType, MiPurpose, MiRateRow, MiScenario, NonFixedMethod, Refundability,
};
use ref_data::money::{Cents, CreditScore, LtvBasisPoints};

fn grid() -> MiBaseGrid {
    MiBaseGrid {
        score_order: vec!["760+".to_owned(), "700-759".to_owned()],
        rows: vec![
            MiRateRow { ltv_min_bps: 9501, ltv_max_bps: 9700, coverage_percent: 35, rates: vec![Some(580), Some(900)] },
            MiRateRow { ltv_min_bps: 9001, ltv_max_bps: 9500, coverage_percent: 30, rates: vec![Some(410), None] },
        ],
    }
}

fn card(method: NonFixedMethod) -> MiCardFile {
    MiCardFile {
        company: MiCompany::Essent,
        source_citation: "Essent rate card".to_owned(),
        effective_date: "2025-01-01".to_owned(),
        applicable_states: vec![],
        excluded_states: vec!["NY".to_owned()],
        non_fixed_method: method,
        min_rate_milli_pct: vec![("monthly_bpmi".to_owned(), 140), ("single_bpmi".to_owned(), 550)],
        score_buckets: vec![("760+".to_owned(), (760, 850)), ("700-759".to_owned(), (700, 759))],
        base_grids: vec![
            ("monthly_bpmi|fixed|gt20".to_owned(), grid()),
            ("single_bpmi|fixed|gt20".to_owned(), grid()),
        ],
        adjustment_order: vec!["700-759".to_owned(), "760+".to_owned()],
        adjustments: vec![
            ("ge2_borrowers@97".to_owned(), vec![Some(-130), Some(-100)]),
            ("cash_out_refi".to_owned(), vec![Some(250), Some(0)]),
            ("dti_gt_50@97".to_owned(), vec![Some(120), Some(60)]),
        ],
    }
}

fn scn(plan: MiPlan, fixed: bool, score: u16, ltv: u32, cov: u8) -> MiScenario {
    MiScenario {
        plan,
        refundability: Refundability::NonRefundable,
        is_fixed: fixed,
        amortization_term_months: 360,
        indicator_score: CreditScore::new(score).unwrap(),
        ltv: LtvBasisPoints::new(ltv).unwrap(),
        coverage_percent: cov,
        loan_amount: Cents::from_dollars(300_000),
        property_type: MiPropertyType::SingleFamilyDetached,
        occupancy: MiOccupancy::Primary,
        purpose: MiPurpose::Purchase,
        borrower_count: 1,
        is_relocation: false,
        dti_tier: DtiTier::default(),
    }
}

#[test]
fn base_cell_and_premiums() {
    let c = card(NonFixedMethod::Grid);
    let q = quote(&c, "essent_pmi_2025.json", &scn(MiPlan::MonthlyBpmi, true, 800, 9600, 35), 2025, 2025).unwrap();
    assert_eq!(q.value.base_milli_pct, 580);
    assert_eq!(q.value.net_milli_pct, 580);
    assert!(!q.value.floored);
    assert_eq!(q.value.annual_premium(Cents::from_dollars(300_000)), Cents(174_000));
    assert_eq!(q.value.monthly_premium(Cents::from_dollars(300_000)), Cents(14_500));
    assert_eq!(q.provenance.dataset, "essent_pmi");
    assert_eq!(q.provenance.record_id, "monthly_bpmi_fixed_800_9600");
    assert_eq!(
        q.steps.last().unwrap().outcome,
        "net 580 milli-pct = 0.580% annual ($1740.00 / yr on $300000.00)"
    );
}

#[test]
fn adjustments_compose_additively() {
    let c = card(NonFixedMethod::Grid);
    let mut s = scn(MiPlan::MonthlyBpmi, true, 720, 9600, 35);
    s.borrower_count = 2;
    s.purpose = MiPurpose::CashOutRefi;
    s.dti_tier = DtiTier::High;
    let q = quote(&c, "f", &s, 2025, 2025).unwrap();
    assert_eq!(q.value.base_milli_pct, 900);
    let adj: Vec<(String, i32)> =
        q.value.adjustments.iter().map(|a: &MiAdjustment| (a.description.clone(), a.milli_pct)).collect();
    assert_eq!(
        adj,
        vec![
            ("ge2_borrowers@97".to_owned(), -130),
            ("cash_out_refi".to_owned(), 250),
            ("dti_gt_50@97".to_owned(), 120),
        ]
    );
    assert_eq!(q.value.net_milli_pct, 900 - 130 + 250 + 120);
    let rules: Vec<&str> = q.steps.iter().map(|s| s.rule.as_str()).collect();
    assert_eq!(rules, vec!["base_rate", "adjustments", "net_rate"]);
}

#[test]
fn zero_adjustments_are_dropped() {
    let c = card(NonFixedMethod::Grid);
    let mut s = scn(MiPlan::MonthlyBpmi, true, 800, 9600, 35);
    s.purpose = MiPurpose::CashOutRefi;
    let q = quote(&c, "f", &s, 2025, 2025).unwrap();
    assert!(q.value.adjustments.is_empty());
}

#[test]
fn min_rate_floor_raises_net() {
    let c = card(NonFixedMethod::Grid);
    let q = quote(&c, "f", &scn(MiPlan::SingleBpmi, true, 800, 9300, 30), 2025, 2025).unwrap();
    assert_eq!(q.value.base_milli_pct, 410);
    assert!(q.value.floored);
    assert_eq!(q.value.net_milli_pct, 550);
    let rules: Vec<&str> = q.steps.iter().map(|s| s.rule.as_str()).collect();
    assert_eq!(rules, vec!["base_rate", "min_rate_floor", "net_rate"]);
}

#[test]
fn non_fixed_multiplier_rounds_to_basis_point() {
    let c = card(NonFixedMethod::Multiplier { factor_milli: 1250 });
    let q = quote(&c, "f", &scn(MiPlan::MonthlyBpmi, false, 800, 9600, 35), 2025, 2025).unwrap();
    // 580 × 1.25 = 725 → nearest bp (10 milli) rounds half up to 730.
    assert_eq!(q.value.base_milli_pct, 730);
    assert_eq!(q.provenance.record_id, "monthly_bpmi_nonfixed_800_9600");
}

#[test]
fn unavailable_reasons() {
    let c = card(NonFixedMethod::Grid);
    let e = quote(&c, "f", &scn(MiPlan::MonthlyBpmi, false, 800, 9600, 35), 2025, 2025).unwrap_err();
    assert_eq!(e.reason, "no base grid 'monthly_bpmi|non_fixed|gt20'");
    let e2 = quote(&c, "f", &scn(MiPlan::MonthlyBpmi, true, 650, 9600, 35), 2025, 2025).unwrap_err();
    assert_eq!(e2.reason, "no score bucket for 650");
    let e3 = quote(&c, "f", &scn(MiPlan::MonthlyBpmi, true, 800, 9650, 25), 2025, 2025).unwrap_err();
    assert_eq!(e3.reason, "no row for LTV 96.5% coverage 25% in 'monthly_bpmi|fixed|gt20'");
    let e4 = quote(&c, "f", &scn(MiPlan::MonthlyBpmi, true, 720, 9300, 30), 2025, 2025).unwrap_err();
    assert_eq!(e4.reason, "rate not offered: score 700-759, LTV 93%, 'monthly_bpmi|fixed|gt20'");
}

#[test]
fn plan_helpers() {
    assert!(MiPlan::MonthlyBpmi.is_monthly());
    assert!(MiPlan::MonthlyLpmi.is_monthly());
    assert!(!MiPlan::SplitPremium.is_monthly());
    assert_eq!(MiCompany::NationalMi.dataset(), "national_mi_pmi");
    assert_eq!(DtiTier::Qualified.adjustment_key(), None);
    assert_eq!(DtiTier::Elevated.adjustment_key(), Some("dti_45_50"));
}
