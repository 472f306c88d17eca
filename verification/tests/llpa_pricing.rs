//! LLPA / credit-fee pricing on a small hand-made grid.

use ref_data::llpa::{
    affordable_capped, price, price_bps_to_basis_points, GseAgency, Grid, LenderOverlayFile,
    LlpaDatasetFile, LlpaOccupancy, LlpaPropertyType, LlpaPurpose, LlpaScenario, LoanAmountBand,
    LtvBucket, MaxLtvRule, ScoreBucket, SpecialGrid,
};
use ref_data::money::{Cents, CreditScore, LtvBasisPoints};

fn bucket(id: &str, min: u32, max: u32) -> LtvBucket {
    LtvBucket { id: id.to_owned(), min_bps: min, max_bps: max }
}

fn dataset() -> LlpaDatasetFile {
    let order = vec!["le60".to_owned(), "60_80".to_owned(), "80_97".to_owned()];
    LlpaDatasetFile {
        agency: GseAgency::Fannie,
        source_citation: "Fannie Mae LLPA Matrix".to_owned(),
        effective_date: "2025-01-01".to_owned(),
        ltv_buckets: vec![bucket("le60", 0, 6000), bucket("60_80", 6001, 8000), bucket("80_97", 8001, 9700)],
        score_buckets: vec![
            ScoreBucket { id: "ge780".to_owned(), min: 780, max: 850 },
            ScoreBucket { id: "700_779".to_owned(), min: 700, max: 779 },
            ScoreBucket { id: "620_699".to_owned(), min: 620, max: 699 },
        ],
        base_grids: vec![
            (
                "purchase".to_owned(),
                Grid {
                    ltv_order: order.clone(),
                    rows: vec![
                        ("ge780".to_owned(), vec![Some(0), Some(38), Some(50)]),
                        ("700_779".to_owned(), vec![Some(0), Some(88), Some(125)]),
                        ("620_699".to_owned(), vec![Some(0), Some(150), None]),
                    ],
                    not_eligible_above_ltv_bps: None,
                },
            ),
            (
                "cash_out_refi".to_owned(),
                Grid {
                    ltv_order: order.clone(),
                    rows: vec![("ge780".to_owned(), vec![Some(38), Some(138), Some(200)])],
                    not_eligible_above_ltv_bps: Some(8000),
                },
            ),
        ],
        special_attribute_grids: vec![(
            "purchase".to_owned(),
            SpecialGrid {
                ltv_order: order,
                attributes: vec![
                    ("investment_property".to_owned(), vec![Some(188), Some(213), Some(338)]),
                    ("condominium_unit".to_owned(), vec![Some(0), Some(13), Some(75)]),
                    ("adjustable_rate_mortgage".to_owned(), vec![Some(0), Some(0), None]),
                ],
                not_eligible_above_ltv_bps: None,
            },
        )],
    }
}

fn scenario(score: u16, ltv: u32) -> LlpaScenario {
    LlpaScenario {
        purpose: LlpaPurpose::Purchase,
        occupancy: LlpaOccupancy::Primary,
        property_type: LlpaPropertyType::Detached,
        indicator_score: CreditScore::new(score).unwrap(),
        ltv: LtvBasisPoints::new(ltv).unwrap(),
        loan_amount: Cents::from_dollars(400_000),
        is_arm: false,
        is_high_balance: false,
        is_super_conforming: false,
        has_subordinate_financing: false,
        heloc_balance_at_closing: Cents(0),
        has_affordable_second: false,
        state: "TX".to_owned(),
        ami_percent: None,
        is_first_time_homebuyer: false,
        is_high_cost_area: false,
        is_duty_to_serve: false,
        is_home_ready_or_possible: false,
    }
}

fn overlay() -> LenderOverlayFile {
    LenderOverlayFile {
        lender_id: "acme".to_owned(),
        source_citation: "Acme rate sheet".to_owned(),
        effective_date: "2025-01-01".to_owned(),
        max_net_pricing_bps: -100,
        high_balance_max_net_pricing_bps: -50,
        refi_incentive_bps: Some(-25),
        loan_amount_bands: vec![
            LoanAmountBand { min: None, max: Some(10_000_000), bps: 0 },
            LoanAmountBand { min: Some(30_000_000), max: None, bps: -20 },
        ],
        state_adjustments_bps: vec![("TX".to_owned(), 10), ("NY".to_owned(), -15)],
        affordable_cap_bps: Some(0),
        max_ltv_rules: vec![MaxLtvRule { attribute: "investment_property".to_owned(), max_ltv_bps: 8500 }],
    }
}

#[test]
fn base_cell_priced_and_traced() {
    let d = price(&dataset(), "fannie_llpa_2025.json", None, &scenario(720, 7500), 2025, 2025).unwrap();
    assert_eq!(d.value.gse_subtotal_bps, 88);
    assert_eq!(d.value.lender_subtotal_bps, 0);
    assert_eq!(d.value.total_bps, 88);
    assert_eq!(d.value.adjustments.len(), 1);
    assert_eq!(d.value.adjustments[0].description, "Fannie base grid: score 720, LTV 75.00%");
    assert_eq!(d.provenance.dataset, "fannie_llpa");
    assert_eq!(d.provenance.record_id, "purchase_720_7500");
    let rules: Vec<&str> = d.steps.iter().map(|s| s.rule.as_str()).collect();
    assert_eq!(rules, vec!["gse_base_and_attributes", "net_total"]);
    assert_eq!(d.steps[1].outcome, "total 88 bps = $3520.00 on $400000.00");
}

#[test]
fn special_attributes_add_up() {
    let mut s = scenario(790, 9000);
    s.occupancy = LlpaOccupancy::Investment;
    s.property_type = LlpaPropertyType::AttachedCondo;
    let d = price(&dataset(), "f", None, &s, 2025, 2025).unwrap();
    assert_eq!(d.value.gse_subtotal_bps, 50 + 338 + 75);
    let descs: Vec<&str> = d.value.adjustments.iter().map(|a| a.description.as_str()).collect();
    assert_eq!(descs[1..], ["investment_property", "condominium_unit"]);
}

#[test]
fn not_eligible_cells_reject() {
    let e = price(&dataset(), "f", None, &scenario(650, 9000), 2025, 2025).unwrap_err();
    assert_eq!(e.reason, "base cell [620_699, purchase] is Not Eligible");
    let mut s = scenario(790, 9000);
    s.is_arm = true;
    let e2 = price(&dataset(), "f", None, &s, 2025, 2025).unwrap_err();
    assert_eq!(e2.reason, "attribute 'adjustable_rate_mortgage' is Not Eligible at LTV 90%");
    let e3 = price(&dataset(), "f", None, &scenario(500, 7000), 2025, 2025).unwrap_err();
    assert_eq!(e3.reason, "no score bucket for 500");
    let mut s4 = scenario(790, 8500);
    s4.purpose = LlpaPurpose::CashOutRefi;
    let e4 = price(&dataset(), "f", None, &s4, 2025, 2025).unwrap_err();
    assert_eq!(e4.reason, "LTV 85% exceeds cash_out_refi cutoff 80%");
    let mut s5 = scenario(790, 7000);
    s5.purpose = LlpaPurpose::NoCashOutRefi;
    let e5 = price(&dataset(), "f", None, &s5, 2025, 2025).unwrap_err();
    assert_eq!(e5.reason, "no base grid 'no_cash_out_refi'");
}

#[test]
fn overlay_adds_lender_adjustments_and_floor() {
    let ov = overlay();
    let d = price(&dataset(), "f", Some(("acme_overlay_2025.json", &ov)), &scenario(790, 7000), 2025, 2025).unwrap();
    // 38 base; band -20 (loan $400k); TX +10.
    assert_eq!(d.value.gse_subtotal_bps, 38);
    assert_eq!(d.value.lender_subtotal_bps, -10);
    assert_eq!(d.value.total_bps, 28);
    let rules: Vec<&str> = d.steps.iter().map(|s| s.rule.as_str()).collect();
    assert_eq!(rules, vec!["gse_base_and_attributes", "lender_overlay", "net_total"]);
}

#[test]
fn overlay_tightens_eligibility() {
    let ov = overlay();
    let mut s = scenario(790, 9000);
    s.occupancy = LlpaOccupancy::Investment;
    assert!(price(&dataset(), "f", None, &s, 2025, 2025).is_ok());
    let e = price(&dataset(), "f", Some(("o", &ov)), &s, 2025, 2025).unwrap_err();
    assert_eq!(e.reason, "investment_property LTV 90% exceeds lender max 85%");
}

#[test]
fn affordable_cap_keeps_only_credits() {
    let ov = overlay();
    let mut s = scenario(720, 9000);
    s.is_home_ready_or_possible = true;
    let d = price(&dataset(), "f", Some(("o", &ov)), &s, 2025, 2025).unwrap();
    assert!(d.value.capped);
    // Credits: band -20; cap 0 → priced -20; floor -100 leaves it.
    assert_eq!(d.value.total_bps, -20);
    assert_eq!(d.value.adjustments.last().unwrap().adjustment_type, "AffordableCap");
    assert!(affordable_capped(&s));
}

#[test]
fn max_net_floor_limits_credits() {
    let mut ov = overlay();
    ov.loan_amount_bands = vec![LoanAmountBand { min: None, max: None, bps: -500 }];
    let d = price(&dataset(), "f", Some(("o", &ov)), &scenario(790, 5000), 2025, 2025).unwrap();
    assert_eq!(d.value.gse_subtotal_bps + d.value.lender_subtotal_bps, -490);
    assert_eq!(d.value.total_bps, -100);
}

#[test]
fn cost_for_loan() {
    let d = price(&dataset(), "f", None, &scenario(720, 7500), 2025, 2025).unwrap();
    assert_eq!(d.value.cost_for(Cents(40_000_000)), Cents(352_000));
    assert_eq!(d.value.cost_for(Cents(-40_000_000)), Cents(-352_000));
}

#[test]
fn price_bps_to_engine_precision() {
    assert_eq!(price_bps_to_basis_points(25).unwrap().0, 250);
    assert!(price_bps_to_basis_points(-1).is_none());
}

#[test]
fn affordable_cap_eligibility_rules() {
    let mut s = scenario(720, 9000);
    assert!(!affordable_capped(&s));
    s.ami_percent = Some(100);
    s.is_first_time_homebuyer = true;
    assert!(affordable_capped(&s));
    s.ami_percent = Some(110);
    assert!(!affordable_capped(&s));
    s.is_high_cost_area = true;
    assert!(affordable_capped(&s));
    s.ami_percent = Some(121);
    assert!(!affordable_capped(&s));
}
