//! Loan-Level Price Adjustment (LLPA) / credit-fee pricing.
//!
//! Composes the GSE risk-based price grids (Fannie Mae LLPA Matrix, Freddie
//! Mac Exhibit 19 credit fees) with an optional per-lender overlay (additive
//! pricing overrides plus tighten-only eligibility) into a fully itemized
//! price for a conventional loan scenario. Adjustments are in true basis
//! points (0.01%): positive is a cost to the borrower, negative a credit.
//!
//! Grid bounds and cells are held as integers: LTV bucket bounds and cutoffs
//! in hundredths of a percent (the scale of [`LtvBasisPoints`]), grid cells
//! already rounded to whole basis points.

use vstd::prelude::*;
use vstd::string::*;
use crate::money::{trunc_div, BasisPoints, Cents, CreditScore, LtvBasisPoints};
use crate::provenance::{prov_is, rule_names, step_texts, Derived, Provenance};
use crate::search::{
    first_index, first_where, find_key, key_get, key_index, keys_distinct, lemma_first_index,
    lemma_contains_concat, lemma_contains_listed, lemma_first_where_found, listed_if,
};
use crate::text::{cents_text, dec_int, dec_nat, pct2_text, pct_text, push_dec_u64, push_pct, push_pct2, str_eq};

verus! {

/// Which GSE grid governs.
#[derive(Clone, Copy, Debug, PartialEq, Eq, Structural)]
pub enum GseAgency {
    /// Fannie Mae LLPA Matrix.
    Fannie,
    /// Freddie Mac Exhibit 19 Credit Fees.
    Freddie,
}

impl GseAgency {
    /// Logical dataset name for this agency.
    pub open spec fn spec_dataset(self) -> Seq<char> {
        match self {
            GseAgency::Fannie => "fannie_llpa"@,
            GseAgency::Freddie => "freddie_credit_fees"@,
        }
    }

    /// Logical dataset name (versioned file stem) for this agency.
    pub fn dataset(self) -> (s: &'static str)
        ensures
            s@ == self.spec_dataset(),
    {
        match self {
            GseAgency::Fannie => "fannie_llpa",
            GseAgency::Freddie => "freddie_credit_fees",
        }
    }

    /// The variant's name.
    pub open spec fn spec_name(self) -> Seq<char> {
        match self {
            GseAgency::Fannie => "Fannie"@,
            GseAgency::Freddie => "Freddie"@,
        }
    }

    /// The variant's name.
    pub fn name(self) -> (s: &'static str)
        ensures
            s@ == self.spec_name(),
    {
        match self {
            GseAgency::Fannie => "Fannie",
            GseAgency::Freddie => "Freddie",
        }
    }
}

/// Loan purpose.
#[derive(Clone, Copy, Debug, PartialEq, Eq, Structural)]
pub enum LlpaPurpose {
    Purchase,
    /// Rate/term refinance.
    NoCashOutRefi,
    /// Cash-out refinance.
    CashOutRefi,
}

impl LlpaPurpose {
    /// Base/special grid key as stored in the dataset.
    pub open spec fn spec_grid_key(self) -> Seq<char> {
        match self {
            LlpaPurpose::Purchase => "purchase"@,
            LlpaPurpose::NoCashOutRefi => "no_cash_out_refi"@,
            LlpaPurpose::CashOutRefi => "cash_out_refi"@,
        }
    }

    /// Base/special grid key as stored in the dataset.
    pub fn grid_key(self) -> (s: &'static str)
        ensures
            s@ == self.spec_grid_key(),
    {
        match self {
            LlpaPurpose::Purchase => "purchase",
            LlpaPurpose::NoCashOutRefi => "no_cash_out_refi",
            LlpaPurpose::CashOutRefi => "cash_out_refi",
        }
    }
}

/// Occupancy.
#[derive(Clone, Copy, Debug, PartialEq, Eq, Structural)]
pub enum LlpaOccupancy {
    Primary,
    SecondHome,
    Investment,
}

/// Property type relevant to LLPA special attributes.
#[derive(Clone, Copy, Debug, PartialEq, Eq, Structural)]
pub enum LlpaPropertyType {
    Detached,
    AttachedCondo,
    /// Detached condos are exempt from the condominium fee.
    DetachedCondo,
    Manufactured,
    Units2,
    Units3,
    Units4,
}

/// A single priced scenario.
#[derive(Clone, Debug)]
pub struct LlpaScenario {
    pub purpose: LlpaPurpose,
    pub occupancy: LlpaOccupancy,
    pub property_type: LlpaPropertyType,
    pub indicator_score: CreditScore,
    /// Gross LTV (the LLPA-grid basis).
    pub ltv: LtvBasisPoints,
    pub loan_amount: Cents,
    pub is_arm: bool,
    pub is_high_balance: bool,
    pub is_super_conforming: bool,
    pub has_subordinate_financing: bool,
    /// HELOC balance at closing; secondary-financing fee is skipped when zero.
    pub heloc_balance_at_closing: Cents,
    pub has_affordable_second: bool,
    /// Two-letter state, used by lender state adjusters.
    pub state: String,
    /// AMI percent for cap eligibility (`None` = not an affordable scenario).
    pub ami_percent: Option<u16>,
    pub is_first_time_homebuyer: bool,
    pub is_high_cost_area: bool,
    pub is_duty_to_serve: bool,
    pub is_home_ready_or_possible: bool,
}

/// One additive price adjustment in true basis points (0.01%), signed.
#[derive(Clone, Debug, PartialEq, Eq)]
pub struct PriceAdjustment {
    /// Adjustment type, e.g. "BaseGrid", "SpecialAttribute", "LenderOverride".
    pub adjustment_type: String,
    /// Human-readable description for the audit trail / disclosure.
    pub description: String,
    /// Price adjustment in true basis points, signed.
    pub bps: i32,
}

/// Type, description and basis points of an adjustment.
pub type AdjView = (Seq<char>, Seq<char>, int);

impl PriceAdjustment {
    /// Type, description and basis points of the adjustment.
    pub open spec fn view3(self) -> AdjView {
        (self.adjustment_type@, self.description@, self.bps as int)
    }
}

/// Views of a list of adjustments.
pub open spec fn adjs_view(v: Seq<PriceAdjustment>) -> Seq<AdjView> {
    v.map_values(|a: PriceAdjustment| a.view3())
}

/// Sum of the basis points of a list of adjustments.
pub open spec fn sum_bps(v: Seq<AdjView>) -> int
    decreases v.len(),
{
    if v.len() == 0 { 0 } else { sum_bps(v.drop_last()) + v.last().2 }
}

/// Sum of the negative (credit) basis points of a list of adjustments.
pub open spec fn sum_credits(v: Seq<AdjView>) -> int
    decreases v.len(),
{
    if v.len() == 0 {
        0
    } else {
        sum_credits(v.drop_last()) + if v.last().2 < 0 { v.last().2 } else { 0 }
    }
}

/// Itemized, composed LLPA pricing result.
#[derive(Clone, Debug, PartialEq, Eq)]
pub struct LlpaPricing {
    pub agency: GseAgency,
    /// Every applied adjustment, in application order.
    pub adjustments: Vec<PriceAdjustment>,
    /// Sum of GSE (base + special-attribute) adjustments, in bps.
    pub gse_subtotal_bps: i32,
    /// Sum of lender overlay adjustments (overrides + incentives), in bps.
    pub lender_subtotal_bps: i32,
    /// True when an affordable/mission cap replaced the positive priced fees.
    pub capped: bool,
    /// Net total price adjustment in bps (after cap + max-net floor).
    pub total_bps: i32,
}

impl LlpaPricing {
    /// Cost in cents for a loan amount (positive = borrower cost):
    /// `loan × total_bps / 10_000`, rounded toward zero.
    pub fn cost_for(&self, loan_amount: Cents) -> (c: Cents)
        ensures
            c.0 == trunc_div(loan_amount.0 * self.total_bps, 10_000) as i64,
    {
        assert(-0x8000_0000_0000_0000 * 0x8000_0000 <= (loan_amount.0 as int) * (self.total_bps as int)
            <= 0x8000_0000_0000_0000 * 0x8000_0000) by (nonlinear_arith)
            requires
                i64::MIN <= loan_amount.0 <= i64::MAX,
                i32::MIN <= self.total_bps <= i32::MAX,
        ;
        let amt: i128 = (loan_amount.0 as i128) * (self.total_bps as i128) / 10_000;
        Cents(#[verifier::truncate] (amt as i64))
    }
}

/// Eligibility rejection (tighten-only overlay or a "Not Eligible" grid cell).
#[derive(Clone, Debug, PartialEq, Eq)]
pub struct Ineligible {
    pub reason: String,
}

/// LTV bucket: `[min, max]` inclusive, in hundredths of a percent.
#[derive(Clone, Debug)]
pub struct LtvBucket {
    pub id: String,
    pub min_bps: u32,
    pub max_bps: u32,
}

/// Score bucket: `[min, max]` inclusive.
#[derive(Clone, Debug)]
pub struct ScoreBucket {
    pub id: String,
    pub min: u16,
    pub max: u16,
}

/// A grid: score rows aligned to an LTV column order; `None` cells mean
/// "Not Eligible".
#[derive(Clone, Debug)]
pub struct Grid {
    pub ltv_order: Vec<String>,
    pub rows: Vec<(String, Vec<Option<i32>>)>,
    /// LTV (hundredths of a percent) above which nothing is eligible.
    pub not_eligible_above_ltv_bps: Option<u32>,
}

/// A special-attribute grid: attribute name → values aligned to the LTV order.
#[derive(Clone, Debug)]
pub struct SpecialGrid {
    pub ltv_order: Vec<String>,
    pub attributes: Vec<(String, Vec<Option<i32>>)>,
    pub not_eligible_above_ltv_bps: Option<u32>,
}

/// A GSE grid dataset (Fannie Mae LLPA matrix / Freddie Mac credit fees).
#[derive(Clone, Debug)]
pub struct LlpaDatasetFile {
    pub agency: GseAgency,
    pub source_citation: String,
    pub effective_date: String,
    pub ltv_buckets: Vec<LtvBucket>,
    pub score_buckets: Vec<ScoreBucket>,
    /// Keyed by purpose grid key.
    pub base_grids: Vec<(String, Grid)>,
    /// Keyed by purpose grid key.
    pub special_attribute_grids: Vec<(String, SpecialGrid)>,
}

/// The bucket named `id` (the first with that id) contains the LTV.
pub open spec fn bucket_has(buckets: Seq<LtvBucket>, id: Seq<char>, ltv: u32) -> bool {
    match first_where(buckets, |b: LtvBucket| b.id@ == id) {
        Some(b) => b.min_bps <= ltv && ltv <= b.max_bps,
        None => false,
    }
}

/// The first column of `order` whose bucket contains the LTV.
pub open spec fn ltv_col_of(buckets: Seq<LtvBucket>, order: Seq<String>, ltv: u32) -> Option<int> {
    first_index(order, |id: String| bucket_has(buckets, id@, ltv))
}

/// The id of the first score bucket containing the score.
pub open spec fn score_id_of(buckets: Seq<ScoreBucket>, score: u16) -> Option<Seq<char>> {
    match first_where(buckets, |b: ScoreBucket| b.min <= score && score <= b.max) {
        Some(b) => Some(b.id@),
        None => None,
    }
}

/// The value of a cell, when the column exists and the cell is eligible.
pub open spec fn cell(vals: Seq<Option<i32>>, col: int) -> Option<i32> {
    if 0 <= col < vals.len() { vals[col] } else { None }
}

/// The base-grid adjustment for the scenario, or why it is not eligible.
pub open spec fn base_cell_of(f: LlpaDatasetFile, s: LlpaScenario) -> Result<int, Seq<char>> {
    let key = s.purpose.spec_grid_key();
    let ltv = s.ltv.0;
    match key_get(f.base_grids@, key) {
        None => Err("no base grid '"@ + key + "'"@),
        Some(grid) => if grid.not_eligible_above_ltv_bps matches Some(cut) && ltv > cut {
            Err(
                "LTV "@ + pct_text(ltv as nat) + "% exceeds "@ + key + " cutoff "@ + pct_text(
                    grid.not_eligible_above_ltv_bps->0 as nat,
                ) + "%"@,
            )
        } else {
            match score_id_of(f.score_buckets@, s.indicator_score.0) {
                None => Err("no score bucket for "@ + dec_nat(s.indicator_score.0 as nat)),
                Some(sid) => match ltv_col_of(f.ltv_buckets@, grid.ltv_order@, ltv) {
                    None => Err("no LTV bucket for "@ + pct_text(ltv as nat) + "%"@),
                    Some(col) => match key_get(grid.rows@, sid) {
                        None => Err("no score row '"@ + sid + "'"@),
                        Some(row) => match cell(row@, col) {
                            Some(v) => Ok(v as int),
                            None => Err("base cell ["@ + sid + ", "@ + key + "] is Not Eligible"@),
                        },
                    },
                },
            }
        },
    }
}

/// The GSE special attributes that apply to the scenario, in order.
pub open spec fn attributes_of(s: LlpaScenario) -> Seq<Seq<char>> {
    (match s.occupancy {
        LlpaOccupancy::Investment => seq!["investment_property"@],
        LlpaOccupancy::SecondHome => seq!["second_home"@],
        LlpaOccupancy::Primary => Seq::empty(),
    }) + (match s.property_type {
        LlpaPropertyType::Manufactured => seq!["manufactured_homes"@],
        LlpaPropertyType::AttachedCondo => seq!["condominium_unit"@],
        LlpaPropertyType::Units2 | LlpaPropertyType::Units3 | LlpaPropertyType::Units4 => seq![
            "number_of_units_gt1"@,
        ],
        _ => Seq::empty(),
    }) + listed_if(
        s.has_subordinate_financing && s.heloc_balance_at_closing.0 > 0 && !s.has_affordable_second,
        "secondary_financing"@,
    ) + listed_if(s.is_arm, "adjustable_rate_mortgage"@) + listed_if(
        s.is_super_conforming,
        if s.is_arm { "super_conforming_arm"@ } else { "super_conforming_frm"@ },
    )
}

/// The special-attribute adjustment for one attribute: none when the
/// purpose has no special grid or the grid lacks the attribute, else the
/// cell at the scenario's LTV, or why it is not eligible.
pub open spec fn special_cell_of(f: LlpaDatasetFile, s: LlpaScenario, attr: Seq<char>) -> Result<
    Option<int>,
    Seq<char>,
> {
    let key = s.purpose.spec_grid_key();
    let ltv = s.ltv.0;
    match key_get(f.special_attribute_grids@, key) {
        None => Ok(None),
        Some(g) => match key_get(g.attributes@, attr) {
            None => Ok(None),
            Some(vals) => match ltv_col_of(f.ltv_buckets@, g.ltv_order@, ltv) {
                None => Err("no LTV bucket for "@ + pct_text(ltv as nat) + "% (attr "@ + attr + ")"@),
                Some(col) => match cell(vals@, col) {
                    Some(v) => Ok(Some(v as int)),
                    None => Err(
                        "attribute '"@ + attr + "' is Not Eligible at LTV "@ + pct_text(ltv as nat)
                            + "%"@,
                    ),
                },
            },
        },
    }
}

/// The non-zero special-attribute adjustments for `attrs`, in order, or the
/// first attribute that is not eligible.
pub open spec fn special_adjs(f: LlpaDatasetFile, s: LlpaScenario, attrs: Seq<Seq<char>>) -> Result<
    Seq<AdjView>,
    Seq<char>,
>
    decreases attrs.len(),
{
    if attrs.len() == 0 {
        Ok(Seq::empty())
    } else {
        match special_adjs(f, s, attrs.drop_last()) {
            Err(e) => Err(e),
            Ok(prev) => match special_cell_of(f, s, attrs.last()) {
                Err(e) => Err(e),
                Ok(None) => Ok(prev),
                Ok(Some(b)) => if b != 0 {
                    Ok(prev.push(("SpecialAttribute"@, attrs.last(), b)))
                } else {
                    Ok(prev)
                },
            },
        }
    }
}

/// A flat band: an inclusive `[min, max]` loan-amount window (cents) with a
/// bps adjustment; a missing bound is unbounded.
#[derive(Clone, Debug)]
pub struct LoanAmountBand {
    pub min: Option<i64>,
    pub max: Option<i64>,
    /// Adjustment in true basis points, signed.
    pub bps: i32,
}

/// The band's window contains the amount.
pub open spec fn band_contains(b: LoanAmountBand, cents: i64) -> bool {
    (match b.min { Some(lo) => cents >= lo, None => true }) && (match b.max {
        Some(hi) => cents <= hi,
        None => true,
    })
}

impl LoanAmountBand {
    /// True when the amount lies in the band's inclusive window.
    pub fn contains(&self, cents: i64) -> (b: bool)
        ensures
            b == band_contains(*self, cents),
    {
        let lo = match self.min {
            Some(v) => v,
            None => i64::MIN,
        };
        let hi = match self.max {
            Some(v) => v,
            None => i64::MAX,
        };
        cents >= lo && cents <= hi
    }
}

/// Per-attribute tighten-only max LTV, in hundredths of a percent.
#[derive(Clone, Debug)]
pub struct MaxLtvRule {
    pub attribute: String,
    pub max_ltv_bps: u32,
}

/// A lender's pricing overlay.
#[derive(Clone, Debug)]
pub struct LenderOverlayFile {
    pub lender_id: String,
    pub source_citation: String,
    pub effective_date: String,
    /// Best (most negative) net price the lender will honor, in bps.
    pub max_net_pricing_bps: i32,
    /// Same for high-balance loans.
    pub high_balance_max_net_pricing_bps: i32,
    /// Flat incentive in bps applied to no-cash-out refis.
    pub refi_incentive_bps: Option<i32>,
    /// Loan-amount credits.
    pub loan_amount_bands: Vec<LoanAmountBand>,
    /// State adjusters for conventional fixed loans, keyed by 2-letter state.
    pub state_adjustments_bps: Vec<(String, i32)>,
    /// Affordable/mission cap (bps the priced positive fees collapse to).
    pub affordable_cap_bps: Option<i32>,
    /// Tighten-only eligibility.
    pub max_ltv_rules: Vec<MaxLtvRule>,
}

/// The overlay rule applies to the scenario.
pub open spec fn rule_hits(attr: Seq<char>, s: LlpaScenario) -> bool {
    if attr == "cash_out_refi"@ {
        s.purpose == LlpaPurpose::CashOutRefi
    } else if attr == "investment_property"@ {
        s.occupancy == LlpaOccupancy::Investment
    } else if attr == "second_home"@ {
        s.occupancy == LlpaOccupancy::SecondHome
    } else if attr == "high_balance_cash_out"@ {
        s.is_high_balance && s.purpose == LlpaPurpose::CashOutRefi
    } else {
        false
    }
}

/// The rule applies and the scenario's LTV is above the rule's maximum.
pub open spec fn rule_rejects(r: MaxLtvRule, s: LlpaScenario) -> bool {
    rule_hits(r.attribute@, s) && s.ltv.0 > r.max_ltv_bps
}

/// Why the overlay's tighten-only rules reject the scenario (the first
/// rejecting rule), if they do.
pub open spec fn overlay_rejection(o: LenderOverlayFile, s: LlpaScenario) -> Option<Seq<char>> {
    match first_where(o.max_ltv_rules@, |r: MaxLtvRule| rule_rejects(r, s)) {
        Some(r) => Some(
            r.attribute@ + " LTV "@ + pct_text(s.ltv.0 as nat) + "% exceeds lender max "@ + pct_text(
                r.max_ltv_bps as nat,
            ) + "%"@,
        ),
        None => None,
    }
}

/// The lender overlay's adjustments: refi incentive (no-cash-out refis),
/// the first non-zero loan-amount band containing the loan, and a non-zero
/// state adjuster for fixed-rate loans.
pub open spec fn lender_adjs(o: LenderOverlayFile, s: LlpaScenario) -> Seq<AdjView> {
    (if s.purpose == LlpaPurpose::NoCashOutRefi && o.refi_incentive_bps is Some {
        seq![("LenderIncentive"@, "refi incentive"@, o.refi_incentive_bps->0 as int)]
    } else {
        Seq::empty()
    }) + (match first_where(
        o.loan_amount_bands@,
        |b: LoanAmountBand| band_contains(b, s.loan_amount.0) && b.bps != 0,
    ) {
        Some(b) => seq![("LenderOverride"@, "loan-amount band credit"@, b.bps as int)],
        None => Seq::empty(),
    }) + (match state_adj(o, s) {
        Some(b) => seq![("LenderOverride"@, "state adjuster "@ + s.state@, b)],
        None => Seq::empty(),
    })
}

/// The non-zero state adjuster of a fixed-rate scenario.
pub open spec fn state_adj(o: LenderOverlayFile, s: LlpaScenario) -> Option<int> {
    if s.is_arm {
        None
    } else {
        match key_get(o.state_adjustments_bps@, s.state@) {
            Some(b) => if b != 0 { Some(b as int) } else { None },
            None => None,
        }
    }
}

/// The scenario qualifies for the affordable/mission cap.
pub open spec fn affordable_capped_spec(s: LlpaScenario) -> bool {
    s.is_home_ready_or_possible || match s.ami_percent {
        Some(ami) => (s.is_first_time_homebuyer && !s.is_high_cost_area && ami <= 100) || (
        s.is_first_time_homebuyer && s.is_high_cost_area && ami <= 120) || (s.is_duty_to_serve
            && ami <= 100),
        None => false,
    }
}

/// Agency affordable/mission programs cap the priced fees: HomeReady/Home
/// Possible always; otherwise first-time buyers at ≤100% AMI (≤120% in
/// high-cost areas) and duty-to-serve loans at ≤100% AMI.
pub fn affordable_capped(s: &LlpaScenario) -> (b: bool)
    ensures
        b == affordable_capped_spec(*s),
{
    if s.is_home_ready_or_possible {
        return true;
    }
    match s.ami_percent {
        Some(ami) => {
            if s.is_first_time_homebuyer && !s.is_high_cost_area && ami <= 100 {
                return true;
            }
            if s.is_first_time_homebuyer && s.is_high_cost_area && ami <= 120 {
                return true;
            }
            if s.is_duty_to_serve && ami <= 100 {
                return true;
            }
            false
        },
        None => false,
    }
}

/// Why pricing fails, if it does: a tighten-only overlay rule, the base
/// cell, or the first ineligible special attribute.
pub open spec fn price_error(f: LlpaDatasetFile, o: Option<LenderOverlayFile>, s: LlpaScenario) -> Option<
    Seq<char>,
> {
    if o matches Some(ov) && overlay_rejection(ov, s) is Some {
        overlay_rejection(o->0, s)
    } else {
        gse_error(f, s)
    }
}

/// Why the GSE grids reject the scenario, if they do: the base cell, or the
/// first ineligible special attribute.
pub open spec fn gse_error(f: LlpaDatasetFile, s: LlpaScenario) -> Option<Seq<char>> {
    match base_cell_of(f, s) {
        Err(e) => Some(e),
        Ok(_) => match special_adjs(f, s, attributes_of(s)) {
            Err(e) => Some(e),
            Ok(_) => None,
        },
    }
}

/// The GSE adjustments: base grid cell, then non-zero special attributes.
pub open spec fn gse_adjs(f: LlpaDatasetFile, s: LlpaScenario) -> Seq<AdjView> {
    seq![
        (
            "BaseGrid"@,
            f.agency.spec_name() + " base grid: score "@ + dec_nat(s.indicator_score.0 as nat)
                + ", LTV "@ + pct2_text(s.ltv.0 as nat) + "%"@,
            base_cell_of(f, s)->Ok_0,
        ),
    ] + special_adjs(f, s, attributes_of(s))->Ok_0
}

/// The lender adjustments when an overlay is present.
pub open spec fn lender_part(o: Option<LenderOverlayFile>, s: LlpaScenario) -> Seq<AdjView> {
    match o {
        Some(ov) => lender_adjs(ov, s),
        None => Seq::empty(),
    }
}

/// The affordable cap in force (the overlay's, else zero).
pub open spec fn cap_of(o: Option<LenderOverlayFile>) -> int {
    match o {
        Some(ov) => match ov.affordable_cap_bps {
            Some(c) => c as int,
            None => 0,
        },
        None => 0,
    }
}

/// The net price before the max-net floor: the cap plus all credits when
/// capped, else the GSE plus lender subtotals.
pub open spec fn priced_of(f: LlpaDatasetFile, o: Option<LenderOverlayFile>, s: LlpaScenario) -> int {
    if affordable_capped_spec(s) {
        cap_of(o) + sum_credits(gse_adjs(f, s) + lender_part(o, s))
    } else {
        sum_bps(gse_adjs(f, s)) + sum_bps(lender_part(o, s))
    }
}

/// The net total: the priced amount raised to the overlay's max-net floor
/// (the high-balance floor for high-balance loans).
pub open spec fn total_of(f: LlpaDatasetFile, o: Option<LenderOverlayFile>, s: LlpaScenario) -> int {
    let priced = priced_of(f, o, s);
    match o {
        Some(ov) => {
            let floor = if s.is_high_balance {
                ov.high_balance_max_net_pricing_bps
            } else {
                ov.max_net_pricing_bps
            };
            if priced > floor { priced } else { floor as int }
        },
        None => priced,
    }
}

/// All adjustments, in application order.
pub open spec fn all_adjs(f: LlpaDatasetFile, o: Option<LenderOverlayFile>, s: LlpaScenario) -> Seq<AdjView> {
    gse_adjs(f, s) + lender_part(o, s) + listed_if(
        affordable_capped_spec(s),
        ("AffordableCap"@, "affordable/mission program cap applied"@, cap_of(o)),
    )
}

/// Every keyed table of the dataset (the purpose grids, the special grids,
/// and the rows and attributes inside each) holds a key at most once, as
/// the maps they stand for.
pub open spec fn llpa_keys_distinct(f: LlpaDatasetFile) -> bool {
    &&& keys_distinct(f.base_grids@)
    &&& keys_distinct(f.special_attribute_grids@)
    &&& forall|k: int| 0 <= k < f.base_grids@.len() ==> keys_distinct(#[trigger] f.base_grids@[k].1.rows@)
    &&& forall|k: int|
        0 <= k < f.special_attribute_grids@.len() ==> keys_distinct(
            #[trigger] f.special_attribute_grids@[k].1.attributes@,
        )
}

/// The overlay's state adjusters hold each state at most once.
pub open spec fn overlay_keys_distinct(o: LenderOverlayFile) -> bool {
    keys_distinct(o.state_adjustments_bps@)
}

/// The subtotals, priced amount and total of a successful pricing fit in
/// 32 bits.
pub open spec fn llpa_in_range(f: LlpaDatasetFile, o: Option<LenderOverlayFile>, s: LlpaScenario) -> bool {
    price_error(f, o, s) is None ==> {
        &&& i32::MIN <= sum_bps(gse_adjs(f, s)) <= i32::MAX
        &&& i32::MIN <= sum_bps(lender_part(o, s)) <= i32::MAX
        &&& i32::MIN <= priced_of(f, o, s) <= i32::MAX
    }
}

/// The rules a pricing records, in order.
pub open spec fn llpa_rules(o: Option<LenderOverlayFile>, s: LlpaScenario) -> Seq<Seq<char>> {
    seq!["gse_base_and_attributes"@] + listed_if(o is Some, "lender_overlay"@) + listed_if(
        affordable_capped_spec(s),
        "affordable_cap"@,
    ) + seq!["net_total"@]
}

/// The steps of a pricing from its figures: the GSE subtotal, the overlay
/// (named by its file) when one applies, the affordable cap when it
/// applies, and the net total with its cost on the loan.
pub open spec fn pricing_steps(
    agency: GseAgency,
    s: LlpaScenario,
    overlay_file: Option<Seq<char>>,
    capped: bool,
    gse_subtotal: int,
    lender_subtotal: int,
    total: int,
    cost: int,
) -> Seq<(Seq<char>, Seq<char>, Seq<char>)> {
    seq![
        (
            "gse_base_and_attributes"@,
            agency.spec_name() + " "@ + s.purpose.spec_grid_key() + " score="@ + dec_nat(
                s.indicator_score.0 as nat,
            ) + " ltv="@ + pct2_text(s.ltv.0 as nat) + "%"@,
            "GSE subtotal "@ + dec_int(gse_subtotal) + " bps"@,
        ),
    ] + (match overlay_file {
        Some(f) => seq![
            ("lender_overlay"@, "overlay file "@ + f, "lender subtotal "@ + dec_int(lender_subtotal) + " bps"@),
        ],
        None => Seq::empty(),
    }) + listed_if(
        capped,
        (
            "affordable_cap"@,
            "home_ready_or_possible / FTHB / duty-to-serve"@,
            "positive fees collapsed to cap; credits preserved"@,
        ),
    ) + seq![
        (
            "net_total"@,
            "gse "@ + dec_int(gse_subtotal) + " + lender "@ + dec_int(lender_subtotal),
            "total "@ + dec_int(total) + " bps = "@ + cents_text(cost) + " on "@ + cents_text(
                s.loan_amount.0 as int,
            ),
        ),
    ]
}

/// The provenance of a pricing.
pub open spec fn llpa_prov(f: LlpaDatasetFile, s: LlpaScenario, d: Provenance, file: Seq<char>, req: u16, res: u16) -> bool {
    prov_is(
        d,
        f.agency.spec_dataset(),
        file,
        f.source_citation@,
        f.effective_date@,
        s.purpose.spec_grid_key() + "_"@ + dec_nat(s.indicator_score.0 as nat) + "_"@ + dec_nat(
            s.ltv.0 as nat,
        ),
        req,
        res,
    )
}

/// Makes an adjustment line.
fn adj(t: &str, desc: String, bps: i32) -> (a: PriceAdjustment)
    ensures
        a.view3() == (t@, desc@, bps as int),
{
    PriceAdjustment { adjustment_type: t.to_owned(), description: desc, bps }
}

/// Appends an adjustment line, keeping the running sums.
fn push_adj(v: &mut Vec<PriceAdjustment>, a: PriceAdjustment)
    ensures
        adjs_view(final(v)@) == adjs_view(old(v)@).push(a.view3()),
{
    v.push(a);
    assert(adjs_view(v@) =~= adjs_view(old(v)@).push(a.view3()));
}

/// Appends an attribute name.
fn push_attr(v: &mut Vec<&'static str>, a: &'static str)
    ensures
        final(v)@.map_values(|x: &'static str| x@) == old(v)@.map_values(|x: &'static str| x@).push(a@),
{
    v.push(a);
    assert(v@.map_values(|x: &'static str| x@) =~= old(v)@.map_values(|x: &'static str| x@).push(a@));
}

/// A sum of `n` 32-bit values fits comfortably in 64 bits.
proof fn lemma_sum_bounds(v: Seq<AdjView>)
    requires
        forall|i: int| 0 <= i < v.len() ==> i32::MIN <= #[trigger] v[i].2 <= i32::MAX,
    ensures
        -0x8000_0000 * v.len() <= sum_bps(v) <= 0x8000_0000 * v.len(),
        -0x8000_0000 * v.len() <= sum_credits(v) <= 0,
    decreases v.len(),
{
    if v.len() > 0 {
        assert forall|i: int| 0 <= i < v.drop_last().len() implies i32::MIN <= #[trigger] v.drop_last()[i].2
            <= i32::MAX by {
            assert(v.drop_last()[i] == v[i]);
        }
        lemma_sum_bounds(v.drop_last());
        assert(v.last() == v[v.len() - 1]);
    }
}

impl LlpaDatasetFile {
    /// Index of the first score bucket containing the score.
    fn score_bucket(&self, score: u16) -> (r: Option<usize>)
        ensures
            match r {
                Some(k) => k < self.score_buckets@.len() && score_id_of(self.score_buckets@, score)
                    == Some(self.score_buckets@[k as int].id@),
                None => score_id_of(self.score_buckets@, score) is None,
            },
    {
        let ghost pred = |b: ScoreBucket| b.min <= score && score <= b.max;
        let mut i: usize = 0;
        while i < self.score_buckets.len()
            invariant
                0 <= i <= self.score_buckets@.len(),
                pred == (|b: ScoreBucket| b.min <= score && score <= b.max),
                forall|j: int| 0 <= j < i ==> !pred(#[trigger] self.score_buckets@[j]),
            decreases self.score_buckets@.len() - i,
        {
            let b = &self.score_buckets[i];
            if score >= b.min && score <= b.max {
                proof {
                    crate::search::lemma_first_where_hit(self.score_buckets@, pred, i as int);
                }
                return Some(i);
            }
            i = i + 1;
        }
        proof {
            crate::search::lemma_first_where_none(self.score_buckets@, pred);
        }
        None
    }

    /// True when the bucket named `id` contains the LTV.
    fn bucket_contains(&self, id: &str, ltv: u32) -> (b: bool)
        ensures
            b == bucket_has(self.ltv_buckets@, id@, ltv),
    {
        let ghost pred = |b: LtvBucket| b.id@ == id@;
        let mut i: usize = 0;
        while i < self.ltv_buckets.len()
            invariant
                0 <= i <= self.ltv_buckets@.len(),
                pred == (|b: LtvBucket| b.id@ == id@),
                forall|j: int| 0 <= j < i ==> !pred(#[trigger] self.ltv_buckets@[j]),
            decreases self.ltv_buckets@.len() - i,
        {
            let b = &self.ltv_buckets[i];
            if str_eq(b.id.as_str(), id) {
                proof {
                    crate::search::lemma_first_where_hit(self.ltv_buckets@, pred, i as int);
                }
                return ltv >= b.min_bps && ltv <= b.max_bps;
            }
            i = i + 1;
        }
        proof {
            crate::search::lemma_first_where_none(self.ltv_buckets@, pred);
        }
        false
    }

    /// The first column of `order` whose bucket contains the LTV.
    fn ltv_col(&self, order: &Vec<String>, ltv: u32) -> (r: Option<usize>)
        ensures
            match r {
                Some(k) => ltv_col_of(self.ltv_buckets@, order@, ltv) == Some(k as int),
                None => ltv_col_of(self.ltv_buckets@, order@, ltv) is None,
            },
    {
        let ghost pred = |id: String| bucket_has(self.ltv_buckets@, id@, ltv);
        let mut i: usize = 0;
        while i < order.len()
            invariant
                0 <= i <= order@.len(),
                pred == (|id: String| bucket_has(self.ltv_buckets@, id@, ltv)),
                forall|j: int| 0 <= j < i ==> !pred(#[trigger] order@[j]),
            decreases order@.len() - i,
        {
            if self.bucket_contains(order[i].as_str(), ltv) {
                proof {
                    lemma_first_index(order@, pred, i as int);
                }
                return Some(i);
            }
            i = i + 1;
        }
        proof {
            lemma_first_index(order@, pred, i as int);
        }
        None
    }

    fn provenance(&self, file: &str, s: &LlpaScenario, req: u16, res: u16) -> (r: Provenance)
        ensures
            llpa_prov(*self, *s, r, file@, req, res),
    {
        let mut record = String::new();
        record.append(s.purpose.grid_key());
        record.append("_");
        push_dec_u64(&mut record, s.indicator_score.0 as u64);
        record.append("_");
        push_dec_u64(&mut record, s.ltv.0 as u64);
        Provenance {
            dataset: self.agency.dataset().to_owned(),
            source_file: file.to_owned(),
            source_citation: self.source_citation.clone(),
            effective_date: self.effective_date.clone(),
            record_id: record,
            requested_version: req,
            resolved_version: res,
        }
    }

    /// Base-grid cell for this scenario, or why it is Not Eligible.
    pub fn base_cell(&self, s: &LlpaScenario) -> (r: Result<i32, Ineligible>)
        ensures
            match r {
                Ok(v) => base_cell_of(*self, *s) == Ok::<int, Seq<char>>(v as int),
                Err(e) => base_cell_of(*self, *s) == Err::<int, Seq<char>>(e.reason@),
            },
    {
        let key = s.purpose.grid_key();
        let ltv = s.ltv.0;
        let gi = match find_key(&self.base_grids, key) {
            None => {
                let mut m = String::new();
                m.append("no base grid '");
                m.append(key);
                m.append("'");
                return Err(Ineligible { reason: m });
            },
            Some(k) => k,
        };
        let grid = &self.base_grids[gi].1;
        match grid.not_eligible_above_ltv_bps {
            Some(cut) => {
                if ltv > cut {
                    let mut m = String::new();
                    m.append("LTV ");
                    push_pct(&mut m, ltv as u64);
                    m.append("% exceeds ");
                    m.append(key);
                    m.append(" cutoff ");
                    push_pct(&mut m, cut as u64);
                    m.append("%");
                    return Err(Ineligible { reason: m });
                }
            },
            None => {},
        }
        let si = match self.score_bucket(s.indicator_score.0) {
            None => {
                let mut m = String::new();
                m.append("no score bucket for ");
                push_dec_u64(&mut m, s.indicator_score.0 as u64);
                return Err(Ineligible { reason: m });
            },
            Some(k) => k,
        };
        let sid = self.score_buckets[si].id.as_str();
        let col = match self.ltv_col(&grid.ltv_order, ltv) {
            None => {
                let mut m = String::new();
                m.append("no LTV bucket for ");
                push_pct(&mut m, ltv as u64);
                m.append("%");
                return Err(Ineligible { reason: m });
            },
            Some(c) => c,
        };
        let ri = match find_key(&grid.rows, sid) {
            None => {
                let mut m = String::new();
                m.append("no score row '");
                m.append(sid);
                m.append("'");
                return Err(Ineligible { reason: m });
            },
            Some(k) => k,
        };
        let row = &grid.rows[ri].1;
        if col < row.len() {
            match row[col] {
                Some(v) => {
                    return Ok(v);
                },
                None => {},
            }
        }
        let mut m = String::new();
        m.append("base cell [");
        m.append(sid);
        m.append(", ");
        m.append(key);
        m.append("] is Not Eligible");
        Err(Ineligible { reason: m })
    }

    /// Names of GSE special attributes that apply to this scenario.
    pub fn applicable_attributes(s: &LlpaScenario) -> (v: Vec<&'static str>)
        ensures
            v@.map_values(|a: &'static str| a@) == attributes_of(*s),
    {
        let mut v: Vec<&'static str> = Vec::new();
        assert(v@.map_values(|a: &'static str| a@) =~= Seq::<Seq<char>>::empty());
        match s.occupancy {
            LlpaOccupancy::Investment => push_attr(&mut v, "investment_property"),
            LlpaOccupancy::SecondHome => push_attr(&mut v, "second_home"),
            LlpaOccupancy::Primary => {},
        }
        let ghost a1 = v@.map_values(|a: &'static str| a@);
        match s.property_type {
            LlpaPropertyType::Manufactured => push_attr(&mut v, "manufactured_homes"),
            LlpaPropertyType::AttachedCondo => push_attr(&mut v, "condominium_unit"),
            LlpaPropertyType::DetachedCondo => {},
            LlpaPropertyType::Units2 | LlpaPropertyType::Units3 | LlpaPropertyType::Units4 => {
                push_attr(&mut v, "number_of_units_gt1");
            },
            LlpaPropertyType::Detached => {},
        }
        let ghost a2 = v@.map_values(|a: &'static str| a@);
        if s.has_subordinate_financing && s.heloc_balance_at_closing.is_positive()
            && !s.has_affordable_second {
            push_attr(&mut v, "secondary_financing");
        }
        let ghost a3 = v@.map_values(|a: &'static str| a@);
        if s.is_arm {
            push_attr(&mut v, "adjustable_rate_mortgage");
        }
        let ghost a4 = v@.map_values(|a: &'static str| a@);
        if s.is_super_conforming {
            if s.is_arm {
                push_attr(&mut v, "super_conforming_arm");
            } else {
                push_attr(&mut v, "super_conforming_frm");
            }
        }
        assert(v@.map_values(|a: &'static str| a@) =~= attributes_of(*s));
        v
    }

    /// The special-attribute cell for one attribute, `None` when not priced.
    pub fn special_cell(&self, s: &LlpaScenario, attr: &str) -> (r: Result<Option<i32>, Ineligible>)
        ensures
            match r {
                Ok(Some(v)) => special_cell_of(*self, *s, attr@) == Ok::<Option<int>, Seq<char>>(
                    Some(v as int),
                ),
                Ok(None) => special_cell_of(*self, *s, attr@) == Ok::<Option<int>, Seq<char>>(None),
                Err(e) => special_cell_of(*self, *s, attr@) == Err::<Option<int>, Seq<char>>(
                    e.reason@,
                ),
            },
    {
        let key = s.purpose.grid_key();
        let ltv = s.ltv.0;
        let gi = match find_key(&self.special_attribute_grids, key) {
            None => return Ok(None),
            Some(k) => k,
        };
        let grid = &self.special_attribute_grids[gi].1;
        let ai = match find_key(&grid.attributes, attr) {
            None => return Ok(None),
            Some(k) => k,
        };
        let vals = &grid.attributes[ai].1;
        let col = match self.ltv_col(&grid.ltv_order, ltv) {
            None => {
                let mut m = String::new();
                m.append("no LTV bucket for ");
                push_pct(&mut m, ltv as u64);
                m.append("% (attr ");
                m.append(attr);
                m.append(")");
                return Err(Ineligible { reason: m });
            },
            Some(c) => c,
        };
        if col < vals.len() {
            match vals[col] {
                Some(v) => {
                    return Ok(Some(v));
                },
                None => {},
            }
        }
        let mut m = String::new();
        m.append("attribute '");
        m.append(attr);
        m.append("' is Not Eligible at LTV ");
        push_pct(&mut m, ltv as u64);
        m.append("%");
        Err(Ineligible { reason: m })
    }
}

impl LenderOverlayFile {
    /// Rejects the scenario if a tighten-only rule disallows its LTV.
    pub fn check_eligibility(&self, s: &LlpaScenario) -> (r: Result<(), Ineligible>)
        ensures
            match r {
                Ok(_) => overlay_rejection(*self, *s) is None,
                Err(e) => overlay_rejection(*self, *s) == Some(e.reason@),
            },
    {
        let ghost pred = |r: MaxLtvRule| rule_rejects(r, *s);
        let ltv = s.ltv.0;
        let mut i: usize = 0;
        while i < self.max_ltv_rules.len()
            invariant
                0 <= i <= self.max_ltv_rules@.len(),
                pred == (|r: MaxLtvRule| rule_rejects(r, *s)),
                ltv == s.ltv.0,
                forall|j: int| 0 <= j < i ==> !pred(#[trigger] self.max_ltv_rules@[j]),
            decreases self.max_ltv_rules@.len() - i,
        {
            let r = &self.max_ltv_rules[i];
            let a = r.attribute.as_str();
            let hit = if str_eq(a, "cash_out_refi") {
                s.purpose == LlpaPurpose::CashOutRefi
            } else if str_eq(a, "investment_property") {
                s.occupancy == LlpaOccupancy::Investment
            } else if str_eq(a, "second_home") {
                s.occupancy == LlpaOccupancy::SecondHome
            } else if str_eq(a, "high_balance_cash_out") {
                s.is_high_balance && s.purpose == LlpaPurpose::CashOutRefi
            } else {
                false
            };
            if hit && ltv > r.max_ltv_bps {
                proof {
                    crate::search::lemma_first_where_hit(self.max_ltv_rules@, pred, i as int);
                }
                let mut m = String::new();
                m.append(a);
                m.append(" LTV ");
                push_pct(&mut m, ltv as u64);
                m.append("% exceeds lender max ");
                push_pct(&mut m, r.max_ltv_bps as u64);
                m.append("%");
                return Err(Ineligible { reason: m });
            }
            i = i + 1;
        }
        proof {
            crate::search::lemma_first_where_none(self.max_ltv_rules@, pred);
        }
        Ok(())
    }

    /// Index of the first band with a non-zero adjustment whose window
    /// contains the amount.
    fn first_band(&self, amount: i64) -> (r: Option<usize>)
        ensures
            match r {
                Some(k) => k < self.loan_amount_bands@.len() && first_where(
                    self.loan_amount_bands@,
                    |b: LoanAmountBand| band_contains(b, amount) && b.bps != 0,
                ) == Some(self.loan_amount_bands@[k as int]),
                None => first_where(
                    self.loan_amount_bands@,
                    |b: LoanAmountBand| band_contains(b, amount) && b.bps != 0,
                ) is None,
            },
    {
        let ghost pred = |b: LoanAmountBand| band_contains(b, amount) && b.bps != 0;
        let mut i: usize = 0;
        while i < self.loan_amount_bands.len()
            invariant
                0 <= i <= self.loan_amount_bands@.len(),
                pred == (|b: LoanAmountBand| band_contains(b, amount) && b.bps != 0),
                forall|j: int| 0 <= j < i ==> !pred(#[trigger] self.loan_amount_bands@[j]),
            decreases self.loan_amount_bands@.len() - i,
        {
            let band = &self.loan_amount_bands[i];
            if band.contains(amount) && band.bps != 0 {
                proof {
                    crate::search::lemma_first_where_hit(self.loan_amount_bands@, pred, i as int);
                }
                return Some(i);
            }
            i = i + 1;
        }
        proof {
            crate::search::lemma_first_where_none(self.loan_amount_bands@, pred);
        }
        None
    }

    /// The lender adjustments for the scenario, in order.
    fn adjustments(&self, s: &LlpaScenario, out: &mut Vec<PriceAdjustment>)
        ensures
            adjs_view(final(out)@) == adjs_view(old(out)@) + lender_adjs(*self, *s),
    {
        let ghost start = adjs_view(out@);
        if s.purpose == LlpaPurpose::NoCashOutRefi {
            match self.refi_incentive_bps {
                Some(b) => {
                    push_adj(out, adj("LenderIncentive", "refi incentive".to_owned(), b));
                },
                None => {},
            }
        }
        let ghost after_refi = adjs_view(out@);
        assert(after_refi == start + (if s.purpose == LlpaPurpose::NoCashOutRefi
            && self.refi_incentive_bps is Some {
            seq![("LenderIncentive"@, "refi incentive"@, self.refi_incentive_bps->0 as int)]
        } else {
            Seq::<AdjView>::empty()
        }));
        let ghost pred = |b: LoanAmountBand| band_contains(b, s.loan_amount.0) && b.bps != 0;
        match self.first_band(s.loan_amount.0) {
            Some(k) => {
                let b = self.loan_amount_bands[k].bps;
                push_adj(out, adj("LenderOverride", "loan-amount band credit".to_owned(), b));
            },
            None => {},
        }
        let ghost after_band = adjs_view(out@);
        assert(after_band == after_refi + (match first_where(self.loan_amount_bands@, pred) {
            Some(b) => seq![("LenderOverride"@, "loan-amount band credit"@, b.bps as int)],
            None => Seq::<AdjView>::empty(),
        }));
        if !s.is_arm {
            match find_key(&self.state_adjustments_bps, s.state.as_str()) {
                Some(k) => {
                    let b = self.state_adjustments_bps[k].1;
                    if b != 0 {
                        let mut desc = String::new();
                        desc.append("state adjuster ");
                        desc.append(s.state.as_str());
                        push_adj(out, adj("LenderOverride", desc, b));
                    }
                },
                None => {},
            }
        }
        assert(adjs_view(out@) =~= start + lender_adjs(*self, *s));
    }
}

/// The GSE adjustments for the scenario: the base-grid cell, then the
/// non-zero special attributes; or why a grid rejects it.
fn gse_adjustments(f: &LlpaDatasetFile, s: &LlpaScenario) -> (r: Result<Vec<PriceAdjustment>, Ineligible>)
    ensures
        match r {
            Err(e) => gse_error(*f, *s) == Some(e.reason@),
            Ok(v) => gse_error(*f, *s) is None && adjs_view(v@) == gse_adjs(*f, *s),
        },
{
    let mut adjustments: Vec<PriceAdjustment> = Vec::new();
    // 1. GSE base grid.
    let base = match f.base_cell(s) {
        Err(e) => return Err(e),
        Ok(b) => b,
    };
    let mut desc = String::new();
    desc.append(f.agency.name());
    desc.append(" base grid: score ");
    push_dec_u64(&mut desc, s.indicator_score.0 as u64);
    desc.append(", LTV ");
    push_pct2(&mut desc, s.ltv.0 as u64);
    desc.append("%");
    push_adj(&mut adjustments, adj("BaseGrid", desc, base));
    let ghost base_view = adjs_view(adjustments@);

    // 2. GSE special attributes (additive).
    let attrs = LlpaDatasetFile::applicable_attributes(s);
    let ghost attr_views = attrs@.map_values(|a: &'static str| a@);
    let mut i: usize = 0;
    while i < attrs.len()
        invariant
            0 <= i <= attrs@.len(),
            attr_views == attrs@.map_values(|a: &'static str| a@),
            attr_views == attributes_of(*s),
            base_cell_of(*f, *s) == Ok::<int, Seq<char>>(base as int),
            special_adjs(*f, *s, attr_views.take(i as int)) is Ok,
            adjs_view(adjustments@) == base_view + special_adjs(
                *f,
                *s,
                attr_views.take(i as int),
            )->Ok_0,
        decreases attrs@.len() - i,
    {
        let attr = attrs[i];
        proof {
            assert(attr_views.take(i + 1).drop_last() =~= attr_views.take(i as int));
            assert(attr_views.take(i + 1).last() == attr@);
        }
        match f.special_cell(s, attr) {
            Err(e) => {
                proof {
                    lemma_special_error_persists(*f, *s, attr_views, i as int + 1);
                    assert(attr_views.take(attr_views.len() as int) =~= attr_views);
                }
                return Err(e);
            },
            Ok(None) => {},
            Ok(Some(bps)) => {
                if bps != 0 {
                    push_adj(&mut adjustments, adj("SpecialAttribute", attr.to_owned(), bps));
                }
            },
        }
        i = i + 1;
    }
    proof {
        assert(attr_views.take(i as int) =~= attr_views);
        lemma_base_ok(*f, *s, base as int);
    }
    assert(adjs_view(adjustments@) == gse_adjs(*f, *s));
    Ok(adjustments)
}

/// Records the pricing trail: the GSE step, the overlay step (when an
/// overlay was applied), the cap step (when capped), then the net total.
fn record_steps(
    d: &mut Derived<LlpaPricing>,
    agency: GseAgency,
    ofile: Option<&str>,
    scenario: &LlpaScenario,
    capped: bool,
    gse_subtotal_bps: i32,
    lender_subtotal_bps: i32,
    total_bps: i32,
    cost: Cents,
)
    ensures
        final(d).value == old(d).value,
        final(d).provenance == old(d).provenance,
        rule_names(final(d).steps@) == rule_names(old(d).steps@) + seq!["gse_base_and_attributes"@]
            + listed_if(ofile is Some, "lender_overlay"@) + listed_if(capped, "affordable_cap"@)
            + seq!["net_total"@],
        step_texts(final(d).steps@) == step_texts(old(d).steps@) + pricing_steps(
            agency,
            *scenario,
            match ofile { Some(f) => Some(f@), None => None },
            capped,
            gse_subtotal_bps as int,
            lender_subtotal_bps as int,
            total_bps as int,
            cost.0 as int,
        ),
{
    let ghost start = rule_names(d.steps@);
    let ghost tstart = step_texts(d.steps@);
    let mut g_in = String::new();
    g_in.append(agency.name());
    g_in.append(" ");
    g_in.append(scenario.purpose.grid_key());
    g_in.append(" score=");
    push_dec_u64(&mut g_in, scenario.indicator_score.0 as u64);
    g_in.append(" ltv=");
    push_pct2(&mut g_in, scenario.ltv.0 as u64);
    g_in.append("%");
    let mut g_out = String::new();
    g_out.append("GSE subtotal ");
    crate::text::push_dec_i64(&mut g_out, gse_subtotal_bps as i64);
    g_out.append(" bps");
    d.push_step("gse_base_and_attributes", g_in, g_out);
    match ofile {
        Some(ofile) => {
            let mut o_in = String::new();
            o_in.append("overlay file ");
            o_in.append(ofile);
            let mut o_out = String::new();
            o_out.append("lender subtotal ");
            crate::text::push_dec_i64(&mut o_out, lender_subtotal_bps as i64);
            o_out.append(" bps");
            d.push_step("lender_overlay", o_in, o_out);
        },
        None => {},
    }
    if capped {
        d.push_step(
            "affordable_cap",
            "home_ready_or_possible / FTHB / duty-to-serve".to_owned(),
            "positive fees collapsed to cap; credits preserved".to_owned(),
        );
    }
    let mut n_in = String::new();
    n_in.append("gse ");
    crate::text::push_dec_i64(&mut n_in, gse_subtotal_bps as i64);
    n_in.append(" + lender ");
    crate::text::push_dec_i64(&mut n_in, lender_subtotal_bps as i64);
    let mut n_out = String::new();
    n_out.append("total ");
    crate::text::push_dec_i64(&mut n_out, total_bps as i64);
    n_out.append(" bps = ");
    crate::text::push_cents(&mut n_out, cost.0);
    n_out.append(" on ");
    crate::text::push_cents(&mut n_out, scenario.loan_amount.0);
    d.push_step("net_total", n_in, n_out);
    assert(rule_names(d.steps@) =~= start + seq!["gse_base_and_attributes"@] + listed_if(
        ofile is Some,
        "lender_overlay"@,
    ) + listed_if(capped, "affordable_cap"@) + seq!["net_total"@]);
    assert(step_texts(d.steps@) =~= tstart + pricing_steps(
        agency,
        *scenario,
        match ofile { Some(f) => Some(f@), None => None },
        capped,
        gse_subtotal_bps as int,
        lender_subtotal_bps as int,
        total_bps as int,
        cost.0 as int,
    ));
}

/// Prices `scenario` against the GSE dataset and an optional lender overlay
/// (with its file name): tighten-only eligibility first, then the base grid
/// cell and the non-zero special attributes, then the lender's incentives
/// and overrides, then the affordable cap (positive fees collapse to the
/// cap, credits are kept), then the overlay's max-net floor.
#[verifier::rlimit(60)]
pub fn price(
    gse: &LlpaDatasetFile,
    gse_file: &str,
    overlay: Option<(&str, &LenderOverlayFile)>,
    scenario: &LlpaScenario,
    req: u16,
    res: u16,
) -> (r: Result<Derived<LlpaPricing>, Ineligible>)
    requires
        llpa_keys_distinct(*gse),
        overlay matches Some(p) ==> overlay_keys_distinct(*p.1),
        llpa_in_range(*gse, match overlay { Some(p) => Some(*p.1), None => None }, *scenario),
    ensures
        ({
            let o = match overlay { Some(p) => Some(*p.1), None => None };
            match r {
                Err(e) => price_error(*gse, o, *scenario) == Some(e.reason@),
                Ok(d) => {
                    &&& price_error(*gse, o, *scenario) is None
                    &&& d.value.agency == gse.agency
                    &&& adjs_view(d.value.adjustments@) == all_adjs(*gse, o, *scenario)
                    &&& d.value.gse_subtotal_bps == sum_bps(gse_adjs(*gse, *scenario))
                    &&& d.value.lender_subtotal_bps == sum_bps(lender_part(o, *scenario))
                    &&& d.value.capped == affordable_capped_spec(*scenario)
                    &&& d.value.total_bps == total_of(*gse, o, *scenario)
                    &&& llpa_prov(*gse, *scenario, d.provenance, gse_file@, req, res)
                    &&& rule_names(d.steps@) == llpa_rules(o, *scenario)
                    &&& step_texts(d.steps@) == pricing_steps(
                        gse.agency,
                        *scenario,
                        match overlay { Some(p) => Some(p.0@), None => None },
                        affordable_capped_spec(*scenario),
                        sum_bps(gse_adjs(*gse, *scenario)),
                        sum_bps(lender_part(o, *scenario)),
                        total_of(*gse, o, *scenario),
                        trunc_div(scenario.loan_amount.0 * total_of(*gse, o, *scenario), 10_000) as i64 as int,
                    )
                },
            }
        }),
{
    let ghost o = match overlay { Some(p) => Some(*p.1), None => None };
    // Tighten-only eligibility first.
    match overlay {
        Some((_, ov)) => {
            match ov.check_eligibility(scenario) {
                Err(e) => return Err(e),
                Ok(_) => {},
            }
        },
        None => {},
    }
    let mut adjustments = match gse_adjustments(gse, scenario) {
        Err(e) => return Err(e),
        Ok(v) => v,
    };
    proof {
        lemma_special_len(*gse, *scenario, attributes_of(*scenario));
        assert(price_error(*gse, o, *scenario) is None);
        lemma_views_bounded(adjustments@);
        lemma_sum_bounds(adjs_view(adjustments@));
    }
    let gse_subtotal: i64 = sum_adjustments(&adjustments);
    let gse_subtotal_bps: i32 = gse_subtotal as i32;

    // 3 + 4. Lender overrides + incentives.
    let ghost before_lender = adjs_view(adjustments@);
    match overlay {
        Some((_, ov)) => {
            ov.adjustments(scenario, &mut adjustments);
        },
        None => {},
    }
    assert(adjs_view(adjustments@) =~= before_lender + lender_part(o, *scenario));
    proof {
        lemma_views_bounded(adjustments@);
        lemma_sum_bounds(adjs_view(adjustments@));
        lemma_sum_split(before_lender, lender_part(o, *scenario));
        lemma_views_bounded_part(adjustments@, before_lender.len() as int);
        lemma_sum_bounds(lender_part(o, *scenario));
    }
    let total_sum: i64 = sum_adjustments(&adjustments);
    let lender_subtotal: i64 = total_sum - gse_subtotal;
    let lender_subtotal_bps: i32 = lender_subtotal as i32;

    // 5. Affordable/mission cap: collapse positive fees, keep credits.
    let capped = affordable_capped(scenario);
    let mut priced: i64 = gse_subtotal + lender_subtotal;
    if capped {
        let cap: i32 = match overlay {
            Some((_, ov)) => match ov.affordable_cap_bps {
                Some(c) => c,
                None => 0,
            },
            None => 0,
        };
        let credits: i64 = sum_negative(&adjustments);
        priced = cap as i64 + credits;
        push_adj(
            &mut adjustments,
            adj("AffordableCap", "affordable/mission program cap applied".to_owned(), cap),
        );
    }
    assert(adjs_view(adjustments@) =~= all_adjs(*gse, o, *scenario));
    assert(priced == priced_of(*gse, o, *scenario));

    // 6. Max-net-price floor.
    let priced32: i32 = priced as i32;
    let total_bps: i32 = match overlay {
        Some((_, ov)) => {
            let floor = if scenario.is_high_balance {
                ov.high_balance_max_net_pricing_bps
            } else {
                ov.max_net_pricing_bps
            };
            if priced32 > floor { priced32 } else { floor }
        },
        None => priced32,
    };
    let pricing = LlpaPricing {
        agency: gse.agency,
        adjustments,
        gse_subtotal_bps,
        lender_subtotal_bps,
        capped,
        total_bps,
    };
    let prov = gse.provenance(gse_file, scenario, req, res);
    let cost = pricing.cost_for(scenario.loan_amount);
    let mut d = Derived::new(pricing, prov);
    let ofile = match overlay {
        Some((f, _)) => Some(f),
        None => None,
    };
    record_steps(&mut d, gse.agency, ofile, scenario, capped, gse_subtotal_bps, lender_subtotal_bps, total_bps, cost);
    assert(rule_names(d.steps@) =~= llpa_rules(o, *scenario));
    Ok(d)
}

/// Views of adjustments carry 32-bit amounts.
proof fn lemma_views_bounded(v: Seq<PriceAdjustment>)
    ensures
        forall|i: int| 0 <= i < adjs_view(v).len() ==> i32::MIN <= #[trigger] adjs_view(v)[i].2 <= i32::MAX,
{
}

/// The tail of a list of views from position `k` carries 32-bit amounts.
proof fn lemma_views_bounded_part(v: Seq<PriceAdjustment>, k: int)
    requires
        0 <= k <= v.len(),
    ensures
        forall|i: int| 0 <= i < adjs_view(v).skip(k).len() ==> i32::MIN <= #[trigger] adjs_view(v).skip(k)[i].2 <= i32::MAX,
{
}

/// Sums distribute over concatenation.
proof fn lemma_sum_split(a: Seq<AdjView>, b: Seq<AdjView>)
    ensures
        sum_bps(a + b) == sum_bps(a) + sum_bps(b),
        sum_credits(a + b) == sum_credits(a) + sum_credits(b),
    decreases b.len(),
{
    if b.len() == 0 {
        assert(a + b =~= a);
    } else {
        assert((a + b).drop_last() =~= a + b.drop_last());
        lemma_sum_split(a, b.drop_last());
    }
}

/// Once a special attribute is ineligible, every longer attribute list is.
proof fn lemma_special_error_persists(f: LlpaDatasetFile, s: LlpaScenario, attrs: Seq<Seq<char>>, k: int)
    requires
        0 < k <= attrs.len(),
        special_adjs(f, s, attrs.take(k - 1)) is Ok,
        special_cell_of(f, s, attrs[k - 1]) is Err,
    ensures
        special_adjs(f, s, attrs) == Err::<Seq<AdjView>, Seq<char>>(special_cell_of(f, s, attrs[k - 1])->Err_0),
    decreases attrs.len() - k,
{
    if k == attrs.len() {
        assert(attrs.take(k) =~= attrs);
        assert(attrs.drop_last() =~= attrs.take(k - 1));
    } else {
        assert(attrs.drop_last().take(k - 1) =~= attrs.take(k - 1));
        assert(attrs.drop_last()[k - 1] == attrs[k - 1]);
        lemma_special_error_persists(f, s, attrs.drop_last(), k);
    }
}

/// Each attribute contributes at most one special adjustment.
proof fn lemma_special_len(f: LlpaDatasetFile, s: LlpaScenario, attrs: Seq<Seq<char>>)
    requires
        special_adjs(f, s, attrs) is Ok,
    ensures
        special_adjs(f, s, attrs)->Ok_0.len() <= attrs.len(),
    decreases attrs.len(),
{
    if attrs.len() > 0 {
        lemma_special_len(f, s, attrs.drop_last());
    }
}

/// The base cell computed is the one in the GSE adjustments.
proof fn lemma_base_ok(f: LlpaDatasetFile, s: LlpaScenario, b: int)
    requires
        base_cell_of(f, s) == Ok::<int, Seq<char>>(b),
    ensures
        base_cell_of(f, s)->Ok_0 == b,
{
}

/// Sum of the basis points of a list of adjustments.
fn sum_adjustments(v: &Vec<PriceAdjustment>) -> (t: i64)
    requires
        -0x8000_0000 * v@.len() <= sum_bps(adjs_view(v@)) <= 0x8000_0000 * v@.len(),
        v@.len() < 0x1000_0000,
    ensures
        t == sum_bps(adjs_view(v@)),
{
    let mut t: i64 = 0;
    let mut i: usize = 0;
    while i < v.len()
        invariant
            0 <= i <= v@.len(),
            v@.len() < 0x1000_0000,
            t == sum_bps(adjs_view(v@).take(i as int)),
            -0x8000_0000 * i <= t <= 0x8000_0000 * i,
        decreases v@.len() - i,
    {
        proof {
            assert(adjs_view(v@).take(i + 1).drop_last() =~= adjs_view(v@).take(i as int));
        }
        t = t + v[i].bps as i64;
        i = i + 1;
    }
    assert(adjs_view(v@).take(i as int) =~= adjs_view(v@));
    t
}

/// Sum of the negative (credit) basis points of a list of adjustments.
fn sum_negative(v: &Vec<PriceAdjustment>) -> (t: i64)
    requires
        v@.len() < 0x1000_0000,
    ensures
        t == sum_credits(adjs_view(v@)),
{
    let mut t: i64 = 0;
    let mut i: usize = 0;
    while i < v.len()
        invariant
            0 <= i <= v@.len(),
            v@.len() < 0x1000_0000,
            t == sum_credits(adjs_view(v@).take(i as int)),
            -0x8000_0000 * i <= t <= 0,
        decreases v@.len() - i,
    {
        proof {
            assert(adjs_view(v@).take(i + 1).drop_last() =~= adjs_view(v@).take(i as int));
        }
        if v[i].bps < 0 {
            t = t + v[i].bps as i64;
        }
        i = i + 1;
    }
    assert(adjs_view(v@).take(i as int) =~= adjs_view(v@));
    t
}

/// A net price in true basis points at the engine's 0.001% precision (one
/// true bp is ten units); `None` for a negative (credit) price.
pub fn price_bps_to_basis_points(price_bps: i32) -> (r: Option<BasisPoints>)
    requires
        price_bps < 0 || price_bps * 10 <= i32::MAX,
    ensures
        r is None <==> price_bps < 0,
        r matches Some(b) ==> b.0 == price_bps * 10,
{
    if price_bps < 0 {
        return None;
    }
    Some(BasisPoints((price_bps * 10) as u32))
}

/// Overlay eligibility only tightens: a scenario the GSE grids reject stays
/// rejected whatever overlay is applied, and one an overlay accepts is one
/// the grids alone accept.
pub proof fn lemma_overlay_never_loosens(f: LlpaDatasetFile, o: LenderOverlayFile, s: LlpaScenario)
    ensures
        price_error(f, None, s) is Some ==> price_error(f, Some(o), s) is Some,
        price_error(f, Some(o), s) is None ==> price_error(f, None, s) is None,
{
}

/// With an overlay, the net total never goes below the overlay's max-net
/// floor (the high-balance floor for high-balance loans), and it is the
/// priced amount whenever that is above the floor.
pub proof fn lemma_total_respects_floor(f: LlpaDatasetFile, o: LenderOverlayFile, s: LlpaScenario)
    ensures
        total_of(f, Some(o), s) >= if s.is_high_balance {
            o.high_balance_max_net_pricing_bps
        } else {
            o.max_net_pricing_bps
        },
        total_of(f, Some(o), s) >= priced_of(f, Some(o), s),
        total_of(f, None, s) == priced_of(f, None, s),
{
}

/// The credits of a list of adjustments are never positive.
pub proof fn lemma_credits_nonpositive(v: Seq<AdjView>)
    ensures
        sum_credits(v) <= 0,
    decreases v.len(),
{
    if v.len() > 0 {
        lemma_credits_nonpositive(v.drop_last());
    }
}

/// Under the affordable cap the priced amount is never above the cap: the
/// positive fees collapse to the cap and only credits are kept.
pub proof fn lemma_cap_bounds_price(f: LlpaDatasetFile, o: Option<LenderOverlayFile>, s: LlpaScenario)
    requires
        affordable_capped_spec(s),
    ensures
        priced_of(f, o, s) <= cap_of(o),
{
    lemma_credits_nonpositive(gse_adjs(f, s) + lender_part(o, s));
}

/// The sum of the basis points of the lines whose type satisfies `keep`.
pub open spec fn sum_where(v: Seq<AdjView>, keep: spec_fn(Seq<char>) -> bool) -> int
    decreases v.len(),
{
    if v.len() == 0 {
        0
    } else {
        sum_where(v.drop_last(), keep) + if keep(v.last().0) { v.last().2 } else { 0 }
    }
}

/// The GSE line types.
pub open spec fn is_gse_type(t: Seq<char>) -> bool {
    t == "BaseGrid"@ || t == "SpecialAttribute"@
}

/// The lender line types.
pub open spec fn is_lender_type(t: Seq<char>) -> bool {
    t == "LenderIncentive"@ || t == "LenderOverride"@
}

/// Summing over a concatenation sums each part.
proof fn lemma_sum_where_append(a: Seq<AdjView>, b: Seq<AdjView>, keep: spec_fn(Seq<char>) -> bool)
    ensures
        sum_where(a + b, keep) == sum_where(a, keep) + sum_where(b, keep),
    decreases b.len(),
{
    if b.len() == 0 {
        assert(a + b =~= a);
    } else {
        assert((a + b).drop_last() =~= a + b.drop_last());
        lemma_sum_where_append(a, b.drop_last(), keep);
    }
}

/// When every line's type is kept, the filtered sum is the whole sum; when
/// none is, it is zero.
proof fn lemma_sum_where_all(v: Seq<AdjView>, keep: spec_fn(Seq<char>) -> bool, all: bool)
    requires
        forall|k: int| 0 <= k < v.len() ==> keep(#[trigger] v[k].0) == all,
    ensures
        sum_where(v, keep) == if all { sum_bps(v) } else { 0 },
    decreases v.len(),
{
    if v.len() > 0 {
        assert(keep(v[v.len() - 1].0) == all);
        lemma_sum_where_all(v.drop_last(), keep, all);
    }
}

/// The special-attribute lines are typed as such and never zero.
proof fn lemma_special_lines(f: LlpaDatasetFile, s: LlpaScenario, attrs: Seq<Seq<char>>)
    requires
        special_adjs(f, s, attrs) is Ok,
    ensures
        forall|k: int|
            0 <= k < special_adjs(f, s, attrs)->Ok_0.len() ==> (#[trigger] special_adjs(f, s, attrs)->Ok_0[k]).0
                == "SpecialAttribute"@ && special_adjs(f, s, attrs)->Ok_0[k].2 != 0,
    decreases attrs.len(),
{
    if attrs.len() > 0 {
        lemma_special_lines(f, s, attrs.drop_last());
    }
}

/// The lender lines are typed as lender lines, and the override lines are
/// never zero.
proof fn lemma_lender_lines(o: LenderOverlayFile, s: LlpaScenario)
    ensures
        forall|k: int|
            0 <= k < lender_adjs(o, s).len() ==> is_lender_type(#[trigger] lender_adjs(o, s)[k].0) && (
            lender_adjs(o, s)[k].0 == "LenderOverride"@ ==> lender_adjs(o, s)[k].2 != 0),
{
    reveal_strlit("LenderIncentive");
    reveal_strlit("LenderOverride");
    assert("LenderIncentive"@.len() == 15 && "LenderOverride"@.len() == 14);
    let pb = |b: LoanAmountBand| band_contains(b, s.loan_amount.0) && b.bps != 0;
    let x: Seq<AdjView> = if s.purpose == LlpaPurpose::NoCashOutRefi && o.refi_incentive_bps is Some {
        seq![("LenderIncentive"@, "refi incentive"@, o.refi_incentive_bps->0 as int)]
    } else {
        Seq::empty()
    };
    let y: Seq<AdjView> = match first_where(o.loan_amount_bands@, pb) {
        Some(b) => seq![("LenderOverride"@, "loan-amount band credit"@, b.bps as int)],
        None => Seq::empty(),
    };
    let z: Seq<AdjView> = match state_adj(o, s) {
        Some(b) => seq![("LenderOverride"@, "state adjuster "@ + s.state@, b)],
        None => Seq::empty(),
    };
    assert(lender_adjs(o, s) == x + y + z);
    if first_where(o.loan_amount_bands@, pb) is Some {
        lemma_first_where_found(o.loan_amount_bands@, pb);
    }
    let v = x + y + z;
    assert forall|k: int| 0 <= k < v.len() implies is_lender_type(#[trigger] v[k].0) && (v[k].0 == "LenderOverride"@
        ==> v[k].2 != 0) by {
        if k < x.len() {
            assert(v[k] == x[k]);
        } else if k < x.len() + y.len() {
            assert(v[k] == y[k - x.len()]);
        } else {
            assert(v[k] == z[k - x.len() - y.len()]);
        }
    }
}

/// The shape of a successful pricing's lines and total: the base-grid line
/// comes first; the affordable-cap line, when the cap applies, comes last;
/// special-attribute and lender-override lines are never zero; the GSE
/// subtotal is the sum of the GSE-typed lines and the lender subtotal that
/// of the lender-typed lines; before the floor the total is the two
/// subtotals, or the cap plus every credit when capped; with an overlay
/// the total is that raised to the overlay's floor, without one it is that.
pub proof fn lemma_price_shape(f: LlpaDatasetFile, o: Option<LenderOverlayFile>, s: LlpaScenario)
    requires
        price_error(f, o, s) is None,
    ensures
        all_adjs(f, o, s).len() >= 1,
        all_adjs(f, o, s)[0].0 == "BaseGrid"@,
        affordable_capped_spec(s) ==> all_adjs(f, o, s).last() == (
            "AffordableCap"@,
            "affordable/mission program cap applied"@,
            cap_of(o),
        ),
        forall|k: int|
            0 <= k < all_adjs(f, o, s).len() && (all_adjs(f, o, s)[k].0 == "SpecialAttribute"@ || all_adjs(
                f,
                o,
                s,
            )[k].0 == "LenderOverride"@) ==> #[trigger] all_adjs(f, o, s)[k].2 != 0,
        sum_where(all_adjs(f, o, s), |t: Seq<char>| is_gse_type(t)) == sum_bps(gse_adjs(f, s)),
        sum_where(all_adjs(f, o, s), |t: Seq<char>| is_lender_type(t)) == sum_bps(lender_part(o, s)),
        priced_of(f, o, s) == if affordable_capped_spec(s) {
            cap_of(o) + sum_credits(gse_adjs(f, s) + lender_part(o, s))
        } else {
            sum_bps(gse_adjs(f, s)) + sum_bps(lender_part(o, s))
        },
        total_of(f, o, s) == match o {
            Some(ov) => {
                let floor = if s.is_high_balance {
                    ov.high_balance_max_net_pricing_bps as int
                } else {
                    ov.max_net_pricing_bps as int
                };
                if priced_of(f, o, s) > floor { priced_of(f, o, s) } else { floor }
            },
            None => priced_of(f, o, s),
        },
{
    reveal_strlit("BaseGrid");
    reveal_strlit("SpecialAttribute");
    reveal_strlit("LenderIncentive");
    reveal_strlit("LenderOverride");
    reveal_strlit("AffordableCap");
    assert("BaseGrid"@.len() == 8 && "SpecialAttribute"@.len() == 16 && "LenderIncentive"@.len() == 15
        && "LenderOverride"@.len() == 14 && "AffordableCap"@.len() == 13);
    let g = gse_adjs(f, s);
    let l = lender_part(o, s);
    let c = listed_if(
        affordable_capped_spec(s),
        ("AffordableCap"@, "affordable/mission program cap applied"@, cap_of(o)),
    );
    let sp = special_adjs(f, s, attributes_of(s))->Ok_0;
    lemma_special_lines(f, s, attributes_of(s));
    match o {
        Some(ov) => lemma_lender_lines(ov, s),
        None => {},
    }
    assert forall|k: int| 0 <= k < g.len() implies is_gse_type(#[trigger] g[k].0) && (g[k].0
        == "SpecialAttribute"@ ==> g[k].2 != 0) && !is_lender_type(g[k].0) by {
        if k > 0 {
            assert(g[k] == sp[k - 1]);
            assert(sp[k - 1].0 == "SpecialAttribute"@);
        } else {
            assert(g[0].0 == "BaseGrid"@);
        }
    }
    assert forall|k: int| 0 <= k < l.len() implies is_lender_type(#[trigger] l[k].0) && (l[k].0
        == "LenderOverride"@ ==> l[k].2 != 0) && !is_gse_type(l[k].0) by {
        match o {
            Some(ov) => {
                assert(l[k] == lender_adjs(ov, s)[k]);
                assert(is_lender_type(lender_adjs(ov, s)[k].0));
            },
            None => {},
        }
    }
    let gse_keep = |t: Seq<char>| is_gse_type(t);
    let lender_keep = |t: Seq<char>| is_lender_type(t);
    assert forall|k: int| 0 <= k < g.len() implies gse_keep(#[trigger] g[k].0) == true by {}
    assert forall|k: int| 0 <= k < g.len() implies lender_keep(#[trigger] g[k].0) == false by {}
    assert forall|k: int| 0 <= k < l.len() implies gse_keep(#[trigger] l[k].0) == false by {}
    assert forall|k: int| 0 <= k < l.len() implies lender_keep(#[trigger] l[k].0) == true by {}
    assert forall|k: int| 0 <= k < c.len() implies gse_keep(#[trigger] c[k].0) == false by {}
    assert forall|k: int| 0 <= k < c.len() implies lender_keep(#[trigger] c[k].0) == false by {}
    lemma_sum_where_all(g, gse_keep, true);
    lemma_sum_where_all(l, gse_keep, false);
    lemma_sum_where_all(c, gse_keep, false);
    lemma_sum_where_all(g, lender_keep, false);
    lemma_sum_where_all(l, lender_keep, true);
    lemma_sum_where_all(c, lender_keep, false);
    lemma_sum_where_append(g, l, gse_keep);
    lemma_sum_where_append(g + l, c, gse_keep);
    lemma_sum_where_append(g, l, lender_keep);
    lemma_sum_where_append(g + l, c, lender_keep);
    let a = all_adjs(f, o, s);
    assert(a == g + l + c);
    assert forall|k: int|
        0 <= k < a.len() && (a[k].0 == "SpecialAttribute"@ || a[k].0 == "LenderOverride"@) implies #[trigger] a[k].2
        != 0 by {
        if k < g.len() {
            assert(a[k] == g[k]);
        } else if k < g.len() + l.len() {
            assert(a[k] == l[k - g.len()]);
        } else {
            assert(a[k] == c[k - g.len() - l.len()]);
        }
    }
    assert(a[0] == g[0]);
    if affordable_capped_spec(s) {
        assert(a.last() == c[0]);
    }
}

/// A lender overlay's rejection is checked before any GSE grid: when the
/// overlay rejects the scenario, its reason is the pricing error whatever
/// the GSE dataset holds.
pub proof fn lemma_overlay_rejection_first(f: LlpaDatasetFile, o: LenderOverlayFile, s: LlpaScenario)
    requires
        overlay_rejection(o, s) is Some,
    ensures
        price_error(f, Some(o), s) == overlay_rejection(o, s),
{
}

/// A line is the loan-amount band credit.
pub open spec fn is_band_credit(a: AdjView) -> bool {
    a.0 == "LenderOverride"@ && a.1 == "loan-amount band credit"@
}

/// A successful pricing carries at most one loan-amount band credit line.
pub proof fn lemma_one_band_credit(f: LlpaDatasetFile, o: Option<LenderOverlayFile>, s: LlpaScenario)
    requires
        price_error(f, o, s) is None,
    ensures
        forall|j: int, k: int|
            0 <= j < k < all_adjs(f, o, s).len() ==> !(is_band_credit(#[trigger] all_adjs(f, o, s)[j])
                && is_band_credit(#[trigger] all_adjs(f, o, s)[k])),
{
    reveal_strlit("BaseGrid");
    reveal_strlit("SpecialAttribute");
    reveal_strlit("LenderIncentive");
    reveal_strlit("LenderOverride");
    reveal_strlit("AffordableCap");
    reveal_strlit("loan-amount band credit");
    reveal_strlit("state adjuster ");
    assert("BaseGrid"@.len() == 8 && "SpecialAttribute"@.len() == 16 && "LenderIncentive"@.len() == 15
        && "LenderOverride"@.len() == 14 && "AffordableCap"@.len() == 13);
    assert("loan-amount band credit"@[0] == 'l' && ("state adjuster "@ + s.state@)[0] == 's');
    let g = gse_adjs(f, s);
    let l = lender_part(o, s);
    let c = listed_if(
        affordable_capped_spec(s),
        ("AffordableCap"@, "affordable/mission program cap applied"@, cap_of(o)),
    );
    let sp = special_adjs(f, s, attributes_of(s))->Ok_0;
    lemma_special_lines(f, s, attributes_of(s));
    assert forall|k: int| 0 <= k < g.len() implies !is_band_credit(#[trigger] g[k]) by {
        if k > 0 {
            assert(g[k] == sp[k - 1]);
        }
    }
    let a = all_adjs(f, o, s);
    assert(a == g + l + c);
    match o {
        None => {
            assert forall|j: int, k: int| 0 <= j < k < a.len() implies !(is_band_credit(#[trigger] a[j])
                && is_band_credit(#[trigger] a[k])) by {
                if k < g.len() {
                    assert(a[k] == g[k]);
                } else {
                    assert(a[k] == c[k - g.len()]);
                }
            }
        },
        Some(ov) => {
            let pb = |b: LoanAmountBand| band_contains(b, s.loan_amount.0) && b.bps != 0;
            let x: Seq<AdjView> = if s.purpose == LlpaPurpose::NoCashOutRefi && ov.refi_incentive_bps is Some {
                seq![("LenderIncentive"@, "refi incentive"@, ov.refi_incentive_bps->0 as int)]
            } else {
                Seq::empty()
            };
            let y: Seq<AdjView> = match first_where(ov.loan_amount_bands@, pb) {
                Some(b) => seq![("LenderOverride"@, "loan-amount band credit"@, b.bps as int)],
                None => Seq::empty(),
            };
            let z: Seq<AdjView> = match state_adj(ov, s) {
                Some(b) => seq![("LenderOverride"@, "state adjuster "@ + s.state@, b)],
                None => Seq::empty(),
            };
            assert(l == x + y + z);
            let w = g + x + y + z + c;
            assert(a =~= w);
            assert forall|j: int, k: int| 0 <= j < k < w.len() implies !(is_band_credit(#[trigger] w[j])
                && is_band_credit(#[trigger] w[k])) by {
                let gx = g.len() + x.len();
                if is_band_credit(w[j]) && is_band_credit(w[k]) {
                    if j < g.len() {
                        assert(w[j] == g[j]);
                    } else if j < gx {
                        assert(w[j] == x[j - g.len()]);
                    } else if j < gx + y.len() {
                        assert(j == gx);
                        assert(k > gx);
                        if k < gx + y.len() + z.len() {
                            assert(w[k] == z[k - gx - y.len()]);
                            assert(w[k].1[0] == 's');
                        } else {
                            assert(w[k] == c[k - gx - y.len() - z.len()]);
                        }
                    } else if j < gx + y.len() + z.len() {
                        assert(w[j] == z[j - gx - y.len()]);
                        assert(w[j].1[0] == 's');
                    } else {
                        assert(w[j] == c[j - gx - y.len() - z.len()]);
                    }
                }
            }
        },
    }
}

/// Which GSE special attributes a scenario draws, named by the grids'
/// keys: the occupancy ones exactly for that occupancy (so a second home is
/// never priced as a primary residence), the property-type ones exactly for
/// those property types, subordinate financing only with a positive HELOC
/// balance and no affordable second, the ARM attribute exactly for ARMs,
/// and the super-conforming attribute of the loan's rate type exactly for
/// super-conforming loans.
pub proof fn lemma_attributes_by_scenario(s: LlpaScenario)
    ensures
        attributes_of(s).contains("second_home"@) <==> s.occupancy == LlpaOccupancy::SecondHome,
        attributes_of(s).contains("investment_property"@) <==> s.occupancy == LlpaOccupancy::Investment,
        attributes_of(s).contains("manufactured_homes"@) <==> s.property_type == LlpaPropertyType::Manufactured,
        attributes_of(s).contains("condominium_unit"@) <==> s.property_type == LlpaPropertyType::AttachedCondo,
        attributes_of(s).contains("number_of_units_gt1"@) <==> (s.property_type == LlpaPropertyType::Units2
            || s.property_type == LlpaPropertyType::Units3 || s.property_type == LlpaPropertyType::Units4),
        attributes_of(s).contains("secondary_financing"@) <==> (s.has_subordinate_financing
            && s.heloc_balance_at_closing.0 > 0 && !s.has_affordable_second),
        attributes_of(s).contains("adjustable_rate_mortgage"@) <==> s.is_arm,
        attributes_of(s).contains("super_conforming_arm"@) <==> (s.is_super_conforming && s.is_arm),
        attributes_of(s).contains("super_conforming_frm"@) <==> (s.is_super_conforming && !s.is_arm),
{
    reveal_strlit("second_home");
    reveal_strlit("investment_property");
    reveal_strlit("manufactured_homes");
    reveal_strlit("condominium_unit");
    reveal_strlit("number_of_units_gt1");
    reveal_strlit("secondary_financing");
    reveal_strlit("adjustable_rate_mortgage");
    reveal_strlit("super_conforming_arm");
    reveal_strlit("super_conforming_frm");
    let lits = seq![
        "second_home"@,
        "investment_property"@,
        "manufactured_homes"@,
        "condominium_unit"@,
        "number_of_units_gt1"@,
        "secondary_financing"@,
        "adjustable_rate_mortgage"@,
        "super_conforming_arm"@,
        "super_conforming_frm"@,
    ];
    assert(lits[0].len() == 11 && lits[1].len() == 19 && lits[2].len() == 18 && lits[3].len() == 16);
    assert(lits[4].len() == 19 && lits[5].len() == 19 && lits[6].len() == 24 && lits[7].len() == 20);
    assert(lits[8].len() == 20);
    assert(lits[1][0] == 'i' && lits[4][0] == 'n' && lits[5][0] == 's');
    assert(lits[7][17] == 'a' && lits[8][17] == 'f');
    let a: Seq<Seq<char>> = match s.occupancy {
        LlpaOccupancy::Investment => seq!["investment_property"@],
        LlpaOccupancy::SecondHome => Seq::empty().push("second_home"@),
        LlpaOccupancy::Primary => Seq::empty(),
    };
    let b: Seq<Seq<char>> = match s.property_type {
        LlpaPropertyType::Manufactured => seq!["manufactured_homes"@],
        LlpaPropertyType::AttachedCondo => seq!["condominium_unit"@],
        LlpaPropertyType::Units2 | LlpaPropertyType::Units3 | LlpaPropertyType::Units4 => seq![
            "number_of_units_gt1"@,
        ],
        _ => Seq::empty(),
    };
    let c = listed_if(
        s.has_subordinate_financing && s.heloc_balance_at_closing.0 > 0 && !s.has_affordable_second,
        "secondary_financing"@,
    );
    let d = listed_if(s.is_arm, "adjustable_rate_mortgage"@);
    let e = listed_if(
        s.is_super_conforming,
        if s.is_arm { "super_conforming_arm"@ } else { "super_conforming_frm"@ },
    );
    assert(attributes_of(s) == a + b + c + d + e);
    assert forall|k: int| 0 <= k < 9 implies (attributes_of(s).contains(#[trigger] lits[k]) <==> (a.contains(lits[k])
        || b.contains(lits[k]) || c.contains(lits[k]) || d.contains(lits[k]) || e.contains(lits[k]))) by {
        let x = lits[k];
        lemma_contains_concat(a + b + c + d, e, x);
        lemma_contains_concat(a + b + c, d, x);
        lemma_contains_concat(a + b, c, x);
        lemma_contains_concat(a, b, x);
    }
    assert forall|k: int| 0 <= k < 9 implies {
        &&& (a.contains(#[trigger] lits[k]) <==> (k == 0 && s.occupancy == LlpaOccupancy::SecondHome) || (k == 1
            && s.occupancy == LlpaOccupancy::Investment))
        &&& (b.contains(lits[k]) <==> (k == 2 && s.property_type == LlpaPropertyType::Manufactured) || (k == 3
            && s.property_type == LlpaPropertyType::AttachedCondo) || (k == 4 && (s.property_type
            == LlpaPropertyType::Units2 || s.property_type == LlpaPropertyType::Units3 || s.property_type
            == LlpaPropertyType::Units4)))
        &&& (c.contains(lits[k]) <==> k == 5 && s.has_subordinate_financing && s.heloc_balance_at_closing.0 > 0
            && !s.has_affordable_second)
        &&& (d.contains(lits[k]) <==> k == 6 && s.is_arm)
        &&& (e.contains(lits[k]) <==> (k == 7 && s.is_super_conforming && s.is_arm) || (k == 8
            && s.is_super_conforming && !s.is_arm))
    } by {
        let x = lits[k];
        lemma_contains_listed(true, "investment_property"@, x);
        lemma_contains_listed(true, "second_home"@, x);
        lemma_contains_listed(true, "manufactured_homes"@, x);
        lemma_contains_listed(true, "condominium_unit"@, x);
        lemma_contains_listed(true, "number_of_units_gt1"@, x);
        lemma_contains_listed(
            s.has_subordinate_financing && s.heloc_balance_at_closing.0 > 0 && !s.has_affordable_second,
            "secondary_financing"@,
            x,
        );
        lemma_contains_listed(s.is_arm, "adjustable_rate_mortgage"@, x);
        lemma_contains_listed(
            s.is_super_conforming,
            if s.is_arm { "super_conforming_arm"@ } else { "super_conforming_frm"@ },
            x,
        );
        assert forall|j: int| 0 <= j < 9 && j != k implies lits[j] != x by {
            if lits[j] == x {
                assert(lits[j].len() == x.len());
                if lits[j].len() == 19 {
                    assert(lits[j][0] == x[0]);
                }
                if lits[j].len() == 20 {
                    assert(lits[j][17] == x[17]);
                }
            }
        }
    }
    assert(lits[0] == "second_home"@ && lits[1] == "investment_property"@ && lits[2] == "manufactured_homes"@);
    assert(lits[3] == "condominium_unit"@ && lits[4] == "number_of_units_gt1"@ && lits[5]
        == "secondary_financing"@);
    assert(lits[6] == "adjustable_rate_mortgage"@ && lits[7] == "super_conforming_arm"@ && lits[8]
        == "super_conforming_frm"@);
}

/// An attribute the scenario draws whose cell is non-zero gets its line.
proof fn lemma_special_line_present(f: LlpaDatasetFile, s: LlpaScenario, attrs: Seq<Seq<char>>, a: Seq<char>, v: int)
    requires
        special_adjs(f, s, attrs) is Ok,
        attrs.contains(a),
        special_cell_of(f, s, a) == Ok::<Option<int>, Seq<char>>(Some(v)),
        v != 0,
    ensures
        special_adjs(f, s, attrs)->Ok_0.contains(("SpecialAttribute"@, a, v)),
    decreases attrs.len(),
{
    let prev = attrs.drop_last();
    let r = special_adjs(f, s, attrs)->Ok_0;
    let line = ("SpecialAttribute"@, a, v);
    if attrs.last() == a {
        assert(r == special_adjs(f, s, prev)->Ok_0.push(line));
        assert(r[r.len() - 1] == line);
    } else {
        let j = choose|j: int| 0 <= j < attrs.len() && attrs[j] == a;
        assert(prev[j] == a);
        lemma_special_line_present(f, s, prev, a, v);
        let q = special_adjs(f, s, prev)->Ok_0;
        let i = choose|i: int| 0 <= i < q.len() && q[i] == line;
        assert(r[i] == line);
    }
}

/// A successfully priced second home or investment property carries its
/// occupancy's special-attribute line whenever the grid's cell for it at
/// the loan's LTV is non-zero, with that cell's value; a primary residence
/// never draws either occupancy attribute.
pub proof fn lemma_occupancy_is_priced(f: LlpaDatasetFile, o: Option<LenderOverlayFile>, s: LlpaScenario, v: int)
    requires
        price_error(f, o, s) is None,
        v != 0,
    ensures
        s.occupancy == LlpaOccupancy::SecondHome && special_cell_of(f, s, "second_home"@) == Ok::<
            Option<int>,
            Seq<char>,
        >(Some(v)) ==> all_adjs(f, o, s).contains(("SpecialAttribute"@, "second_home"@, v)),
        s.occupancy == LlpaOccupancy::Investment && special_cell_of(f, s, "investment_property"@) == Ok::<
            Option<int>,
            Seq<char>,
        >(Some(v)) ==> all_adjs(f, o, s).contains(("SpecialAttribute"@, "investment_property"@, v)),
        s.occupancy == LlpaOccupancy::Primary ==> !attributes_of(s).contains("second_home"@)
            && !attributes_of(s).contains("investment_property"@),
{
    lemma_attributes_by_scenario(s);
    let g = gse_adjs(f, s);
    let sp = special_adjs(f, s, attributes_of(s))->Ok_0;
    let base = seq![
        (
            "BaseGrid"@,
            f.agency.spec_name() + " base grid: score "@ + dec_nat(s.indicator_score.0 as nat) + ", LTV "@
                + pct2_text(s.ltv.0 as nat) + "%"@,
            base_cell_of(f, s)->Ok_0,
        ),
    ];
    assert(g == base + sp);
    let rest = lender_part(o, s) + listed_if(
        affordable_capped_spec(s),
        ("AffordableCap"@, "affordable/mission program cap applied"@, cap_of(o)),
    );
    assert(all_adjs(f, o, s) =~= g + rest);
    if s.occupancy == LlpaOccupancy::SecondHome && special_cell_of(f, s, "second_home"@) == Ok::<
        Option<int>,
        Seq<char>,
    >(Some(v)) {
        let line = ("SpecialAttribute"@, "second_home"@, v);
        lemma_special_line_present(f, s, attributes_of(s), "second_home"@, v);
        lemma_contains_concat(base, sp, line);
        lemma_contains_concat(g, rest, line);
    }
    if s.occupancy == LlpaOccupancy::Investment && special_cell_of(f, s, "investment_property"@) == Ok::<
        Option<int>,
        Seq<char>,
    >(Some(v)) {
        let line = ("SpecialAttribute"@, "investment_property"@, v);
        lemma_special_line_present(f, s, attributes_of(s), "investment_property"@, v);
        lemma_contains_concat(base, sp, line);
        lemma_contains_concat(g, rest, line);
    }
}

} // verus!
