//! Conventional private mortgage insurance (PMI) estimated rate quotes.
//!
//! A quote is a published-rate-card lookup: a base grid cell, plus additive
//! adjustments, raised to a per-plan minimum rate. It is an estimate for
//! disclosure, never an MI order.
//!
//! Rates and adjustments are integer thousandths of a percent (`milli_pct`):
//! 0.58% is `580`, −0.13% is `-130`. LTV bounds of the grid rows are held in
//! hundredths of a percent, the scale of [`LtvBasisPoints`].
//!
//! A quote assumes the qualified DTI tier (≤45%) by default, so the DTI
//! adjustment is absent; the higher tiers select their own adjustment rows.

use vstd::prelude::*;
use vstd::string::*;
use crate::llpa::{sum_bps, AdjView};
use crate::money::{trunc_div, Cents, CreditScore, LtvBasisPoints};
use crate::provenance::{prov_is, rule_names, step_texts, Derived, Provenance};
use crate::search::{
    keys_distinct, lemma_contains_concat, lemma_contains_listed,
    find_key, first_index, first_where, key_get, lemma_first_index, lemma_first_where_hit,
    lemma_first_where_none, listed_if,
};
use crate::text::{
    cents_text, dec_int, dec_nat, milli3_text, pct2_text, pct_text, push_cents, push_dec_i64, push_dec_u64, push_milli3, push_pct, push_pct2,
    str_eq,
};

verus! {

/// The six approved conventional MI companies.
#[derive(Clone, Copy, Debug, PartialEq, Eq, Structural)]
pub enum MiCompany {
    Mgic,
    Radian,
    Essent,
    NationalMi,
    Enact,
    Arch,
}

impl MiCompany {
    /// Versioned-file stem of the company's card.
    pub open spec fn spec_dataset(self) -> Seq<char> {
        match self {
            MiCompany::Mgic => "mgic_pmi"@,
            MiCompany::Radian => "radian_pmi"@,
            MiCompany::Essent => "essent_pmi"@,
            MiCompany::NationalMi => "national_mi_pmi"@,
            MiCompany::Enact => "enact_pmi"@,
            MiCompany::Arch => "arch_pmi"@,
        }
    }

    /// Versioned-file stem of the company's card (e.g. `enact_pmi`).
    pub fn dataset(self) -> (s: &'static str)
        ensures
            s@ == self.spec_dataset(),
    {
        match self {
            MiCompany::Mgic => "mgic_pmi",
            MiCompany::Radian => "radian_pmi",
            MiCompany::Essent => "essent_pmi",
            MiCompany::NationalMi => "national_mi_pmi",
            MiCompany::Enact => "enact_pmi",
            MiCompany::Arch => "arch_pmi",
        }
    }

    /// The variant's name.
    pub open spec fn spec_name(self) -> Seq<char> {
        match self {
            MiCompany::Mgic => "Mgic"@,
            MiCompany::Radian => "Radian"@,
            MiCompany::Essent => "Essent"@,
            MiCompany::NationalMi => "NationalMi"@,
            MiCompany::Enact => "Enact"@,
            MiCompany::Arch => "Arch"@,
        }
    }

    /// The variant's name.
    pub fn name(self) -> (s: &'static str)
        ensures
            s@ == self.spec_name(),
    {
        match self {
            MiCompany::Mgic => "Mgic",
            MiCompany::Radian => "Radian",
            MiCompany::Essent => "Essent",
            MiCompany::NationalMi => "NationalMi",
            MiCompany::Enact => "Enact",
            MiCompany::Arch => "Arch",
        }
    }
}

/// Premium plan.
#[derive(Clone, Copy, Debug, PartialEq, Eq, Structural)]
pub enum MiPlan {
    /// Borrower-paid, premium in the monthly payment.
    MonthlyBpmi,
    /// Borrower-paid, one-time premium at closing.
    SingleBpmi,
    /// Lender-paid, one-time.
    SingleLpmi,
    /// Lender-paid monthly.
    MonthlyLpmi,
    /// Upfront plus monthly combination.
    SplitPremium,
}

impl MiPlan {
    /// Grid key as stored in the card.
    pub open spec fn spec_grid_key(self) -> Seq<char> {
        match self {
            MiPlan::MonthlyBpmi => "monthly_bpmi"@,
            MiPlan::SingleBpmi => "single_bpmi"@,
            MiPlan::SingleLpmi => "single_lpmi"@,
            MiPlan::MonthlyLpmi => "monthly_lpmi"@,
            MiPlan::SplitPremium => "split_premium"@,
        }
    }

    /// Grid key as stored in the card.
    pub fn grid_key(self) -> (s: &'static str)
        ensures
            s@ == self.spec_grid_key(),
    {
        match self {
            MiPlan::MonthlyBpmi => "monthly_bpmi",
            MiPlan::SingleBpmi => "single_bpmi",
            MiPlan::SingleLpmi => "single_lpmi",
            MiPlan::MonthlyLpmi => "monthly_lpmi",
            MiPlan::SplitPremium => "split_premium",
        }
    }

    /// Whether the plan's primary premium is paid monthly (vs upfront).
    pub fn is_monthly(self) -> (b: bool)
        ensures
            b == (self == MiPlan::MonthlyBpmi || self == MiPlan::MonthlyLpmi),
    {
        match self {
            MiPlan::MonthlyBpmi | MiPlan::MonthlyLpmi => true,
            _ => false,
        }
    }
}

/// Refundability of a single/split premium.
#[derive(Clone, Copy, Debug, PartialEq, Eq, Structural)]
pub enum Refundability {
    Refundable,
    NonRefundable,
    /// Not applicable (monthly plans).
    NotApplicable,
}

/// DTI tier; `Qualified` (≤45%) unless a DTI is known.
#[derive(Clone, Copy, Debug, PartialEq, Eq, Structural)]
pub enum DtiTier {
    /// ≤45%: no DTI adjustment.
    Qualified,
    /// 45.01%–50%.
    Elevated,
    /// Above 50%.
    High,
}

impl Default for DtiTier {
    fn default() -> (t: Self)
        ensures
            t == DtiTier::Qualified,
    {
        DtiTier::Qualified
    }
}

impl DtiTier {
    /// Adjustment key prefix of the tier; none for the qualified tier.
    pub open spec fn spec_adjustment_key(self) -> Option<Seq<char>> {
        match self {
            DtiTier::Qualified => None,
            DtiTier::Elevated => Some("dti_45_50"@),
            DtiTier::High => Some("dti_gt_50"@),
        }
    }

    /// Adjustment key prefix, or `None` for the qualified (no-adjustment) tier.
    pub fn adjustment_key(self) -> (r: Option<&'static str>)
        ensures
            match r {
                Some(k) => self.spec_adjustment_key() == Some(k@),
                None => self.spec_adjustment_key() is None,
            },
    {
        match self {
            DtiTier::Qualified => None,
            DtiTier::Elevated => Some("dti_45_50"),
            DtiTier::High => Some("dti_gt_50"),
        }
    }

    /// The variant's name.
    pub open spec fn spec_name(self) -> Seq<char> {
        match self {
            DtiTier::Qualified => "Qualified"@,
            DtiTier::Elevated => "Elevated"@,
            DtiTier::High => "High"@,
        }
    }

    /// The variant's name.
    pub fn name(self) -> (s: &'static str)
        ensures
            s@ == self.spec_name(),
    {
        match self {
            DtiTier::Qualified => "Qualified",
            DtiTier::Elevated => "Elevated",
            DtiTier::High => "High",
        }
    }
}

/// Property type driving MI adjustments.
#[derive(Clone, Copy, Debug, PartialEq, Eq, Structural)]
pub enum MiPropertyType {
    SingleFamilyDetached,
    Condo,
    ManufacturedHousing,
    Units2,
    Units3to4,
}

/// Occupancy driving MI adjustments.
#[derive(Clone, Copy, Debug, PartialEq, Eq, Structural)]
pub enum MiOccupancy {
    Primary,
    SecondHome,
    Investment,
}

/// Loan purpose driving MI adjustments.
#[derive(Clone, Copy, Debug, PartialEq, Eq, Structural)]
pub enum MiPurpose {
    Purchase,
    RateTermRefi,
    CashOutRefi,
}

/// A single PMI rate-quote scenario.
#[derive(Clone, Debug)]
pub struct MiScenario {
    pub plan: MiPlan,
    pub refundability: Refundability,
    /// Fixed (or ARM of five years or more) vs non-fixed.
    pub is_fixed: bool,
    /// Amortization term in months.
    pub amortization_term_months: u16,
    pub indicator_score: CreditScore,
    /// Gross LTV.
    pub ltv: LtvBasisPoints,
    /// Coverage percent required.
    pub coverage_percent: u8,
    pub loan_amount: Cents,
    pub property_type: MiPropertyType,
    pub occupancy: MiOccupancy,
    pub purpose: MiPurpose,
    pub borrower_count: u8,
    pub is_relocation: bool,
    /// `Qualified` unless a DTI is known.
    pub dti_tier: DtiTier,
}

impl MiScenario {
    /// A term above twenty years (240 months), the split most cards use.
    pub fn term_gt_20yr(&self) -> (b: bool)
        ensures
            b == (self.amortization_term_months > 240),
    {
        self.amortization_term_months > 240
    }
}

/// How a card produces non-fixed rates.
#[derive(Clone, Debug)]
pub enum NonFixedMethod {
    /// The card ships explicit non-fixed grids.
    Grid,
    /// The fixed base rate times `factor_milli / 1000`, rounded to the
    /// nearest basis point, before adjustments.
    Multiplier { factor_milli: u32 },
}

/// One LTV row of a base grid: an inclusive LTV band (hundredths of a
/// percent), a coverage percent, and rates aligned to the grid's score order.
#[derive(Clone, Debug)]
pub struct MiRateRow {
    pub ltv_min_bps: u32,
    pub ltv_max_bps: u32,
    pub coverage_percent: u8,
    /// Rates in milli-percent; `None` means not offered.
    pub rates: Vec<Option<i32>>,
}

/// A base grid for one plan / fixed / term-bucket combination.
#[derive(Clone, Debug)]
pub struct MiBaseGrid {
    pub score_order: Vec<String>,
    pub rows: Vec<MiRateRow>,
}

/// One MI company's published rate card.
#[derive(Clone, Debug)]
pub struct MiCardFile {
    pub company: MiCompany,
    pub source_citation: String,
    pub effective_date: String,
    /// States the card applies to; empty means all not otherwise carved out.
    pub applicable_states: Vec<String>,
    /// States explicitly excluded.
    pub excluded_states: Vec<String>,
    pub non_fixed_method: NonFixedMethod,
    /// Per-plan minimum rate, milli-percent, keyed by plan grid key.
    pub min_rate_milli_pct: Vec<(String, i32)>,
    /// Score buckets: id and inclusive `(min, max)`.
    pub score_buckets: Vec<(String, (u16, u16))>,
    /// Base grids keyed `"{plan}|{fixed|non_fixed}|{gt20|le20}"`.
    pub base_grids: Vec<(String, MiBaseGrid)>,
    /// Score order shared by the adjustment rows.
    pub adjustment_order: Vec<String>,
    /// Additive adjustments: name and milli-percent values aligned to
    /// `adjustment_order`.
    pub adjustments: Vec<(String, Vec<Option<i32>>)>,
}

/// One MI rate adjustment line.
#[derive(Clone, Debug, PartialEq, Eq)]
pub struct MiAdjustment {
    pub adjustment_type: String,
    pub description: String,
    /// Milli-percent, signed.
    pub milli_pct: i32,
}

impl MiAdjustment {
    /// Type, description and milli-percent of the line.
    pub open spec fn view3(self) -> AdjView {
        (self.adjustment_type@, self.description@, self.milli_pct as int)
    }
}

/// Views of a list of adjustment lines.
pub open spec fn mi_adjs_view(v: Seq<MiAdjustment>) -> Seq<AdjView> {
    v.map_values(|a: MiAdjustment| a.view3())
}

/// A fully itemized PMI rate quote.
#[derive(Clone, Debug, PartialEq, Eq)]
pub struct MiRateQuote {
    pub company: MiCompany,
    pub plan: MiPlan,
    pub base_milli_pct: i32,
    pub adjustments: Vec<MiAdjustment>,
    /// Net annual rate after adjustments and the minimum-rate floor.
    pub net_milli_pct: i32,
    /// True when the floor raised the net rate.
    pub floored: bool,
}

/// The annual premium in cents of a rate on a loan: `loan × rate / 100_000`,
/// rounded toward zero, as a 64-bit value.
pub open spec fn annual_premium_of(loan: i64, milli: i32) -> i64 {
    trunc_div(loan * milli, 100_000) as i64
}

impl MiRateQuote {
    /// Annual premium in cents: loan × rate% / 100.
    pub fn annual_premium(&self, loan: Cents) -> (c: Cents)
        ensures
            c.0 == annual_premium_of(loan.0, self.net_milli_pct),
    {
        assert(-0x8000_0000_0000_0000 * 0x8000_0000 <= (loan.0 as int) * (self.net_milli_pct as int)
            <= 0x8000_0000_0000_0000 * 0x8000_0000) by (nonlinear_arith)
            requires
                i64::MIN <= loan.0 <= i64::MAX,
                i32::MIN <= self.net_milli_pct <= i32::MAX,
        ;
        let amt: i128 = (loan.0 as i128) * (self.net_milli_pct as i128) / 100_000;
        Cents(#[verifier::truncate] (amt as i64))
    }

    /// Monthly premium in cents: the annual premium / 12, rounded toward zero.
    pub fn monthly_premium(&self, loan: Cents) -> (c: Cents)
        ensures
            c.0 == trunc_div(annual_premium_of(loan.0, self.net_milli_pct) as int, 12),
    {
        Cents(self.annual_premium(loan).0 / 12)
    }
}

/// MI not offered for the scenario.
#[derive(Clone, Debug, PartialEq, Eq)]
pub struct MiUnavailable {
    pub reason: String,
}

/// The base-grid key `"{plan}|{fixed|non_fixed}|{gt20|le20}"`.
pub open spec fn mi_grid_key(plan: MiPlan, fixed: bool, gt20: bool) -> Seq<char> {
    plan.spec_grid_key() + "|"@ + (if fixed { "fixed"@ } else { "non_fixed"@ }) + "|"@ + (if gt20 {
        "gt20"@
    } else {
        "le20"@
    })
}

/// The id of the first score bucket containing the score.
pub open spec fn mi_score_id(buckets: Seq<(String, (u16, u16))>, score: u16) -> Option<Seq<char>> {
    match first_where(buckets, |b: (String, (u16, u16))| b.1.0 <= score && score <= b.1.1) {
        Some(b) => Some(b.0@),
        None => None,
    }
}

/// Position of a score id in a score order.
pub open spec fn score_col_of(order: Seq<String>, id: Seq<char>) -> Option<int> {
    first_index(order, |x: String| x@ == id)
}

/// The first row with this coverage whose LTV band contains the LTV.
pub open spec fn row_of(rows: Seq<MiRateRow>, cov: u8, ltv: u32) -> Option<MiRateRow> {
    first_where(
        rows,
        |r: MiRateRow| r.coverage_percent == cov && r.ltv_min_bps <= ltv && ltv <= r.ltv_max_bps,
    )
}

/// A rate cell, when the column exists and the rate is offered.
pub open spec fn rate_cell(vals: Seq<Option<i32>>, col: int) -> Option<i32> {
    if 0 <= col < vals.len() { vals[col] } else { None }
}

/// A fixed rate scaled by `factor_milli / 1000` (rounded toward zero), then
/// rounded half-up to a whole basis point (ten milli-percent), as 32 bits.
pub open spec fn scaled_rate(base: int, factor_milli: int) -> i32 {
    (trunc_div(trunc_div(base * factor_milli, 1000) + 5, 10) * 10) as i32
}

/// Whether the fixed grid is read, and the scale to apply to its rate.
pub open spec fn lookup_plan(m: NonFixedMethod, fixed: bool) -> (bool, Option<u32>) {
    if fixed {
        (true, None)
    } else {
        match m {
            NonFixedMethod::Grid => (false, None),
            NonFixedMethod::Multiplier { factor_milli } => (true, Some(factor_milli)),
        }
    }
}

/// The base rate (milli-percent) for the scenario, or why none is offered.
pub open spec fn base_rate_of(c: MiCardFile, s: MiScenario) -> Result<int, Seq<char>> {
    let (fixed, scale) = lookup_plan(c.non_fixed_method, s.is_fixed);
    let key = mi_grid_key(s.plan, fixed, s.amortization_term_months > 240);
    let ltv = s.ltv.0;
    match key_get(c.base_grids@, key) {
        None => Err("no base grid '"@ + key + "'"@),
        Some(grid) => match mi_score_id(c.score_buckets@, s.indicator_score.0) {
            None => Err("no score bucket for "@ + dec_nat(s.indicator_score.0 as nat)),
            Some(sid) => match score_col_of(grid.score_order@, sid) {
                None => Err("score '"@ + sid + "' not in grid '"@ + key + "'"@),
                Some(col) => match row_of(grid.rows@, s.coverage_percent, ltv) {
                    None => Err(
                        "no row for LTV "@ + pct_text(ltv as nat) + "% coverage "@ + dec_nat(
                            s.coverage_percent as nat,
                        ) + "% in '"@ + key + "'"@,
                    ),
                    Some(row) => match rate_cell(row.rates@, col) {
                        None => Err(
                            "rate not offered: score "@ + sid + ", LTV "@ + pct_text(ltv as nat)
                                + "%, '"@ + key + "'"@,
                        ),
                        Some(b) => match scale {
                            None => Ok(b as int),
                            Some(f) => Ok(scaled_rate(b as int, f as int) as int),
                        },
                    },
                },
            },
        },
    }
}

/// LTV band label used by some adjustment keys.
pub open spec fn band_label(ltv: u32) -> Seq<char> {
    if ltv > 9500 {
        "97"@
    } else if ltv > 9000 {
        "95"@
    } else if ltv > 8500 {
        "90"@
    } else {
        "85"@
    }
}

/// The adjustment names that apply to the scenario, in order.
pub open spec fn mi_adjustment_names(s: MiScenario) -> Seq<Seq<char>> {
    listed_if(s.borrower_count >= 2, "ge2_borrowers@"@ + band_label(s.ltv.0)) + (match s.occupancy {
        MiOccupancy::SecondHome => seq!["second_home"@],
        MiOccupancy::Investment => seq!["investment_property"@],
        MiOccupancy::Primary => Seq::empty(),
    }) + (match s.property_type {
        MiPropertyType::ManufacturedHousing => seq!["manufactured_housing"@],
        MiPropertyType::Units3to4 => seq!["units_3_4"@],
        _ => Seq::empty(),
    }) + (match s.purpose {
        MiPurpose::CashOutRefi => seq!["cash_out_refi"@],
        MiPurpose::RateTermRefi => seq!["rate_term_refi"@],
        MiPurpose::Purchase => Seq::empty(),
    }) + listed_if(s.is_relocation, "relocation"@) + (match s.dti_tier.spec_adjustment_key() {
        Some(k) => seq![k + "@"@ + band_label(s.ltv.0)],
        None => Seq::empty(),
    })
}

/// The card's value of a named adjustment for the scenario's score, if the
/// card has the adjustment, the score is bucketed and the cell is set.
pub open spec fn adjustment_value_of(c: MiCardFile, s: MiScenario, name: Seq<char>) -> Option<int> {
    match key_get(c.adjustments@, name) {
        None => None,
        Some(vals) => match mi_score_id(c.score_buckets@, s.indicator_score.0) {
            None => None,
            Some(sid) => match score_col_of(c.adjustment_order@, sid) {
                None => None,
                Some(col) => match rate_cell(vals@, col) {
                    Some(v) => Some(v as int),
                    None => None,
                },
            },
        },
    }
}

/// The non-zero adjustment lines for `names`, in order.
pub open spec fn mi_adjs(c: MiCardFile, s: MiScenario, names: Seq<Seq<char>>) -> Seq<AdjView>
    decreases names.len(),
{
    if names.len() == 0 {
        Seq::empty()
    } else {
        let prev = mi_adjs(c, s, names.drop_last());
        match adjustment_value_of(c, s, names.last()) {
            Some(v) => if v != 0 {
                prev.push(("MiAdjustment"@, names.last(), v))
            } else {
                prev
            },
            None => prev,
        }
    }
}

/// The adjustment lines of a quote.
pub open spec fn quote_adjs(c: MiCardFile, s: MiScenario) -> Seq<AdjView> {
    mi_adjs(c, s, mi_adjustment_names(s))
}

/// The card's minimum rate for the plan (zero when it has none).
pub open spec fn min_rate_of(c: MiCardFile, plan: MiPlan) -> int {
    match key_get(c.min_rate_milli_pct@, plan.spec_grid_key()) {
        Some(v) => v as int,
        None => 0,
    }
}

/// The card's keyed tables (plan minimums, score buckets, base grids and
/// adjustments) each hold a key at most once, as the maps they stand for.
pub open spec fn mi_card_keys_distinct(c: MiCardFile) -> bool {
    &&& keys_distinct(c.min_rate_milli_pct@)
    &&& keys_distinct(c.score_buckets@)
    &&& keys_distinct(c.base_grids@)
    &&& keys_distinct(c.adjustments@)
}

/// The base rate plus every prefix of the adjustments, and the adjustments'
/// own running sums, stay in 32 bits.
pub open spec fn mi_in_range(c: MiCardFile, s: MiScenario) -> bool {
    base_rate_of(c, s) is Ok ==> forall|k: int|
        0 <= k <= quote_adjs(c, s).len() ==> {
            &&& i32::MIN <= base_rate_of(c, s)->Ok_0 + #[trigger] sum_bps(quote_adjs(c, s).take(k))
                <= i32::MAX
            &&& i32::MIN <= sum_bps(quote_adjs(c, s).take(k)) <= i32::MAX
        }
}

/// The net rate before the floor.
pub open spec fn unfloored_of(c: MiCardFile, s: MiScenario) -> int {
    base_rate_of(c, s)->Ok_0 + sum_bps(quote_adjs(c, s))
}

/// The rules a quote records, in order.
pub open spec fn mi_rules(c: MiCardFile, s: MiScenario) -> Seq<Seq<char>> {
    seq!["base_rate"@] + listed_if(quote_adjs(c, s).len() > 0, "adjustments"@) + listed_if(
        unfloored_of(c, s) < min_rate_of(c, s.plan),
        "min_rate_floor"@,
    ) + seq!["net_rate"@]
}

/// The steps of a quote from its figures: the base rate, the adjustments
/// when any apply, the floor when it binds, and the net rate with the
/// annual premium.
pub open spec fn quote_steps(
    company: MiCompany,
    s: MiScenario,
    base: int,
    adj_count: nat,
    adj_sum: int,
    floored: bool,
    floor: int,
    net: int,
    premium: int,
) -> Seq<(Seq<char>, Seq<char>, Seq<char>)> {
    seq![
        (
            "base_rate"@,
            company.spec_name() + " "@ + s.plan.spec_grid_key() + (if s.is_fixed { " fixed"@ } else {
                " non-fixed"@
            }) + " score="@ + dec_nat(s.indicator_score.0 as nat) + " ltv="@ + pct2_text(s.ltv.0 as nat)
                + "% cov="@ + dec_nat(s.coverage_percent as nat) + "%"@,
            "base "@ + dec_int(base) + " milli-pct"@,
        ),
    ] + listed_if(
        adj_count > 0,
        ("adjustments"@, dec_nat(adj_count) + " applied"@, "sum "@ + dec_int(adj_sum) + " milli-pct"@),
    ) + listed_if(
        floored,
        ("min_rate_floor"@, "floor "@ + dec_int(floor) + " milli-pct"@, "net raised to floor"@),
    ) + seq![
        (
            "net_rate"@,
            "dti_tier="@ + s.dti_tier.spec_name() + " (assumed qualified pre-app)"@,
            "net "@ + dec_int(net) + " milli-pct = "@ + milli3_text(net) + "% annual ("@ + cents_text(premium)
                + " / yr on "@ + cents_text(s.loan_amount.0 as int) + ")"@,
        ),
    ]
}

/// The steps a quote records, with their texts.
pub open spec fn mi_trail(c: MiCardFile, s: MiScenario) -> Seq<(Seq<char>, Seq<char>, Seq<char>)> {
    let floor = min_rate_of(c, s.plan);
    let floored = unfloored_of(c, s) < floor;
    let net = if floored { floor } else { unfloored_of(c, s) };
    quote_steps(
        c.company,
        s,
        base_rate_of(c, s)->Ok_0,
        quote_adjs(c, s).len(),
        sum_bps(quote_adjs(c, s)),
        floored,
        floor,
        net,
        annual_premium_of(s.loan_amount.0, net as i32) as int,
    )
}

/// The record id of a quote: plan, fixed/nonfixed, score and LTV.
pub open spec fn mi_record(s: MiScenario) -> Seq<char> {
    s.plan.spec_grid_key() + "_"@ + (if s.is_fixed { "fixed"@ } else { "nonfixed"@ }) + "_"@
        + dec_nat(s.indicator_score.0 as nat) + "_"@ + dec_nat(s.ltv.0 as nat)
}

impl MiCardFile {
    /// Index of the first score bucket containing the score.
    fn score_bucket(&self, score: u16) -> (r: Option<usize>)
        ensures
            match r {
                Some(k) => k < self.score_buckets@.len() && mi_score_id(self.score_buckets@, score)
                    == Some(self.score_buckets@[k as int].0@),
                None => mi_score_id(self.score_buckets@, score) is None,
            },
    {
        let ghost pred = |b: (String, (u16, u16))| b.1.0 <= score && score <= b.1.1;
        let mut i: usize = 0;
        while i < self.score_buckets.len()
            invariant
                0 <= i <= self.score_buckets@.len(),
                pred == (|b: (String, (u16, u16))| b.1.0 <= score && score <= b.1.1),
                forall|j: int| 0 <= j < i ==> !pred(#[trigger] self.score_buckets@[j]),
            decreases self.score_buckets@.len() - i,
        {
            let b = &self.score_buckets[i];
            if score >= (b.1).0 && score <= (b.1).1 {
                proof {
                    lemma_first_where_hit(self.score_buckets@, pred, i as int);
                }
                return Some(i);
            }
            i = i + 1;
        }
        proof {
            lemma_first_where_none(self.score_buckets@, pred);
        }
        None
    }

    /// Position of a score id in a score order.
    fn score_col(order: &Vec<String>, id: &str) -> (r: Option<usize>)
        ensures
            match r {
                Some(k) => score_col_of(order@, id@) == Some(k as int),
                None => score_col_of(order@, id@) is None,
            },
    {
        let ghost pred = |x: String| x@ == id@;
        let mut i: usize = 0;
        while i < order.len()
            invariant
                0 <= i <= order@.len(),
                pred == (|x: String| x@ == id@),
                forall|j: int| 0 <= j < i ==> !pred(#[trigger] order@[j]),
            decreases order@.len() - i,
        {
            if str_eq(order[i].as_str(), id) {
                proof {
                    lemma_first_index(order@, pred, i as int);
                }
                return Some(i);
            }
            i = i + 1;
        }
        proof {
            lemma_first_index(order@, pred, i as int);
        }
        None
    }

    /// The base-grid key for a plan, fixed/non-fixed grid and term bucket.
    fn grid_key(plan: MiPlan, fixed: bool, gt20: bool) -> (k: String)
        ensures
            k@ == mi_grid_key(plan, fixed, gt20),
    {
        let mut k = String::new();
        k.append(plan.grid_key());
        k.append("|");
        k.append(if fixed { "fixed" } else { "non_fixed" });
        k.append("|");
        k.append(if gt20 { "gt20" } else { "le20" });
        assert(k@ =~= mi_grid_key(plan, fixed, gt20));
        k
    }

    /// Index of the first row with this coverage whose band holds the LTV.
    fn find_row(rows: &Vec<MiRateRow>, cov: u8, ltv: u32) -> (r: Option<usize>)
        ensures
            match r {
                Some(k) => k < rows@.len() && row_of(rows@, cov, ltv) == Some(rows@[k as int]),
                None => row_of(rows@, cov, ltv) is None,
            },
    {
        let ghost pred = |r: MiRateRow|
            r.coverage_percent == cov && r.ltv_min_bps <= ltv && ltv <= r.ltv_max_bps;
        let mut i: usize = 0;
        while i < rows.len()
            invariant
                0 <= i <= rows@.len(),
                pred == (|r: MiRateRow|
                    r.coverage_percent == cov && r.ltv_min_bps <= ltv && ltv <= r.ltv_max_bps),
                forall|j: int| 0 <= j < i ==> !pred(#[trigger] rows@[j]),
            decreases rows@.len() - i,
        {
            let r = &rows[i];
            if r.coverage_percent == cov && ltv >= r.ltv_min_bps && ltv <= r.ltv_max_bps {
                proof {
                    lemma_first_where_hit(rows@, pred, i as int);
                }
                return Some(i);
            }
            i = i + 1;
        }
        proof {
            lemma_first_where_none(rows@, pred);
        }
        None
    }

    /// Base rate (milli-percent) for the scenario, before adjustments and
    /// floor; a multiplier card reads its fixed grid for non-fixed loans.
    pub fn base_rate(&self, s: &MiScenario) -> (r: Result<i32, MiUnavailable>)
        ensures
            match r {
                Ok(v) => base_rate_of(*self, *s) == Ok::<int, Seq<char>>(v as int),
                Err(e) => base_rate_of(*self, *s) == Err::<int, Seq<char>>(e.reason@),
            },
    {
        let gt20 = s.term_gt_20yr();
        let (lookup_fixed, scale): (bool, Option<u32>) = if s.is_fixed {
            (true, None)
        } else {
            match &self.non_fixed_method {
                NonFixedMethod::Grid => (false, None),
                NonFixedMethod::Multiplier { factor_milli } => (true, Some(*factor_milli)),
            }
        };
        let key = Self::grid_key(s.plan, lookup_fixed, gt20);
        let ltv = s.ltv.0;
        let gi = match find_key(&self.base_grids, key.as_str()) {
            None => {
                let mut m = String::new();
                m.append("no base grid '");
                m.append(key.as_str());
                m.append("'");
                return Err(MiUnavailable { reason: m });
            },
            Some(k) => k,
        };
        let grid = &self.base_grids[gi].1;
        let si = match self.score_bucket(s.indicator_score.0) {
            None => {
                let mut m = String::new();
                m.append("no score bucket for ");
                push_dec_u64(&mut m, s.indicator_score.0 as u64);
                return Err(MiUnavailable { reason: m });
            },
            Some(k) => k,
        };
        let sid = self.score_buckets[si].0.as_str();
        let col = match Self::score_col(&grid.score_order, sid) {
            None => {
                let mut m = String::new();
                m.append("score '");
                m.append(sid);
                m.append("' not in grid '");
                m.append(key.as_str());
                m.append("'");
                return Err(MiUnavailable { reason: m });
            },
            Some(c) => c,
        };
        let ri = match Self::find_row(&grid.rows, s.coverage_percent, ltv) {
            None => {
                let mut m = String::new();
                m.append("no row for LTV ");
                push_pct(&mut m, ltv as u64);
                m.append("% coverage ");
                push_dec_u64(&mut m, s.coverage_percent as u64);
                m.append("% in '");
                m.append(key.as_str());
                m.append("'");
                return Err(MiUnavailable { reason: m });
            },
            Some(k) => k,
        };
        let row = &grid.rows[ri];
        let mut cell: Option<i32> = None;
        if col < row.rates.len() {
            cell = row.rates[col];
        }
        let base = match cell {
            None => {
                let mut m = String::new();
                m.append("rate not offered: score ");
                m.append(sid);
                m.append(", LTV ");
                push_pct(&mut m, ltv as u64);
                m.append("%, '");
                m.append(key.as_str());
                m.append("'");
                return Err(MiUnavailable { reason: m });
            },
            Some(b) => b,
        };
        match scale {
            None => Ok(base),
            Some(factor_milli) => {
                assert(i64::MIN <= (base as int) * (factor_milli as int) <= i64::MAX) by (nonlinear_arith)
                    requires
                        i32::MIN <= base <= i32::MAX,
                        0 <= factor_milli <= u32::MAX,
                ;
                let scaled: i64 = (base as i64) * (factor_milli as i64) / 1000;
                let bp_rounded: i64 = ((scaled + 5) / 10) * 10;
                Ok(#[verifier::truncate] (bp_rounded as i32))
            },
        }
    }

    /// The adjustment names applicable to the scenario, in order.
    pub fn applicable_adjustments(s: &MiScenario) -> (v: Vec<String>)
        ensures
            crate::search::strings_view(v@) == mi_adjustment_names(*s),
    {
        let mut v: Vec<String> = Vec::new();
        assert(crate::search::strings_view(v@) =~= Seq::<Seq<char>>::empty());
        if s.borrower_count >= 2 {
            let mut n = String::new();
            n.append("ge2_borrowers@");
            n.append(band_label_str(s.ltv.0));
            crate::search::push_msg(&mut v, n);
        }
        let ghost a1 = crate::search::strings_view(v@);
        match s.occupancy {
            MiOccupancy::SecondHome => crate::search::push_msg(&mut v, "second_home".to_owned()),
            MiOccupancy::Investment => crate::search::push_msg(
                &mut v,
                "investment_property".to_owned(),
            ),
            MiOccupancy::Primary => {},
        }
        let ghost a2 = crate::search::strings_view(v@);
        match s.property_type {
            MiPropertyType::ManufacturedHousing => crate::search::push_msg(
                &mut v,
                "manufactured_housing".to_owned(),
            ),
            MiPropertyType::Units3to4 => crate::search::push_msg(&mut v, "units_3_4".to_owned()),
            _ => {},
        }
        let ghost a3 = crate::search::strings_view(v@);
        match s.purpose {
            MiPurpose::CashOutRefi => crate::search::push_msg(&mut v, "cash_out_refi".to_owned()),
            MiPurpose::RateTermRefi => crate::search::push_msg(&mut v, "rate_term_refi".to_owned()),
            MiPurpose::Purchase => {},
        }
        let ghost a4 = crate::search::strings_view(v@);
        if s.is_relocation {
            crate::search::push_msg(&mut v, "relocation".to_owned());
        }
        let ghost a5 = crate::search::strings_view(v@);
        match s.dti_tier.adjustment_key() {
            Some(base) => {
                let mut n = String::new();
                n.append(base);
                n.append("@");
                n.append(band_label_str(s.ltv.0));
                crate::search::push_msg(&mut v, n);
            },
            None => {},
        }
        assert(crate::search::strings_view(v@) =~= mi_adjustment_names(*s));
        v
    }

    /// The card's value of a named adjustment for the scenario's score.
    pub fn adjustment_value(&self, s: &MiScenario, name: &str) -> (r: Option<i32>)
        ensures
            match r {
                Some(v) => adjustment_value_of(*self, *s, name@) == Some(v as int),
                None => adjustment_value_of(*self, *s, name@) is None,
            },
    {
        let ai = match find_key(&self.adjustments, name) {
            None => return None,
            Some(k) => k,
        };
        let vals = &self.adjustments[ai].1;
        let si = match self.score_bucket(s.indicator_score.0) {
            None => return None,
            Some(k) => k,
        };
        let col = match Self::score_col(&self.adjustment_order, self.score_buckets[si].0.as_str()) {
            None => return None,
            Some(c) => c,
        };
        if col < vals.len() {
            vals[col]
        } else {
            None
        }
    }

    /// The card's minimum rate for a plan, zero when it has none.
    fn min_rate(&self, plan: MiPlan) -> (r: i32)
        ensures
            r == min_rate_of(*self, plan),
    {
        match find_key(&self.min_rate_milli_pct, plan.grid_key()) {
            Some(k) => self.min_rate_milli_pct[k].1,
            None => 0,
        }
    }

    fn provenance(&self, file: &str, s: &MiScenario, req: u16, res: u16) -> (p: Provenance)
        ensures
            prov_is(
                p,
                self.company.spec_dataset(),
                file@,
                self.source_citation@,
                self.effective_date@,
                mi_record(*s),
                req,
                res,
            ),
    {
        let mut record = String::new();
        record.append(s.plan.grid_key());
        record.append("_");
        record.append(if s.is_fixed { "fixed" } else { "nonfixed" });
        record.append("_");
        push_dec_u64(&mut record, s.indicator_score.0 as u64);
        record.append("_");
        push_dec_u64(&mut record, s.ltv.0 as u64);
        assert(record@ =~= mi_record(*s));
        Provenance {
            dataset: self.company.dataset().to_owned(),
            source_file: file.to_owned(),
            source_citation: self.source_citation.clone(),
            effective_date: self.effective_date.clone(),
            record_id: record,
            requested_version: req,
            resolved_version: res,
        }
    }
}

/// The LTV band label used by some adjustment keys.
fn band_label_str(ltv: u32) -> (s: &'static str)
    ensures
        s@ == band_label(ltv),
{
    if ltv > 9500 {
        "97"
    } else if ltv > 9000 {
        "95"
    } else if ltv > 8500 {
        "90"
    } else {
        "85"
    }
}

/// Appends an adjustment line.
fn push_mi_adj(v: &mut Vec<MiAdjustment>, a: MiAdjustment)
    ensures
        mi_adjs_view(final(v)@) == mi_adjs_view(old(v)@).push(a.view3()),
{
    v.push(a);
    assert(mi_adjs_view(v@) =~= mi_adjs_view(old(v)@).push(a.view3()));
}

/// The non-zero adjustment lines of the scenario, with the net rate before
/// the floor (the base plus their sum).
fn collect_adjustments(card: &MiCardFile, s: &MiScenario, base: i32) -> (r: (Vec<MiAdjustment>, i32))
    requires
        mi_in_range(*card, *s),
        base_rate_of(*card, *s) == Ok::<int, Seq<char>>(base as int),
    ensures
        mi_adjs_view(r.0@) == quote_adjs(*card, *s),
        r.1 == base + sum_bps(quote_adjs(*card, *s)),
{
    let names = MiCardFile::applicable_adjustments(s);
    let ghost nv = crate::search::strings_view(names@);
    let mut adjustments: Vec<MiAdjustment> = Vec::new();
    let mut net: i32 = base;
    let mut i: usize = 0;
    while i < names.len()
        invariant
            0 <= i <= names@.len(),
            nv == crate::search::strings_view(names@),
            nv == mi_adjustment_names(*s),
            mi_in_range(*card, *s),
            base_rate_of(*card, *s) == Ok::<int, Seq<char>>(base as int),
            mi_adjs_view(adjustments@) == mi_adjs(*card, *s, nv.take(i as int)),
            net == base + sum_bps(mi_adjs(*card, *s, nv.take(i as int))),
        decreases names@.len() - i,
    {
        proof {
            assert(nv.take(i + 1).drop_last() =~= nv.take(i as int));
            assert(nv.take(i + 1).last() == names@[i as int]@);
            lemma_mi_adjs_prefix(*card, *s, nv, i as int + 1);
        }
        let name = &names[i];
        let ghost prev = mi_adjs(*card, *s, nv.take(i as int));
        let ghost next = mi_adjs(*card, *s, nv.take(i + 1));
        match card.adjustment_value(s, name.as_str()) {
            Some(v) => {
                if v == 0 {
                    assert(next == prev);
                }
                if v != 0 {
                    proof {
                        let prev = mi_adjs(*card, *s, nv.take(i as int));
                        let next = mi_adjs(*card, *s, nv.take(i + 1));
                        let q = quote_adjs(*card, *s);
                        assert(next == prev.push(("MiAdjustment"@, name@, v as int)));
                        assert(next.drop_last() =~= prev);
                        assert(sum_bps(next) == sum_bps(prev) + v);
                        assert(next == q.take(next.len() as int));
                        assert(i32::MIN <= base + sum_bps(q.take(next.len() as int)) <= i32::MAX);
                    }
                    push_mi_adj(
                        &mut adjustments,
                        MiAdjustment {
                            adjustment_type: "MiAdjustment".to_owned(),
                            description: name.clone(),
                            milli_pct: v,
                        },
                    );
                    net = net + v;
                }
            },
            None => {
                assert(next == prev);
            },
        }
        i = i + 1;
    }
    assert(nv.take(i as int) =~= nv);
    (adjustments, net)
}

/// The adjustments for a prefix of the names are a prefix of the quote's,
/// so their running sums are among those `mi_in_range` bounds.
proof fn lemma_mi_adjs_prefix(c: MiCardFile, s: MiScenario, names: Seq<Seq<char>>, k: int)
    requires
        0 <= k <= names.len(),
    ensures
        mi_adjs(c, s, names.take(k)).len() <= mi_adjs(c, s, names).len(),
        mi_adjs(c, s, names.take(k)) == mi_adjs(c, s, names).take(
            mi_adjs(c, s, names.take(k)).len() as int,
        ),
    decreases names.len() - k,
{
    if k == names.len() {
        assert(names.take(k) =~= names);
        assert(mi_adjs(c, s, names).take(mi_adjs(c, s, names).len() as int) =~= mi_adjs(c, s, names));
    } else {
        lemma_mi_adjs_prefix(c, s, names.drop_last(), k);
        assert(names.drop_last().take(k) =~= names.take(k));
        let a = mi_adjs(c, s, names.take(k));
        let p = mi_adjs(c, s, names.drop_last());
        let full = mi_adjs(c, s, names);
        assert(full == p || full == p.push(full.last()));
        if full != p {
            assert(full.take(a.len() as int) =~= p.take(a.len() as int));
        }
    }
}

/// Sum of the milli-percent of a list of adjustment lines.
fn sum_lines(v: &Vec<MiAdjustment>) -> (t: i64)
    requires
        v@.len() < 0x1000_0000,
    ensures
        t == sum_bps(mi_adjs_view(v@)),
{
    let mut t: i64 = 0;
    let mut i: usize = 0;
    while i < v.len()
        invariant
            0 <= i <= v@.len(),
            v@.len() < 0x1000_0000,
            t == sum_bps(mi_adjs_view(v@).take(i as int)),
            -0x8000_0000 * i <= t <= 0x8000_0000 * i,
        decreases v@.len() - i,
    {
        proof {
            assert(mi_adjs_view(v@).take(i + 1).drop_last() =~= mi_adjs_view(v@).take(i as int));
        }
        t = t + v[i].milli_pct as i64;
        i = i + 1;
    }
    assert(mi_adjs_view(v@).take(i as int) =~= mi_adjs_view(v@));
    t
}

/// Each name contributes at most one adjustment line.
proof fn lemma_mi_adjs_len(c: MiCardFile, s: MiScenario, names: Seq<Seq<char>>)
    ensures
        mi_adjs(c, s, names).len() <= names.len(),
    decreases names.len(),
{
    if names.len() > 0 {
        lemma_mi_adjs_len(c, s, names.drop_last());
    }
}

/// Records the quote trail.
fn record_quote_steps(
    d: &mut Derived<MiRateQuote>,
    card: &MiCardFile,
    s: &MiScenario,
    base: i32,
    adj_count: usize,
    adj_sum: i32,
    floored: bool,
    floor: i32,
    premium: Cents,
)
    ensures
        final(d).value == old(d).value,
        final(d).provenance == old(d).provenance,
        rule_names(final(d).steps@) == rule_names(old(d).steps@) + seq!["base_rate"@] + listed_if(
            adj_count > 0,
            "adjustments"@,
        ) + listed_if(floored, "min_rate_floor"@) + seq!["net_rate"@],
        step_texts(final(d).steps@) == step_texts(old(d).steps@) + quote_steps(
            card.company,
            *s,
            base as int,
            adj_count as nat,
            adj_sum as int,
            floored,
            floor as int,
            old(d).value.net_milli_pct as int,
            premium.0 as int,
        ),
{
    let ghost start = rule_names(d.steps@);
    let ghost tstart = step_texts(d.steps@);
    let mut b_in = String::new();
    b_in.append(card.company.name());
    b_in.append(" ");
    b_in.append(s.plan.grid_key());
    b_in.append(if s.is_fixed { " fixed" } else { " non-fixed" });
    b_in.append(" score=");
    push_dec_u64(&mut b_in, s.indicator_score.0 as u64);
    b_in.append(" ltv=");
    push_pct2(&mut b_in, s.ltv.0 as u64);
    b_in.append("% cov=");
    push_dec_u64(&mut b_in, s.coverage_percent as u64);
    b_in.append("%");
    let mut b_out = String::new();
    b_out.append("base ");
    push_dec_i64(&mut b_out, base as i64);
    b_out.append(" milli-pct");
    d.push_step("base_rate", b_in, b_out);
    if adj_count > 0 {
        let mut a_in = String::new();
        push_dec_u64(&mut a_in, adj_count as u64);
        a_in.append(" applied");
        let mut a_out = String::new();
        a_out.append("sum ");
        push_dec_i64(&mut a_out, adj_sum as i64);
        a_out.append(" milli-pct");
        d.push_step("adjustments", a_in, a_out);
    }
    if floored {
        let mut f_in = String::new();
        f_in.append("floor ");
        push_dec_i64(&mut f_in, floor as i64);
        f_in.append(" milli-pct");
        d.push_step("min_rate_floor", f_in, "net raised to floor".to_owned());
    }
    let net = d.value.net_milli_pct;
    let mut n_in = String::new();
    n_in.append("dti_tier=");
    n_in.append(s.dti_tier.name());
    n_in.append(" (assumed qualified pre-app)");
    let mut n_out = String::new();
    n_out.append("net ");
    push_dec_i64(&mut n_out, net as i64);
    n_out.append(" milli-pct = ");
    push_milli3(&mut n_out, net as i64);
    n_out.append("% annual (");
    push_cents(&mut n_out, premium.0);
    n_out.append(" / yr on ");
    push_cents(&mut n_out, s.loan_amount.0);
    n_out.append(")");
    d.push_step("net_rate", n_in, n_out);
    assert(rule_names(d.steps@) =~= start + seq!["base_rate"@] + listed_if(
        adj_count > 0,
        "adjustments"@,
    ) + listed_if(floored, "min_rate_floor"@) + seq!["net_rate"@]);
    assert(step_texts(d.steps@) =~= tstart + quote_steps(
        card.company,
        *s,
        base as int,
        adj_count as nat,
        adj_sum as int,
        floored,
        floor as int,
        net as int,
        premium.0 as int,
    ));
}

/// Produces an estimated PMI rate quote from `card` for `scenario`: the base
/// grid rate, plus each non-zero applicable adjustment, raised to the
/// plan's minimum rate.
pub fn quote(card: &MiCardFile, card_file: &str, scenario: &MiScenario, req: u16, res: u16) -> (r:
    Result<Derived<MiRateQuote>, MiUnavailable>)
    requires
        mi_card_keys_distinct(*card),
        mi_in_range(*card, *scenario),
    ensures
        match r {
            Err(e) => base_rate_of(*card, *scenario) == Err::<int, Seq<char>>(e.reason@),
            Ok(d) => {
                &&& base_rate_of(*card, *scenario) == Ok::<int, Seq<char>>(
                    d.value.base_milli_pct as int,
                )
                &&& d.value.company == card.company
                &&& d.value.plan == scenario.plan
                &&& mi_adjs_view(d.value.adjustments@) == quote_adjs(*card, *scenario)
                &&& d.value.floored == (unfloored_of(*card, *scenario) < min_rate_of(
                    *card,
                    scenario.plan,
                ))
                &&& d.value.net_milli_pct == if d.value.floored {
                    min_rate_of(*card, scenario.plan)
                } else {
                    unfloored_of(*card, *scenario)
                }
                &&& unfloored_of(*card, *scenario) == d.value.base_milli_pct + sum_bps(
                    mi_adjs_view(d.value.adjustments@),
                )
                &&& d.value.net_milli_pct >= min_rate_of(*card, scenario.plan)
                &&& forall|k: int|
                    0 <= k < d.value.adjustments@.len() ==> #[trigger] d.value.adjustments@[k].milli_pct != 0
                &&& prov_is(
                    d.provenance,
                    card.company.spec_dataset(),
                    card_file@,
                    card.source_citation@,
                    card.effective_date@,
                    mi_record(*scenario),
                    req,
                    res,
                )
                &&& rule_names(d.steps@) == mi_rules(*card, *scenario)
                &&& step_texts(d.steps@) == mi_trail(*card, *scenario)
            },
        },
{
    let base = match card.base_rate(scenario) {
        Err(e) => return Err(e),
        Ok(b) => b,
    };
    let (adjustments, unfloored) = collect_adjustments(card, scenario, base);
    let floor = card.min_rate(scenario.plan);
    let floored = unfloored < floor;
    let net = if floored { floor } else { unfloored };
    proof {
        lemma_mi_adjs_len(*card, *scenario, mi_adjustment_names(*scenario));
        let q = quote_adjs(*card, *scenario);
        assert(q.take(q.len() as int) =~= q);
    }
    let adj_count = adjustments.len();
    let adj_sum = sum_lines(&adjustments);
    let q = MiRateQuote {
        company: card.company,
        plan: scenario.plan,
        base_milli_pct: base,
        adjustments,
        net_milli_pct: net,
        floored,
    };
    let premium = q.annual_premium(scenario.loan_amount);
    let prov = card.provenance(card_file, scenario, req, res);
    let mut d = Derived::new(q, prov);
    record_quote_steps(
        &mut d,
        card,
        scenario,
        base,
        adj_count,
        adj_sum as i32,
        floored,
        floor,
        premium,
    );
    assert(rule_names(d.steps@) =~= mi_rules(*card, *scenario));
    assert(step_texts(d.steps@) =~= mi_trail(*card, *scenario));
    proof {
        let names = mi_adjustment_names(*scenario);
        lemma_adjustments_are_applicable(*card, *scenario, names);
        assert forall|k: int| 0 <= k < d.value.adjustments@.len() implies #[trigger] d.value.adjustments@[k].milli_pct
            != 0 by {
            assert(mi_adjs_view(d.value.adjustments@) == quote_adjs(*card, *scenario));
            assert(mi_adjs_view(d.value.adjustments@).len() == d.value.adjustments@.len());
            assert(mi_adjs_view(d.value.adjustments@)[k] == d.value.adjustments@[k].view3());
            assert(0 <= k < mi_adjs(*card, *scenario, names).len());
            assert(names.contains(mi_adjs(*card, *scenario, names)[k].1));
            assert(mi_adjs(*card, *scenario, names)[k].2 != 0);
        }
    }
    Ok(d)
}

/// A quote's net rate is never below the plan's minimum rate, and equals
/// the base plus adjustments whenever that is at or above the minimum.
pub proof fn lemma_net_respects_min_rate(c: MiCardFile, s: MiScenario)
    ensures
        (if unfloored_of(c, s) < min_rate_of(c, s.plan) {
            min_rate_of(c, s.plan)
        } else {
            unfloored_of(c, s)
        }) >= min_rate_of(c, s.plan),
        unfloored_of(c, s) >= min_rate_of(c, s.plan) ==> (if unfloored_of(c, s) < min_rate_of(
            c,
            s.plan,
        ) {
            min_rate_of(c, s.plan)
        } else {
            unfloored_of(c, s)
        }) == unfloored_of(c, s),
{
}

/// Each applicable name contributes at most one line, and every line names
/// an applicable adjustment with a non-zero value.
pub proof fn lemma_adjustments_are_applicable(c: MiCardFile, s: MiScenario, names: Seq<Seq<char>>)
    ensures
        mi_adjs(c, s, names).len() <= names.len(),
        forall|i: int|
            0 <= i < mi_adjs(c, s, names).len() ==> names.contains(#[trigger] mi_adjs(c, s, names)[i].1)
                && mi_adjs(c, s, names)[i].2 != 0 && adjustment_value_of(c, s, mi_adjs(c, s, names)[i].1)
                == Some(mi_adjs(c, s, names)[i].2),
    decreases names.len(),
{
    if names.len() > 0 {
        let p = names.drop_last();
        lemma_adjustments_are_applicable(c, s, p);
        assert forall|i: int| 0 <= i < mi_adjs(c, s, names).len() implies names.contains(
            #[trigger] mi_adjs(c, s, names)[i].1,
        ) && mi_adjs(c, s, names)[i].2 != 0 && adjustment_value_of(c, s, mi_adjs(c, s, names)[i].1)
            == Some(mi_adjs(c, s, names)[i].2) by {
            if i < mi_adjs(c, s, p).len() {
                let k = choose|k: int| 0 <= k < p.len() && p[k] == mi_adjs(c, s, p)[i].1;
                assert(names[k] == p[k]);
            } else {
                assert(names[names.len() - 1] == names.last());
            }
        }
    }
}

/// Which card adjustments a scenario draws, named by the card's keys: the
/// refinance ones exactly for that purpose (so a refinance is never priced
/// as a purchase), the occupancy and property-type ones exactly for those,
/// relocation exactly for relocation loans, the two-borrower credit exactly
/// with two or more borrowers, and a DTI adjustment exactly for its tier,
/// the last two at the scenario's LTV band.
pub proof fn lemma_adjustment_names_by_scenario(s: MiScenario)
    ensures
        mi_adjustment_names(s).contains("rate_term_refi"@) <==> s.purpose == MiPurpose::RateTermRefi,
        mi_adjustment_names(s).contains("cash_out_refi"@) <==> s.purpose == MiPurpose::CashOutRefi,
        mi_adjustment_names(s).contains("second_home"@) <==> s.occupancy == MiOccupancy::SecondHome,
        mi_adjustment_names(s).contains("investment_property"@) <==> s.occupancy == MiOccupancy::Investment,
        mi_adjustment_names(s).contains("manufactured_housing"@) <==> s.property_type
            == MiPropertyType::ManufacturedHousing,
        mi_adjustment_names(s).contains("units_3_4"@) <==> s.property_type == MiPropertyType::Units3to4,
        mi_adjustment_names(s).contains("relocation"@) <==> s.is_relocation,
        mi_adjustment_names(s).contains("ge2_borrowers@"@ + band_label(s.ltv.0)) <==> s.borrower_count >= 2,
        mi_adjustment_names(s).contains("dti_45_50"@ + "@"@ + band_label(s.ltv.0)) <==> s.dti_tier == DtiTier::Elevated,
        mi_adjustment_names(s).contains("dti_gt_50"@ + "@"@ + band_label(s.ltv.0)) <==> s.dti_tier == DtiTier::High,
{
    reveal_strlit("rate_term_refi");
    reveal_strlit("cash_out_refi");
    reveal_strlit("second_home");
    reveal_strlit("investment_property");
    reveal_strlit("manufactured_housing");
    reveal_strlit("units_3_4");
    reveal_strlit("relocation");
    reveal_strlit("ge2_borrowers@");
    reveal_strlit("dti_45_50");
    reveal_strlit("dti_gt_50");
    reveal_strlit("@");
    let band = band_label(s.ltv.0);
    let lits = seq![
        "rate_term_refi"@,
        "cash_out_refi"@,
        "second_home"@,
        "investment_property"@,
        "manufactured_housing"@,
        "units_3_4"@,
        "relocation"@,
        "ge2_borrowers@"@ + band,
        "dti_45_50"@ + "@"@ + band,
        "dti_gt_50"@ + "@"@ + band,
    ];
    assert(lits[0][0] == 'r' && lits[0].len() == 14 && lits[6][0] == 'r' && lits[6].len() == 10);
    assert(lits[1][0] == 'c' && lits[2][0] == 's' && lits[3][0] == 'i' && lits[4][0] == 'm' && lits[5][0] == 'u');
    assert(lits[7][0] == 'g' && lits[8][0] == 'd' && lits[9][0] == 'd' && lits[8][4] == '4' && lits[9][4] == 'g');
    let g = listed_if(s.borrower_count >= 2, "ge2_borrowers@"@ + band);
    let a: Seq<Seq<char>> = match s.occupancy {
        MiOccupancy::SecondHome => seq!["second_home"@],
        MiOccupancy::Investment => seq!["investment_property"@],
        MiOccupancy::Primary => Seq::empty(),
    };
    let b: Seq<Seq<char>> = match s.property_type {
        MiPropertyType::ManufacturedHousing => seq!["manufactured_housing"@],
        MiPropertyType::Units3to4 => seq!["units_3_4"@],
        _ => Seq::empty(),
    };
    let c: Seq<Seq<char>> = match s.purpose {
        MiPurpose::CashOutRefi => seq!["cash_out_refi"@],
        MiPurpose::RateTermRefi => Seq::empty().push("rate_term_refi"@),
        MiPurpose::Purchase => Seq::empty(),
    };
    let r = listed_if(s.is_relocation, "relocation"@);
    let d: Seq<Seq<char>> = match s.dti_tier.spec_adjustment_key() {
        Some(k) => seq![k + "@"@ + band],
        None => Seq::empty(),
    };
    assert(mi_adjustment_names(s) == g + a + b + c + r + d);
    assert forall|k: int| 0 <= k < 10 implies (mi_adjustment_names(s).contains(#[trigger] lits[k]) <==> (
    g.contains(lits[k]) || a.contains(lits[k]) || b.contains(lits[k]) || c.contains(lits[k]) || r.contains(
        lits[k],
    ) || d.contains(lits[k]))) by {
        let x = lits[k];
        lemma_contains_concat(g + a + b + c + r, d, x);
        lemma_contains_concat(g + a + b + c, r, x);
        lemma_contains_concat(g + a + b, c, x);
        lemma_contains_concat(g + a, b, x);
        lemma_contains_concat(g, a, x);
    }
    assert forall|k: int| 0 <= k < 10 implies {
        &&& (c.contains(#[trigger] lits[k]) <==> (k == 0 && s.purpose == MiPurpose::RateTermRefi) || (k == 1
            && s.purpose == MiPurpose::CashOutRefi))
        &&& (a.contains(lits[k]) <==> (k == 2 && s.occupancy == MiOccupancy::SecondHome) || (k == 3 && s.occupancy
            == MiOccupancy::Investment))
        &&& (b.contains(lits[k]) <==> (k == 4 && s.property_type == MiPropertyType::ManufacturedHousing) || (k
            == 5 && s.property_type == MiPropertyType::Units3to4))
        &&& (r.contains(lits[k]) <==> k == 6 && s.is_relocation)
        &&& (g.contains(lits[k]) <==> k == 7 && s.borrower_count >= 2)
        &&& (d.contains(lits[k]) <==> (k == 8 && s.dti_tier == DtiTier::Elevated) || (k == 9 && s.dti_tier
            == DtiTier::High))
    } by {
        let x = lits[k];
        lemma_contains_listed(true, "rate_term_refi"@, x);
        lemma_contains_listed(true, "cash_out_refi"@, x);
        lemma_contains_listed(true, "second_home"@, x);
        lemma_contains_listed(true, "investment_property"@, x);
        lemma_contains_listed(true, "manufactured_housing"@, x);
        lemma_contains_listed(true, "units_3_4"@, x);
        lemma_contains_listed(s.is_relocation, "relocation"@, x);
        lemma_contains_listed(s.borrower_count >= 2, "ge2_borrowers@"@ + band, x);
        lemma_contains_listed(true, "dti_45_50"@ + "@"@ + band, x);
        lemma_contains_listed(true, "dti_gt_50"@ + "@"@ + band, x);
        assert forall|j: int| 0 <= j < 10 && j != k implies lits[j] != x by {
            if lits[j] == x {
                assert(lits[j][0] == x[0]);
                assert(lits[j].len() == x.len());
                if lits[j][0] == 'd' {
                    assert(lits[j][4] == x[4]);
                }
            }
        }
    }
    assert(lits[7] == "ge2_borrowers@"@ + band);
}

/// A drawn adjustment whose card value is non-zero gets its line.
proof fn lemma_mi_line_present(c: MiCardFile, s: MiScenario, names: Seq<Seq<char>>, n: Seq<char>, v: int)
    requires
        names.contains(n),
        adjustment_value_of(c, s, n) == Some(v),
        v != 0,
    ensures
        mi_adjs(c, s, names).contains(("MiAdjustment"@, n, v)),
    decreases names.len(),
{
    let prev = names.drop_last();
    let r = mi_adjs(c, s, names);
    let line = ("MiAdjustment"@, n, v);
    if names.last() == n {
        assert(r == mi_adjs(c, s, prev).push(line));
        assert(r[r.len() - 1] == line);
    } else {
        let j = choose|j: int| 0 <= j < names.len() && names[j] == n;
        assert(prev[j] == n);
        lemma_mi_line_present(c, s, prev, n, v);
        let q = mi_adjs(c, s, prev);
        let i = choose|i: int| 0 <= i < q.len() && q[i] == line;
        assert(r[i] == line);
    }
}

/// A refinance is priced as one: a rate-and-term or cash-out refinance
/// quote carries the card's adjustment for its purpose whenever that value
/// is non-zero at the borrower's score, and a purchase draws neither.
pub proof fn lemma_refinance_is_priced(c: MiCardFile, s: MiScenario, v: int)
    requires
        v != 0,
    ensures
        s.purpose == MiPurpose::RateTermRefi && adjustment_value_of(c, s, "rate_term_refi"@) == Some(v)
            ==> quote_adjs(c, s).contains(("MiAdjustment"@, "rate_term_refi"@, v)),
        s.purpose == MiPurpose::CashOutRefi && adjustment_value_of(c, s, "cash_out_refi"@) == Some(v)
            ==> quote_adjs(c, s).contains(("MiAdjustment"@, "cash_out_refi"@, v)),
        s.purpose == MiPurpose::Purchase ==> !mi_adjustment_names(s).contains("rate_term_refi"@)
            && !mi_adjustment_names(s).contains("cash_out_refi"@),
{
    lemma_adjustment_names_by_scenario(s);
    if s.purpose == MiPurpose::RateTermRefi && adjustment_value_of(c, s, "rate_term_refi"@) == Some(v) {
        lemma_mi_line_present(c, s, mi_adjustment_names(s), "rate_term_refi"@, v);
    }
    if s.purpose == MiPurpose::CashOutRefi && adjustment_value_of(c, s, "cash_out_refi"@) == Some(v) {
        lemma_mi_line_present(c, s, mi_adjustment_names(s), "cash_out_refi"@, v);
    }
}

} // verus!
