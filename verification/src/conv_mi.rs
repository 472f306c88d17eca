//! Conventional mortgage insurance coverage requirements, provider monthly
//! rates and USDA guarantee fees.
//!
//! Coverage follows the Fannie Mae / Freddie Mac tables by program, term,
//! manufactured-home status and LTV. Underwriting uses the standard coverage
//! unless the lender opted into minimum coverage (with its LLPA).

use vstd::prelude::*;
use crate::money::{
    bps_share, monthly_ceil, monthly_ceil_cents, share_cents, Cents,
};
use crate::search::{first_where, lemma_first_where_hit, lemma_first_where_none};
use crate::text::str_eq;

verus! {

/// Conventional MI program; affects required coverage.
#[derive(Clone, Copy, Debug, PartialEq, Eq, Structural)]
pub enum ConvMiProgram {
    /// Standard conventional loan.
    Standard,
    /// Fannie Mae HomeReady: reduced MI at 97% LTV.
    HomeReady,
    /// Freddie Mac Home Possible: same reduced MI as HomeReady.
    HomePossible,
}

impl ConvMiProgram {
    /// The program's key in the coverage table.
    pub open spec fn spec_key(self) -> Seq<char> {
        match self {
            ConvMiProgram::Standard => "standard"@,
            ConvMiProgram::HomeReady => "home_ready"@,
            ConvMiProgram::HomePossible => "home_possible"@,
        }
    }

    /// The program's key in the coverage table.
    pub fn key(self) -> (s: &'static str)
        ensures
            s@ == self.spec_key(),
    {
        match self {
            ConvMiProgram::Standard => "standard",
            ConvMiProgram::HomeReady => "home_ready",
            ConvMiProgram::HomePossible => "home_possible",
        }
    }
}

/// Parameters for looking up required MI coverage.
#[derive(Clone, Debug)]
pub struct ConvMiInput {
    pub program: ConvMiProgram,
    /// Loan term in months (≤ 240 is the short-term bucket).
    pub term_months: u16,
    /// LTV in basis points at origination.
    pub ltv_bps: u32,
    /// ARMs follow the same coverage table as fixed loans over 20 years.
    pub is_arm: bool,
    /// Standard manufactured home (not MH Advantage / CHOICEHome).
    pub is_standard_manufactured: bool,
}

/// Required MI coverage percentages.
#[derive(Clone, Copy, Debug, PartialEq, Eq, Structural)]
pub struct ConvMiCoverage {
    /// Standard (agency-mandated) coverage percentage.
    pub standard_pct: u8,
    /// Minimum coverage allowed with an MI LLPA surcharge.
    pub minimum_pct: u8,
    /// True when using the minimum coverage triggers an LLPA.
    pub llpa_with_minimum: bool,
}

/// One row of the coverage table.
#[derive(Clone, Debug)]
pub struct ConvMiCoverageRow {
    /// "standard" | "home_ready" | "home_possible".
    pub program: String,
    /// Row for fixed-rate loans with term ≤ 20 years.
    pub term_le_20yr: bool,
    /// Row for ARMs and fixed loans with term > 20 years.
    pub is_standard_term: bool,
    /// Row for standard manufactured homes.
    pub is_manufactured: bool,
    /// Exclusive lower LTV bound.
    pub ltv_min_bps: u32,
    /// Inclusive upper LTV bound.
    pub ltv_max_bps: u32,
    pub standard_coverage_pct: u8,
    pub minimum_coverage_pct: u8,
    pub llpa_with_minimum: bool,
}

/// The coverage table.
#[derive(Clone, Debug)]
pub struct ConvMiCoverageTable {
    pub effective_date: String,
    pub rows: Vec<ConvMiCoverageRow>,
}

/// The coverage row applies to the input: same program and manufactured
/// status, a term bucket the row allows, and the LTV in `(min, max]`.
pub open spec fn coverage_row_matches(r: ConvMiCoverageRow, i: ConvMiInput) -> bool {
    let le_20 = !i.is_arm && i.term_months <= 240;
    let std_term = i.is_arm || i.term_months > 240;
    &&& r.program@ == i.program.spec_key()
    &&& r.is_manufactured == i.is_standard_manufactured
    &&& (r.term_le_20yr ==> le_20)
    &&& (r.is_standard_term ==> std_term)
    &&& r.ltv_min_bps < i.ltv_bps <= r.ltv_max_bps
}

/// The coverage of a row.
pub open spec fn coverage_of(r: ConvMiCoverageRow) -> ConvMiCoverage {
    ConvMiCoverage {
        standard_pct: r.standard_coverage_pct,
        minimum_pct: r.minimum_coverage_pct,
        llpa_with_minimum: r.llpa_with_minimum,
    }
}

/// The coverage of the first row of the table that applies, if any.
pub open spec fn coverage_lookup_of(t: ConvMiCoverageTable, i: ConvMiInput) -> Option<ConvMiCoverage> {
    match first_where(t.rows@, |row: ConvMiCoverageRow| coverage_row_matches(row, i)) {
        Some(row) => Some(coverage_of(row)),
        None => None,
    }
}

impl ConvMiCoverageTable {
    /// The coverage of the first row that applies, if any.
    pub fn lookup(&self, input: &ConvMiInput) -> (r: Option<ConvMiCoverage>)
        ensures
            r == coverage_lookup_of(*self, *input),
    {
        let ghost pred = |row: ConvMiCoverageRow| coverage_row_matches(row, *input);
        let prog_str = input.program.key();
        let is_le_20yr = !input.is_arm && input.term_months <= 240;
        let is_standard_term = input.is_arm || input.term_months > 240;
        let mut i: usize = 0;
        while i < self.rows.len()
            invariant
                0 <= i <= self.rows@.len(),
                pred == (|row: ConvMiCoverageRow| coverage_row_matches(row, *input)),
                prog_str@ == input.program.spec_key(),
                is_le_20yr == (!input.is_arm && input.term_months <= 240),
                is_standard_term == (input.is_arm || input.term_months > 240),
                forall|j: int| 0 <= j < i ==> !pred(#[trigger] self.rows@[j]),
            decreases self.rows@.len() - i,
        {
            let row = &self.rows[i];
            if str_eq(row.program.as_str(), prog_str)
                && input.is_standard_manufactured == row.is_manufactured
                && (!row.term_le_20yr || is_le_20yr) && (!row.is_standard_term || is_standard_term)
                && input.ltv_bps > row.ltv_min_bps && input.ltv_bps <= row.ltv_max_bps {
                proof {
                    lemma_first_where_hit(self.rows@, pred, i as int);
                }
                return Some(
                    ConvMiCoverage {
                        standard_pct: row.standard_coverage_pct,
                        minimum_pct: row.minimum_coverage_pct,
                        llpa_with_minimum: row.llpa_with_minimum,
                    },
                );
            }
            i = i + 1;
        }
        proof {
            lemma_first_where_none(self.rows@, pred);
        }
        None
    }
}

/// FICO band boundaries of the MI rate tables, `(min, max)` inclusive:
/// 760+, 740–759, …, 620–639.
pub open spec fn fico_bands() -> Seq<(u16, u16)> {
    seq![(760, 999), (740, 759), (720, 739), (700, 719), (680, 699), (660, 679), (640, 659), (620, 639)]
}

/// The index of the FICO band holding a score, if any.
pub open spec fn fico_band_of(fico: u16) -> Option<int> {
    if 760 <= fico <= 999 {
        Some(0)
    } else if 740 <= fico <= 759 {
        Some(1)
    } else if 720 <= fico <= 739 {
        Some(2)
    } else if 700 <= fico <= 719 {
        Some(3)
    } else if 680 <= fico <= 699 {
        Some(4)
    } else if 660 <= fico <= 679 {
        Some(5)
    } else if 640 <= fico <= 659 {
        Some(6)
    } else if 620 <= fico <= 639 {
        Some(7)
    } else {
        None
    }
}

/// The FICO bands, in table order.
pub fn fico_band_bounds() -> (b: Vec<(u16, u16)>)
    ensures
        b@ == fico_bands(),
{
    let b = vec![
        (760u16, 999u16),
        (740, 759),
        (720, 739),
        (700, 719),
        (680, 699),
        (660, 679),
        (640, 659),
        (620, 639),
    ];
    assert(b@ =~= fico_bands());
    b
}

/// Position of the first FICO band holding the score.
fn fico_band(fico: u16) -> (r: Option<usize>)
    ensures
        match r {
            Some(k) => fico_band_of(fico) == Some(k as int),
            None => fico_band_of(fico) is None,
        },
{
    if 760 <= fico && fico <= 999 {
        Some(0)
    } else if 740 <= fico && fico <= 759 {
        Some(1)
    } else if 720 <= fico && fico <= 739 {
        Some(2)
    } else if 700 <= fico && fico <= 719 {
        Some(3)
    } else if 680 <= fico && fico <= 699 {
        Some(4)
    } else if 660 <= fico && fico <= 679 {
        Some(5)
    } else if 640 <= fico && fico <= 659 {
        Some(6)
    } else if 620 <= fico && fico <= 639 {
        Some(7)
    } else {
        None
    }
}

/// Parameters for looking up a provider's MI premium rate.
#[derive(Clone, Debug)]
pub struct MiRateInput {
    /// LTV at origination in bps.
    pub ltv_bps: u32,
    /// MI coverage percentage required.
    pub coverage_pct: u8,
    /// Representative credit score.
    pub fico: u16,
    /// Loan term in months.
    pub term_months: u16,
    /// ARMs and loans with payment changes in the first 5 years.
    pub is_non_fixed: bool,
}

/// One row of a provider's rate table.
#[derive(Clone, Debug)]
pub struct MiMonthlyRow {
    /// Exclusive lower LTV bound.
    pub ltv_min_bps: u32,
    /// Inclusive upper LTV bound.
    pub ltv_max_bps: u32,
    pub coverage_pct: u8,
    /// Row for terms above 20 years (240 months).
    pub term_gt_20yr: bool,
    /// Annual rates in bps for the eight FICO bands.
    pub rates_by_fico: [u16; 8],
    /// Minimum annual rate in bps.
    pub floor_bps: u16,
}

/// The row floor used when a table row gives none: 14 bps (0.14% a year).
pub fn default_mi_floor() -> (f: u16)
    ensures
        f == 14,
{
    14
}

/// A provider's rate table.
#[derive(Clone, Debug)]
pub struct MiMonthlyTable {
    pub provider: String,
    pub effective_date: String,
    /// Annual floor after all adjustments.
    pub floor_bps: u16,
    pub rows: Vec<MiMonthlyRow>,
}

/// The row applies to the input: same coverage and term bucket, and the LTV
/// in `(min, max]`.
pub open spec fn rate_row_matches(r: MiMonthlyRow, i: MiRateInput) -> bool {
    &&& r.coverage_pct == i.coverage_pct
    &&& r.term_gt_20yr == (i.term_months > 240)
    &&& r.ltv_min_bps < i.ltv_bps <= r.ltv_max_bps
}

/// A non-fixed rate: 125% of the base, rounded half-up to a whole bps, as
/// 16 bits.
pub open spec fn non_fixed_rate(base: u16) -> u16 {
    ((base * 125 + 50) / 100) as u16
}

/// The annual rate in bps of the first matching row: its FICO band's rate
/// (125% for non-fixed loans), at least the table floor; `None` when no row
/// matches or the first matching row's band does not hold the score.
pub open spec fn annual_bps_of(t: MiMonthlyTable, i: MiRateInput) -> Option<u16> {
    match first_where(t.rows@, |r: MiMonthlyRow| rate_row_matches(r, i)) {
        None => None,
        Some(row) => match fico_band_of(i.fico) {
            None => None,
            Some(k) => {
                let base = row.rates_by_fico@[k];
                let rate = if i.is_non_fixed { non_fixed_rate(base) } else { base };
                Some(if rate >= t.floor_bps { rate } else { t.floor_bps })
            },
        },
    }
}

impl MiMonthlyTable {
    /// The base annual MI rate in bps for the scenario.
    pub fn lookup_annual_bps(&self, input: &MiRateInput) -> (r: Option<u16>)
        ensures
            r == annual_bps_of(*self, *input),
    {
        let ghost pred = |r: MiMonthlyRow| rate_row_matches(r, *input);
        let term_gt_20yr = input.term_months > 240;
        let mut i: usize = 0;
        while i < self.rows.len()
            invariant
                0 <= i <= self.rows@.len(),
                pred == (|r: MiMonthlyRow| rate_row_matches(r, *input)),
                term_gt_20yr == (input.term_months > 240),
                forall|j: int| 0 <= j < i ==> !pred(#[trigger] self.rows@[j]),
            decreases self.rows@.len() - i,
        {
            let row = &self.rows[i];
            if row.coverage_pct == input.coverage_pct && row.term_gt_20yr == term_gt_20yr
                && input.ltv_bps > row.ltv_min_bps && input.ltv_bps <= row.ltv_max_bps {
                proof {
                    lemma_first_where_hit(self.rows@, pred, i as int);
                }
                let k = match fico_band(input.fico) {
                    None => return None,
                    Some(k) => k,
                };
                let base_rate = row.rates_by_fico[k];
                let rate: u16 = if input.is_non_fixed {
                    let scaled: u32 = ((base_rate as u32) * 125 + 50) / 100;
                    #[verifier::truncate]
                    (scaled as u16)
                } else {
                    base_rate
                };
                return Some(if rate >= self.floor_bps { rate } else { self.floor_bps });
            }
            i = i + 1;
        }
        proof {
            lemma_first_where_none(self.rows@, pred);
        }
        None
    }

    /// Monthly MI for an outstanding principal: zero for a non-positive
    /// principal, else the annual rate's monthly part rounded up.
    pub fn monthly_mi(&self, input: &MiRateInput, outstanding_principal: Cents) -> (r: Option<Cents>)
        ensures
            r == (match annual_bps_of(*self, *input) {
                None => None,
                Some(b) => Some(
                    if outstanding_principal.0 <= 0 {
                        Cents(0)
                    } else {
                        Cents(monthly_ceil(outstanding_principal.0 as int, b as int) as i64)
                    },
                ),
            }),
    {
        let annual_bps = match self.lookup_annual_bps(input) {
            None => return None,
            Some(b) => b,
        };
        if outstanding_principal.0 <= 0 {
            return Some(Cents(0));
        }
        Some(Cents(monthly_ceil_cents(outstanding_principal.0, annual_bps as u32)))
    }
}

/// USDA Section 502 Guaranteed Loan fees: an upfront fee and an annual fee
/// on the outstanding principal, in basis points.
#[derive(Clone, Debug)]
pub struct UsdaGuaranteeFees {
    /// Upfront guarantee fee in bps (100 = 1.00%).
    pub upfront_fee_bps: u32,
    /// Annual fee in bps (35 = 0.35%).
    pub annual_fee_bps: u32,
    pub effective_date: String,
    pub fiscal_year: u16,
}

impl UsdaGuaranteeFees {
    /// Upfront fee for a base loan amount: `loan × bps / 10_000`, rounded
    /// toward zero.
    pub fn upfront_amount(&self, base_loan_cents: i64) -> (c: Cents)
        ensures
            c.0 == bps_share(base_loan_cents as int, self.upfront_fee_bps as int) as i64,
    {
        Cents(share_cents(base_loan_cents, self.upfront_fee_bps))
    }

    /// Monthly part of the annual fee on an outstanding principal, rounded
    /// up; zero for a non-positive principal.
    pub fn monthly_annual_fee(&self, outstanding_principal: Cents) -> (c: Cents)
        ensures
            outstanding_principal.0 <= 0 ==> c.0 == 0,
            outstanding_principal.0 > 0 ==> c.0 == monthly_ceil(
                outstanding_principal.0 as int,
                self.annual_fee_bps as int,
            ) as i64,
    {
        if outstanding_principal.0 <= 0 {
            return Cents(0);
        }
        Cents(monthly_ceil_cents(outstanding_principal.0, self.annual_fee_bps))
    }
}

/// A provider rate is never below the table's floor.
pub proof fn lemma_rate_at_least_floor(t: MiMonthlyTable, i: MiRateInput)
    ensures
        annual_bps_of(t, i) matches Some(r) ==> r >= t.floor_bps,
{
}

/// Scores outside 620–999 fall in no FICO band, so no provider rate is
/// quoted for them.
pub proof fn lemma_no_rate_below_620(t: MiMonthlyTable, i: MiRateInput)
    requires
        i.fico < 620 || i.fico > 999,
    ensures
        annual_bps_of(t, i) is None,
{
}

/// A score falls in band `k` exactly when `k` is one of the eight bands and
/// the score lies within that band's bounds: band `0` is 760–999 and band
/// `k ≥ 1` runs from `760 − 20k` to `779 − 20k`.
pub proof fn lemma_fico_band_holds_score(fico: u16, k: int)
    ensures
        fico_band_of(fico) == Some(k) <==> (0 <= k < fico_bands().len() && fico_bands()[k].0 <= fico
            <= fico_bands()[k].1),
        fico_band_of(fico) == Some(k) <==> (0 <= k < 8 && 760 - 20 * k <= fico && (if k == 0 {
            fico <= 999
        } else {
            fico <= 779 - 20 * k
        })),
        fico_band_of(fico) is None <==> (fico < 620 || fico > 999),
{
}

/// A higher score never falls in a riskier (higher-index) band.
pub proof fn lemma_fico_band_monotone(f1: u16, f2: u16)
    requires
        f1 <= f2,
        fico_band_of(f1) is Some,
        fico_band_of(f2) is Some,
    ensures
        fico_band_of(f2)->0 <= fico_band_of(f1)->0,
{
}

/// The fixed-rate annual premium of a scenario is the first matching row's
/// rate for the band in `fico_bands()` that holds the score, raised to the
/// table floor; a non-fixed loan pays 125% of that band's rate, rounded
/// half-up, raised to the floor.
pub proof fn lemma_rate_of_score_band(t: MiMonthlyTable, i: MiRateInput, row: MiMonthlyRow, k: int)
    requires
        first_where(t.rows@, |r: MiMonthlyRow| rate_row_matches(r, i)) == Some(row),
        0 <= k < 8,
        fico_bands()[k].0 <= i.fico <= fico_bands()[k].1,
    ensures
        !i.is_non_fixed ==> annual_bps_of(t, i) == Some(
            if row.rates_by_fico@[k] >= t.floor_bps { row.rates_by_fico@[k] } else { t.floor_bps },
        ),
        i.is_non_fixed ==> annual_bps_of(t, i) == Some(
            if ((row.rates_by_fico@[k] * 125 + 50) / 100) as u16 >= t.floor_bps {
                ((row.rates_by_fico@[k] * 125 + 50) / 100) as u16
            } else {
                t.floor_bps
            },
        ),
{
    lemma_fico_band_holds_score(i.fico, k);
}

} // verus!
