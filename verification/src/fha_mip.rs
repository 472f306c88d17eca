//! FHA mortgage insurance premium rates.
//!
//! Two parts: the upfront premium (UFMIP), financed into the loan, and the
//! annual premium, paid monthly as a twelfth of the annual rate on the
//! outstanding principal. Rate and duration depend on term, LTV and loan
//! size; the table's rows are tried in order and the first match wins.

use vstd::prelude::*;
use crate::money::{bps_share, lemma_monthly_fits, monthly_ceil, monthly_ceil_cents, share_cents, Cents};
use crate::search::{first_where, lemma_first_where_hit, lemma_first_where_none};

verus! {

/// FHA high-balance threshold ($726,200), used only when no table is at hand.
pub const FHA_HIGH_BALANCE_THRESHOLD_CENTS: i64 = 72_620_000;

/// How long annual MIP is assessed.
#[derive(Clone, Copy, Debug, PartialEq, Eq, Structural)]
pub enum MipDuration {
    /// A fixed number of years; coverage cancels automatically.
    Years(u8),
    /// The full loan term.
    LoanTerm,
}

/// Parameters needed to look up FHA MIP rates.
#[derive(Clone, Debug)]
pub struct FhaMipInput {
    /// Original loan term in months.
    pub term_months: u16,
    /// LTV at origination in basis points.
    pub ltv_bps: u32,
    /// Base loan amount in cents (detects high-balance loans).
    pub base_loan_cents: i64,
    /// Streamline / Simple Refi of a pre-June-2009 FHA endorsement.
    pub is_streamline_pre_2009: bool,
}

/// FHA MIP rates for a loan scenario.
#[derive(Clone, Copy, Debug, PartialEq, Eq, Structural)]
pub struct FhaMipResult {
    /// UFMIP in bps (175, or 1 for the special streamline refi).
    pub ufmip_bps: u16,
    /// Annual MIP in bps.
    pub annual_mip_bps: u16,
    /// How long annual MIP is assessed.
    pub duration: MipDuration,
}

impl FhaMipResult {
    /// Monthly MIP on an outstanding principal, rounded up (conservative);
    /// zero for a non-positive principal.
    pub fn monthly_mip(&self, outstanding_principal: Cents) -> (c: Cents)
        ensures
            outstanding_principal.0 <= 0 ==> c.0 == 0,
            outstanding_principal.0 > 0 ==> c.0 == monthly_ceil(
                outstanding_principal.0 as int,
                self.annual_mip_bps as int,
            ),
    {
        if outstanding_principal.0 <= 0 {
            return Cents(0);
        }
        proof {
            lemma_monthly_fits(outstanding_principal.0 as int, self.annual_mip_bps as int);
        }
        Cents(monthly_ceil_cents(outstanding_principal.0, self.annual_mip_bps as u32))
    }

    /// UFMIP for a base loan amount: `loan × bps / 10_000`, rounded toward
    /// zero.
    pub fn ufmip_amount(&self, base_loan_cents: i64) -> (c: Cents)
        ensures
            c.0 == bps_share(base_loan_cents as int, self.ufmip_bps as int) as i64,
    {
        Cents(share_cents(base_loan_cents, self.ufmip_bps as u32))
    }
}

/// One row of the FHA MIP table.
#[derive(Clone, Debug)]
pub struct FhaMipTableRow {
    /// Scenario label.
    pub scenario: String,
    /// Row for Streamline / Simple Refi of pre-2009 endorsements.
    pub is_streamline_pre_2009: bool,
    /// Row for terms of at most 15 years (180 months).
    pub term_le_15_years: bool,
    /// Row for loans above the high-balance threshold.
    pub high_balance: bool,
    /// The row fires when the LTV is at most this (bps).
    pub ltv_max_bps: u32,
    pub ufmip_bps: u16,
    pub annual_mip_bps: u16,
    /// Duration in years; `None` means the full loan term.
    pub duration_years: Option<u8>,
}

/// The duration a row's years give.
pub open spec fn duration_of(years: Option<u8>) -> MipDuration {
    match years {
        Some(y) => MipDuration::Years(y),
        None => MipDuration::LoanTerm,
    }
}

impl FhaMipTableRow {
    /// The row's duration: its years, or the full loan term.
    pub fn duration(&self) -> (d: MipDuration)
        ensures
            d == duration_of(self.duration_years),
    {
        match self.duration_years {
            Some(y) => MipDuration::Years(y),
            None => MipDuration::LoanTerm,
        }
    }
}

/// The FHA MIP table.
#[derive(Clone, Debug)]
pub struct FhaMipTable {
    /// High-balance threshold in cents.
    pub high_balance_threshold_cents: i64,
    /// Date the table became effective.
    pub effective_date: String,
    /// Rows, tried in order.
    pub rows: Vec<FhaMipTableRow>,
}

/// The row applies: same streamline status; for other loans also the same
/// term bucket and high-balance status; and the LTV within the row's max.
pub open spec fn mip_row_matches(r: FhaMipTableRow, i: FhaMipInput, threshold: i64) -> bool {
    &&& r.is_streamline_pre_2009 == i.is_streamline_pre_2009
    &&& (!i.is_streamline_pre_2009 ==> r.term_le_15_years == (i.term_months <= 180) && r.high_balance
        == (i.base_loan_cents > threshold))
    &&& i.ltv_bps <= r.ltv_max_bps
}

/// The rates of a row.
pub open spec fn mip_result_of(r: FhaMipTableRow) -> FhaMipResult {
    FhaMipResult {
        ufmip_bps: r.ufmip_bps,
        annual_mip_bps: r.annual_mip_bps,
        duration: duration_of(r.duration_years),
    }
}

/// The rates of the first row of the table that applies, if any.
pub open spec fn mip_lookup_of(t: FhaMipTable, i: FhaMipInput) -> Option<FhaMipResult> {
    match first_where(t.rows@, |row: FhaMipTableRow| mip_row_matches(row, i, t.high_balance_threshold_cents)) {
        Some(row) => Some(mip_result_of(row)),
        None => None,
    }
}

impl FhaMipTable {
    /// The rates of the first row that applies, if any.
    pub fn lookup(&self, input: &FhaMipInput) -> (r: Option<FhaMipResult>)
        ensures
            r == mip_lookup_of(*self, *input),
    {
        let ghost pred = |row: FhaMipTableRow|
            mip_row_matches(row, *input, self.high_balance_threshold_cents);
        let is_high_balance = input.base_loan_cents > self.high_balance_threshold_cents;
        let term_le_15 = input.term_months <= 180;
        let mut i: usize = 0;
        while i < self.rows.len()
            invariant
                0 <= i <= self.rows@.len(),
                pred == (|row: FhaMipTableRow|
                    mip_row_matches(row, *input, self.high_balance_threshold_cents)),
                is_high_balance == (input.base_loan_cents > self.high_balance_threshold_cents),
                term_le_15 == (input.term_months <= 180),
                forall|j: int| 0 <= j < i ==> !pred(#[trigger] self.rows@[j]),
            decreases self.rows@.len() - i,
        {
            let row = &self.rows[i];
            if row.is_streamline_pre_2009 == input.is_streamline_pre_2009 && (
            input.is_streamline_pre_2009 || (row.term_le_15_years == term_le_15 && row.high_balance
                == is_high_balance)) && input.ltv_bps <= row.ltv_max_bps {
                proof {
                    lemma_first_where_hit(self.rows@, pred, i as int);
                }
                return Some(
                    FhaMipResult {
                        ufmip_bps: row.ufmip_bps,
                        annual_mip_bps: row.annual_mip_bps,
                        duration: row.duration(),
                    },
                );
            }
            i = i + 1;
        }
        proof {
            lemma_first_where_none(self.rows@, pred);
        }
        None
    }
}

} // verus!
