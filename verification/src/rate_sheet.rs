//! Flat LLPA matrices and lender rate sheets.
//!
//! A flat matrix holds credit-score × LTV rows per adjustment category; the
//! total LLPA sums the first matching row of each category that applies to
//! the loan. Adjustments are in basis points (positive = cost). A rate
//! sheet holds a lender's par rates by product and lock period.

use vstd::prelude::*;
use crate::search::{first_where, lemma_first_where_hit, lemma_first_where_none, listed_if};
use crate::text::str_eq;

verus! {

/// Parameters of a flat LLPA lookup.
#[derive(Clone, Debug)]
pub struct LlpaInput {
    pub fico: u16,
    pub ltv_bps: u32,
    /// "purchase", "rate_term_refi" or "cash_out_refi".
    pub loan_purpose: String,
    /// "primary", "second_home" or "investment".
    pub occupancy: String,
    /// Standard manufactured home (not MH Advantage).
    pub is_standard_manufactured: bool,
    /// Loan amount above the FHFA conforming limit.
    pub is_high_balance: bool,
}

/// One row of a flat LLPA matrix.
#[derive(Clone, Debug)]
pub struct LlpaRow {
    pub fico_min: u16,
    pub fico_max: u16,
    /// Exclusive lower LTV bound.
    pub ltv_min_bps: u32,
    /// Inclusive upper LTV bound.
    pub ltv_max_bps: u32,
    /// "credit_score_ltv", "cash_out", "second_home", "investment",
    /// "manufactured_home" or "high_balance".
    pub category: String,
    /// Adjustment in bps; positive is a cost.
    pub adjustment_bps: i32,
}

/// A flat LLPA matrix.
#[derive(Clone, Debug)]
pub struct LlpaMatrix {
    pub agency: String,
    pub effective_date: String,
    pub rows: Vec<LlpaRow>,
}

/// The row is of the category and its score and `(min, max]` LTV ranges
/// hold the loan's.
pub open spec fn llpa_row_matches(r: LlpaRow, i: LlpaInput, category: Seq<char>) -> bool {
    &&& r.category@ == category
    &&& r.fico_min <= i.fico <= r.fico_max
    &&& r.ltv_min_bps < i.ltv_bps <= r.ltv_max_bps
}

/// The adjustment of the first row of the category that matches.
pub open spec fn category_adj(m: LlpaMatrix, i: LlpaInput, category: Seq<char>) -> Option<i32> {
    match first_where(m.rows@, |r: LlpaRow| llpa_row_matches(r, i, category)) {
        Some(r) => Some(r.adjustment_bps),
        None => None,
    }
}

/// The category's adjustment as a list: empty when the category does not
/// apply or has no matching row.
#[verifier::opaque]
pub open spec fn part_if(m: LlpaMatrix, i: LlpaInput, applies: bool, category: Seq<char>) -> Seq<int> {
    if applies {
        match category_adj(m, i, category) {
            Some(a) => seq![a as int],
            None => Seq::empty(),
        }
    } else {
        Seq::empty()
    }
}

/// The adjustments that apply to the loan, in order: credit score × LTV
/// always; cash-out for cash-out refis; second home; investment;
/// manufactured home; high balance.
pub open spec fn llpa_parts(m: LlpaMatrix, i: LlpaInput) -> Seq<int> {
    part_if(m, i, true, "credit_score_ltv"@) + part_if(
        m,
        i,
        i.loan_purpose@ == "cash_out_refi"@,
        "cash_out"@,
    ) + part_if(m, i, i.occupancy@ == "second_home"@, "second_home"@) + part_if(
        m,
        i,
        i.occupancy@ == "investment"@,
        "investment"@,
    ) + part_if(m, i, i.is_standard_manufactured, "manufactured_home"@) + part_if(
        m,
        i,
        i.is_high_balance,
        "high_balance"@,
    )
}

/// The category's adjustment when it applies and has a matching row, else
/// zero.
pub open spec fn adj_or_zero(m: LlpaMatrix, i: LlpaInput, applies: bool, category: Seq<char>) -> int {
    if applies {
        match category_adj(m, i, category) {
            Some(a) => a as int,
            None => 0,
        }
    } else {
        0
    }
}

/// The total as the documented sum: credit score × LTV, plus cash-out for a
/// cash-out refi, plus second home or investment by occupancy, plus
/// manufactured home and high balance when flagged; a category without a
/// matching row contributes nothing.
pub open spec fn llpa_category_total(m: LlpaMatrix, i: LlpaInput) -> int {
    adj_or_zero(m, i, true, "credit_score_ltv"@) + adj_or_zero(m, i, i.loan_purpose@ == "cash_out_refi"@, "cash_out"@)
        + adj_or_zero(m, i, i.occupancy@ == "second_home"@, "second_home"@) + adj_or_zero(
        m,
        i,
        i.occupancy@ == "investment"@,
        "investment"@,
    ) + adj_or_zero(m, i, i.is_standard_manufactured, "manufactured_home"@) + adj_or_zero(
        m,
        i,
        i.is_high_balance,
        "high_balance"@,
    )
}

/// Sum of a list of integers.
pub open spec fn sum_ints(v: Seq<int>) -> int
    decreases v.len(),
{
    if v.len() == 0 { 0 } else { sum_ints(v.drop_last()) + v.last() }
}

/// Every running sum of the list fits in 32 bits.
pub open spec fn running_sums_fit(v: Seq<int>) -> bool {
    forall|k: int| 0 <= k <= v.len() ==> i32::MIN <= #[trigger] sum_ints(v.take(k)) <= i32::MAX
}

/// Appending a category's part adds its adjustment, or nothing.
proof fn lemma_sum_part(m: LlpaMatrix, i: LlpaInput, done: Seq<int>, applies: bool, category: Seq<char>)
    ensures
        sum_ints(done + part_if(m, i, applies, category)) == sum_ints(done) + adj_or_zero(m, i, applies, category),
{
    reveal(part_if);
    let d2 = done + part_if(m, i, applies, category);
    if applies && category_adj(m, i, category) is Some {
        assert(d2.drop_last() =~= done);
    } else {
        assert(d2 =~= done);
    }
}

/// The sum of the adjustments that apply is the documented category sum:
/// each applicable category's first matching adjustment, or zero.
pub proof fn lemma_total_is_category_sum(m: LlpaMatrix, i: LlpaInput)
    ensures
        sum_ints(llpa_parts(m, i)) == llpa_category_total(m, i),
{
    let p1 = part_if(m, i, true, "credit_score_ltv"@);
    let p2 = part_if(m, i, i.loan_purpose@ == "cash_out_refi"@, "cash_out"@);
    let p3 = part_if(m, i, i.occupancy@ == "second_home"@, "second_home"@);
    let p4 = part_if(m, i, i.occupancy@ == "investment"@, "investment"@);
    let p5 = part_if(m, i, i.is_standard_manufactured, "manufactured_home"@);
    let e = Seq::<int>::empty();
    assert(e + p1 =~= p1);
    lemma_sum_part(m, i, e, true, "credit_score_ltv"@);
    lemma_sum_part(m, i, p1, i.loan_purpose@ == "cash_out_refi"@, "cash_out"@);
    lemma_sum_part(m, i, p1 + p2, i.occupancy@ == "second_home"@, "second_home"@);
    lemma_sum_part(m, i, p1 + p2 + p3, i.occupancy@ == "investment"@, "investment"@);
    lemma_sum_part(m, i, p1 + p2 + p3 + p4, i.is_standard_manufactured, "manufactured_home"@);
    lemma_sum_part(m, i, p1 + p2 + p3 + p4 + p5, i.is_high_balance, "high_balance"@);
}

impl LlpaMatrix {
    /// The adjustment of the first row of `category` matching the loan.
    pub fn lookup_category(&self, input: &LlpaInput, category: &str) -> (r: Option<i32>)
        ensures
            r == category_adj(*self, *input, category@),
    {
        let ghost pred = |r: LlpaRow| llpa_row_matches(r, *input, category@);
        let mut i: usize = 0;
        while i < self.rows.len()
            invariant
                0 <= i <= self.rows@.len(),
                pred == (|r: LlpaRow| llpa_row_matches(r, *input, category@)),
                forall|j: int| 0 <= j < i ==> !pred(#[trigger] self.rows@[j]),
            decreases self.rows@.len() - i,
        {
            let row = &self.rows[i];
            if str_eq(row.category.as_str(), category) && input.fico >= row.fico_min && input.fico
                <= row.fico_max && input.ltv_bps > row.ltv_min_bps && input.ltv_bps
                <= row.ltv_max_bps {
                proof {
                    lemma_first_where_hit(self.rows@, pred, i as int);
                }
                return Some(row.adjustment_bps);
            }
            i = i + 1;
        }
        proof {
            lemma_first_where_none(self.rows@, pred);
        }
        None
    }

    /// Adds the category's adjustment when it applies and has a row.
    fn add_part(&self, input: &LlpaInput, applies: bool, category: &str, total: &mut i32, Ghost(
        done,
    ): Ghost<Seq<int>>, Ghost(rest): Ghost<Seq<int>>)
        requires
            *old(total) == sum_ints(done),
            running_sums_fit(done + part_if(*self, *input, applies, category@) + rest),
        ensures
            *final(total) == sum_ints(done + part_if(*self, *input, applies, category@)),
    {
        reveal(part_if);
        let ghost all = done + part_if(*self, *input, applies, category@) + rest;
        if applies {
            match self.lookup_category(input, category) {
                Some(a) => {
                    proof {
                        let d2 = done + part_if(*self, *input, applies, category@);
                        assert(d2.drop_last() =~= done);
                        assert(all.take(d2.len() as int) =~= d2);
                        assert(i32::MIN <= sum_ints(all.take(d2.len() as int)) <= i32::MAX);
                    }
                    *total = *total + a;
                },
                None => {
                    assert(done + part_if(*self, *input, applies, category@) =~= done);
                },
            }
        } else {
            assert(done + part_if(*self, *input, applies, category@) =~= done);
        }
    }

    /// Adds the category's adjustment, when it applies and has a row, to a
    /// wide running total, and records whether every running sum so far fits
    /// in 32 bits.
    fn add_part_checked(&self, input: &LlpaInput, applies: bool, category: &str, total: &mut i64, fits: &mut bool, Ghost(
        done,
    ): Ghost<Seq<int>>)
        requires
            *old(total) == sum_ints(done),
            *old(fits) == running_sums_fit(done),
            done.len() <= 5,
            -(done.len() * 0x8000_0000) <= sum_ints(done) <= done.len() * 0x8000_0000,
        ensures
            *final(total) == sum_ints(done + part_if(*self, *input, applies, category@)),
            *final(fits) == running_sums_fit(done + part_if(*self, *input, applies, category@)),
            (done + part_if(*self, *input, applies, category@)).len() <= done.len() + 1,
            -((done + part_if(*self, *input, applies, category@)).len() * 0x8000_0000) <= sum_ints(
                done + part_if(*self, *input, applies, category@),
            ) <= (done + part_if(*self, *input, applies, category@)).len() * 0x8000_0000,
    {
        reveal(part_if);
        if applies {
            match self.lookup_category(input, category) {
                Some(a) => {
                    let ghost d2 = done + part_if(*self, *input, applies, category@);
                    proof {
                        assert(d2 =~= done.push(a as int));
                        assert(d2.drop_last() =~= done);
                        assert forall|k: int| 0 <= k <= done.len() implies #[trigger] d2.take(k) == done.take(k) by {
                            assert(d2.take(k) =~= done.take(k));
                        }
                        assert(d2.take(d2.len() as int) =~= d2);
                    }
                    *total = *total + a as i64;
                    let in_range = -0x8000_0000i64 <= *total && *total <= 0x7fff_ffffi64;
                    proof {
                        if *fits && in_range {
                            assert forall|k: int| 0 <= k <= d2.len() implies i32::MIN <= #[trigger] sum_ints(d2.take(k))
                                <= i32::MAX by {
                                if k <= done.len() {
                                    assert(d2.take(k) == done.take(k));
                                    assert(i32::MIN <= sum_ints(done.take(k)) <= i32::MAX);
                                }
                            }
                        }
                        if !*fits {
                            let k = choose|k: int| 0 <= k <= done.len() && !(i32::MIN <= #[trigger] sum_ints(done.take(k))
                                <= i32::MAX);
                            assert(d2.take(k) == done.take(k));
                        }
                        if !in_range {
                            assert(!(i32::MIN <= sum_ints(d2.take(d2.len() as int)) <= i32::MAX));
                        }
                    }
                    *fits = *fits && in_range;
                },
                None => {
                    assert(done + part_if(*self, *input, applies, category@) =~= done);
                },
            }
        } else {
            assert(done + part_if(*self, *input, applies, category@) =~= done);
        }
    }

    /// Total LLPA in bps for a loan when every running sum of the adjustments
    /// that apply fits in 32 bits; `None` otherwise.
    #[verifier::rlimit(30)]
    pub fn checked_total_llpa(&self, input: &LlpaInput) -> (t: Option<i32>)
        ensures
            match t {
                Some(v) => running_sums_fit(llpa_parts(*self, *input)) && v == sum_ints(llpa_parts(*self, *input))
                    && v == llpa_category_total(*self, *input),
                None => !running_sums_fit(llpa_parts(*self, *input)),
            },
    {
        proof {
            lemma_total_is_category_sum(*self, *input);
        }
        let ghost p1 = part_if(*self, *input, true, "credit_score_ltv"@);
        let ghost p2 = part_if(*self, *input, input.loan_purpose@ == "cash_out_refi"@, "cash_out"@);
        let ghost p3 = part_if(*self, *input, input.occupancy@ == "second_home"@, "second_home"@);
        let ghost p4 = part_if(*self, *input, input.occupancy@ == "investment"@, "investment"@);
        let ghost p5 = part_if(*self, *input, input.is_standard_manufactured, "manufactured_home"@);
        let ghost p6 = part_if(*self, *input, input.is_high_balance, "high_balance"@);
        let ghost e = Seq::<int>::empty();
        let mut total: i64 = 0;
        let mut fits = true;
        proof {
            assert forall|k: int| 0 <= k <= e.len() implies i32::MIN <= #[trigger] sum_ints(e.take(k)) <= i32::MAX by {
                assert(e.take(k) =~= e);
            }
        }
        self.add_part_checked(input, true, "credit_score_ltv", &mut total, &mut fits, Ghost(e));
        let cash_out = str_eq(input.loan_purpose.as_str(), "cash_out_refi");
        self.add_part_checked(input, cash_out, "cash_out", &mut total, &mut fits, Ghost(e + p1));
        let second = str_eq(input.occupancy.as_str(), "second_home");
        self.add_part_checked(input, second, "second_home", &mut total, &mut fits, Ghost(e + p1 + p2));
        let invest = str_eq(input.occupancy.as_str(), "investment");
        self.add_part_checked(input, invest, "investment", &mut total, &mut fits, Ghost(e + p1 + p2 + p3));
        self.add_part_checked(
            input,
            input.is_standard_manufactured,
            "manufactured_home",
            &mut total,
            &mut fits,
            Ghost(e + p1 + p2 + p3 + p4),
        );
        self.add_part_checked(
            input,
            input.is_high_balance,
            "high_balance",
            &mut total,
            &mut fits,
            Ghost(e + p1 + p2 + p3 + p4 + p5),
        );
        assert(e + p1 + p2 + p3 + p4 + p5 + p6 =~= llpa_parts(*self, *input));
        if fits {
            proof {
                let all = llpa_parts(*self, *input);
                assert(all.take(all.len() as int) =~= all);
            }
            Some(total as i32)
        } else {
            None
        }
    }

    /// Total LLPA in bps for a loan: the sum of the adjustments that apply.
    #[verifier::rlimit(30)]
    pub fn total_llpa(&self, input: &LlpaInput) -> (t: i32)
        requires
            running_sums_fit(llpa_parts(*self, *input)),
        ensures
            t == sum_ints(llpa_parts(*self, *input)),
            t == llpa_category_total(*self, *input),
    {
        proof {
            lemma_total_is_category_sum(*self, *input);
        }
        let ghost p1 = part_if(*self, *input, true, "credit_score_ltv"@);
        let ghost p2 = part_if(*self, *input, input.loan_purpose@ == "cash_out_refi"@, "cash_out"@);
        let ghost p3 = part_if(*self, *input, input.occupancy@ == "second_home"@, "second_home"@);
        let ghost p4 = part_if(*self, *input, input.occupancy@ == "investment"@, "investment"@);
        let ghost p5 = part_if(*self, *input, input.is_standard_manufactured, "manufactured_home"@);
        let ghost p6 = part_if(*self, *input, input.is_high_balance, "high_balance"@);
        let ghost e = Seq::<int>::empty();
        let mut total: i32 = 0;
        assert(llpa_parts(*self, *input) =~= e + p1 + (p2 + p3 + p4 + p5 + p6));
        self.add_part(input, true, "credit_score_ltv", &mut total, Ghost(e), Ghost(p2 + p3 + p4 + p5 + p6));
        let cash_out = str_eq(input.loan_purpose.as_str(), "cash_out_refi");
        assert(llpa_parts(*self, *input) =~= (e + p1) + p2 + (p3 + p4 + p5 + p6));
        self.add_part(input, cash_out, "cash_out", &mut total, Ghost(e + p1), Ghost(p3 + p4 + p5 + p6));
        let second = str_eq(input.occupancy.as_str(), "second_home");
        assert(llpa_parts(*self, *input) =~= (e + p1 + p2) + p3 + (p4 + p5 + p6));
        self.add_part(input, second, "second_home", &mut total, Ghost(e + p1 + p2), Ghost(p4 + p5 + p6));
        let invest = str_eq(input.occupancy.as_str(), "investment");
        assert(llpa_parts(*self, *input) =~= (e + p1 + p2 + p3) + p4 + (p5 + p6));
        self.add_part(input, invest, "investment", &mut total, Ghost(e + p1 + p2 + p3), Ghost(p5 + p6));
        assert(llpa_parts(*self, *input) =~= (e + p1 + p2 + p3 + p4) + p5 + p6);
        self.add_part(
            input,
            input.is_standard_manufactured,
            "manufactured_home",
            &mut total,
            Ghost(e + p1 + p2 + p3 + p4),
            Ghost(p6),
        );
        assert(llpa_parts(*self, *input) =~= (e + p1 + p2 + p3 + p4 + p5) + p6 + e);
        self.add_part(
            input,
            input.is_high_balance,
            "high_balance",
            &mut total,
            Ghost(e + p1 + p2 + p3 + p4 + p5),
            Ghost(e),
        );
        assert(e + p1 + p2 + p3 + p4 + p5 + p6 =~= llpa_parts(*self, *input));
        total
    }
}

/// One product / lock-period entry of a rate sheet.
#[derive(Clone, Debug)]
pub struct RateSheetEntry {
    /// Product code, e.g. "conv_30yr_fixed".
    pub product: String,
    /// Lock period in days.
    pub lock_days: u8,
    /// Par rate in thousandths of a percent (7125 = 7.125%).
    pub par_rate_bps: u32,
    /// Price of the par rate in thousandths of a point per $100 of loan:
    /// positive is discount points, negative a rebate.
    pub price_at_par_milli: i32,
}

/// A lender's rate sheet at a point in time.
#[derive(Clone, Debug)]
pub struct RateSheet {
    pub lender_id: String,
    /// ISO 8601 date-time.
    pub as_of: String,
    pub entries: Vec<RateSheetEntry>,
}

impl RateSheet {
    /// The first entry for a product and lock period.
    pub fn find(&self, product: &str, lock_days: u8) -> (r: Option<&RateSheetEntry>)
        ensures
            match r {
                Some(e) => first_where(
                    self.entries@,
                    |e: RateSheetEntry| e.product@ == product@ && e.lock_days == lock_days,
                ) == Some(*e),
                None => first_where(
                    self.entries@,
                    |e: RateSheetEntry| e.product@ == product@ && e.lock_days == lock_days,
                ) is None,
            },
    {
        let ghost pred = |e: RateSheetEntry| e.product@ == product@ && e.lock_days == lock_days;
        let mut i: usize = 0;
        while i < self.entries.len()
            invariant
                0 <= i <= self.entries@.len(),
                pred == (|e: RateSheetEntry| e.product@ == product@ && e.lock_days == lock_days),
                forall|j: int| 0 <= j < i ==> !pred(#[trigger] self.entries@[j]),
            decreases self.entries@.len() - i,
        {
            let e = &self.entries[i];
            if str_eq(e.product.as_str(), product) && e.lock_days == lock_days {
                proof {
                    lemma_first_where_hit(self.entries@, pred, i as int);
                }
                return Some(e);
            }
            i = i + 1;
        }
        proof {
            lemma_first_where_none(self.entries@, pred);
        }
        None
    }
}

/// A file of rate sheets.
#[derive(Clone, Debug)]
pub struct RateSheetFile {
    pub sheets: Vec<RateSheet>,
}

} // verus!
