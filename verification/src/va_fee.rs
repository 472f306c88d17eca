//! VA loan funding fee lookup.
//!
//! Every veteran pays a funding fee unless exempt (disability compensation,
//! surviving spouse, pre-discharge rating); exempt veterans pay 0 bps. The
//! fee depends on service category, loan purpose, first or subsequent use
//! and, for purchases, the down payment tier.

use vstd::prelude::*;
use vstd::string::*;
use crate::search::{first_where, lemma_first_where_found, lemma_first_where_hit, lemma_first_where_none};
use crate::text::str_eq;

verus! {

/// Veteran service category.
#[derive(Clone, Copy, Debug, PartialEq, Eq, Structural)]
pub enum VeteranCategory {
    RegularMilitary,
    ReservesNationalGuard,
    /// Exempt from the funding fee.
    Exempt,
}

/// VA loan purpose.
#[derive(Clone, Copy, Debug, PartialEq, Eq, Structural)]
pub enum VaLoanPurpose {
    PurchaseOrConstruction,
    CashOutRefinance,
    /// Interest Rate Reduction Refinance Loan.
    Irrrl,
    /// Manufactured home not permanently affixed.
    ManufacturedHomeNotPermanent,
    LoanAssumption,
}

/// First or subsequent use of the VA home loan entitlement.
#[derive(Clone, Copy, Debug, PartialEq, Eq, Structural)]
pub enum VaUse {
    FirstTime,
    /// Later uses carry higher fees on zero-down purchases.
    Subsequent,
}

/// Parameters of a funding fee lookup.
#[derive(Clone, Debug)]
pub struct VaFeeInput {
    pub category: VeteranCategory,
    pub purpose: VaLoanPurpose,
    pub use_: VaUse,
    /// Down payment as a share of the price, in bps (500 = 5%).
    pub down_payment_bps: u32,
}

/// One row of the funding fee table.
#[derive(Clone, Debug)]
pub struct VaFeeRow {
    /// Category key, e.g. "regular_military".
    pub veteran_category: String,
    /// Purpose key, e.g. "purchase_or_construction".
    pub loan_purpose: String,
    /// Minimum down payment (inclusive, bps).
    pub down_payment_min_bps: u32,
    /// Maximum down payment (exclusive, bps).
    pub down_payment_max_bps: u32,
    /// Fee in bps for first-time use.
    pub first_use_fee_bps: u32,
    /// Fee in bps for subsequent use.
    pub subsequent_use_fee_bps: u32,
}

/// The funding fee table.
#[derive(Clone, Debug)]
pub struct VaFeeTable {
    pub effective_date: String,
    pub rows: Vec<VaFeeRow>,
}

/// The table key of a (non-exempt) category.
pub open spec fn category_key(c: VeteranCategory) -> Seq<char> {
    match c {
        VeteranCategory::RegularMilitary => "regular_military"@,
        VeteranCategory::ReservesNationalGuard => "reserves_national_guard"@,
        VeteranCategory::Exempt => "exempt"@,
    }
}

/// The table key of a purpose.
pub open spec fn purpose_key(p: VaLoanPurpose) -> Seq<char> {
    match p {
        VaLoanPurpose::PurchaseOrConstruction => "purchase_or_construction"@,
        VaLoanPurpose::CashOutRefinance => "cash_out_refinance"@,
        VaLoanPurpose::Irrrl => "irrrl"@,
        VaLoanPurpose::ManufacturedHomeNotPermanent => "manufactured_home_not_permanent"@,
        VaLoanPurpose::LoanAssumption => "loan_assumption"@,
    }
}

/// The row applies: same category and purpose, and the down payment in
/// `[min, max)`.
pub open spec fn fee_row_matches(r: VaFeeRow, i: VaFeeInput) -> bool {
    &&& r.veteran_category@ == category_key(i.category)
    &&& r.loan_purpose@ == purpose_key(i.purpose)
    &&& r.down_payment_min_bps <= i.down_payment_bps < r.down_payment_max_bps
}

/// The funding fee in bps: 0 for exempt veterans, else the first matching
/// row's fee for the use, if a row matches.
pub open spec fn va_fee_of(t: VaFeeTable, i: VaFeeInput) -> Option<u32> {
    if i.category == VeteranCategory::Exempt {
        Some(0)
    } else {
        match first_where(t.rows@, |r: VaFeeRow| fee_row_matches(r, i)) {
            Some(r) => Some(
                match i.use_ {
                    VaUse::FirstTime => r.first_use_fee_bps,
                    VaUse::Subsequent => r.subsequent_use_fee_bps,
                },
            ),
            None => None,
        }
    }
}

fn category_str(c: VeteranCategory) -> (s: &'static str)
    ensures
        s@ == category_key(c),
{
    match c {
        VeteranCategory::RegularMilitary => "regular_military",
        VeteranCategory::ReservesNationalGuard => "reserves_national_guard",
        VeteranCategory::Exempt => "exempt",
    }
}

fn purpose_str(p: VaLoanPurpose) -> (s: &'static str)
    ensures
        s@ == purpose_key(p),
{
    match p {
        VaLoanPurpose::PurchaseOrConstruction => "purchase_or_construction",
        VaLoanPurpose::CashOutRefinance => "cash_out_refinance",
        VaLoanPurpose::Irrrl => "irrrl",
        VaLoanPurpose::ManufacturedHomeNotPermanent => "manufactured_home_not_permanent",
        VaLoanPurpose::LoanAssumption => "loan_assumption",
    }
}

impl VaFeeTable {
    /// The funding fee in bps; 0 for exempt veterans, `None` when no row
    /// matches.
    pub fn lookup(&self, input: &VaFeeInput) -> (r: Option<u32>)
        ensures
            r == va_fee_of(*self, *input),
    {
        if input.category == VeteranCategory::Exempt {
            return Some(0);
        }
        let cat_str = category_str(input.category);
        let purpose = purpose_str(input.purpose);
        let ghost pred = |r: VaFeeRow| fee_row_matches(r, *input);
        let mut i: usize = 0;
        while i < self.rows.len()
            invariant
                0 <= i <= self.rows@.len(),
                pred == (|r: VaFeeRow| fee_row_matches(r, *input)),
                cat_str@ == category_key(input.category),
                input.category != VeteranCategory::Exempt,
                purpose@ == purpose_key(input.purpose),
                forall|j: int| 0 <= j < i ==> !pred(#[trigger] self.rows@[j]),
            decreases self.rows@.len() - i,
        {
            let row = &self.rows[i];
            if str_eq(row.veteran_category.as_str(), cat_str) && str_eq(row.loan_purpose.as_str(), purpose)
                && input.down_payment_bps >= row.down_payment_min_bps
                && input.down_payment_bps < row.down_payment_max_bps {
                proof {
                    lemma_first_where_hit(self.rows@, pred, i as int);
                }
                return Some(
                    match input.use_ {
                        VaUse::FirstTime => row.first_use_fee_bps,
                        VaUse::Subsequent => row.subsequent_use_fee_bps,
                    },
                );
            }
            i = i + 1;
        }
        proof {
            lemma_first_where_none(self.rows@, pred);
        }
        None
    }
}

/// Each loan purpose has a table key of its own, and each service category
/// too: no two purposes (categories) share a key, so a row keyed for one
/// purpose never serves another.
pub proof fn lemma_keys_distinct(a: VaLoanPurpose, b: VaLoanPurpose, c: VeteranCategory, d: VeteranCategory)
    ensures
        purpose_key(a) == purpose_key(b) ==> a == b,
        category_key(c) == category_key(d) ==> c == d,
        purpose_key(VaLoanPurpose::ManufacturedHomeNotPermanent) == "manufactured_home_not_permanent"@,
        purpose_key(VaLoanPurpose::PurchaseOrConstruction) == "purchase_or_construction"@,
{
    reveal_strlit("purchase_or_construction");
    reveal_strlit("cash_out_refinance");
    reveal_strlit("irrrl");
    reveal_strlit("manufactured_home_not_permanent");
    reveal_strlit("loan_assumption");
    reveal_strlit("regular_military");
    reveal_strlit("reserves_national_guard");
    reveal_strlit("exempt");
    assert("purchase_or_construction"@.len() == 24);
    assert("cash_out_refinance"@.len() == 18);
    assert("irrrl"@.len() == 5);
    assert("manufactured_home_not_permanent"@.len() == 31);
    assert("loan_assumption"@.len() == 15);
    assert("regular_military"@.len() == 16);
    assert("reserves_national_guard"@.len() == 23);
    assert("exempt"@.len() == 6);
}

/// A fee for a non-exempt veteran always comes from a row of the table keyed
/// for the veteran's own category and purpose (a key that no other purpose
/// has) whose down-payment tier holds the input: the row's first-use fee for
/// a first use, its subsequent-use fee otherwise. An exempt veteran pays 0.
pub proof fn lemma_fee_from_own_purpose_row(t: VaFeeTable, i: VaFeeInput)
    ensures
        i.category == VeteranCategory::Exempt ==> va_fee_of(t, i) == Some(0u32),
        i.category != VeteranCategory::Exempt && va_fee_of(t, i) is Some ==> exists|k: int|
            {
                &&& 0 <= k < t.rows@.len()
                &&& #[trigger] t.rows@[k].loan_purpose@ == purpose_key(i.purpose)
                &&& t.rows@[k].veteran_category@ == category_key(i.category)
                &&& forall|q: VaLoanPurpose| q != i.purpose ==> t.rows@[k].loan_purpose@ != purpose_key(q)
                &&& t.rows@[k].down_payment_min_bps <= i.down_payment_bps < t.rows@[k].down_payment_max_bps
                &&& va_fee_of(t, i) == Some(
                    if i.use_ == VaUse::FirstTime {
                        t.rows@[k].first_use_fee_bps
                    } else {
                        t.rows@[k].subsequent_use_fee_bps
                    },
                )
            },
{
    if i.category != VeteranCategory::Exempt && va_fee_of(t, i) is Some {
        let pred = |r: VaFeeRow| fee_row_matches(r, i);
        lemma_first_where_found(t.rows@, pred);
        let row = first_where(t.rows@, pred)->0;
        let k = choose|k: int| 0 <= k < t.rows@.len() && t.rows@[k] == row;
        assert forall|q: VaLoanPurpose| q != i.purpose implies t.rows@[k].loan_purpose@ != purpose_key(q) by {
            lemma_keys_distinct(q, i.purpose, i.category, i.category);
        }
        assert(t.rows@[k].loan_purpose@ == purpose_key(i.purpose));
    }
}

} // verus!
