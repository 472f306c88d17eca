//! Seller concession / Interested Party Contribution (IPC) caps.
//!
//! Agencies cap how much an interested party (seller, builder, agent, lender
//! affiliate) may contribute toward the buyer's closing costs and prepaids.
//! Contributions above the cap become sales concessions: the sales price is
//! reduced by the excess and LTV is recomputed. FHA and USDA cap at 6% of the
//! sales price, VA at 4% of reasonable value, Fannie Mae and Freddie Mac by an
//! occupancy × LTV tier table. Ginnie Mae sets no caps of its own: a pooled
//! loan inherits the insuring agency's cap ([`gnma_inherits_program`]).

use vstd::prelude::*;
use vstd::string::*;
use crate::money::{trunc_div, Cents};
use crate::provenance::{prov_is, step_texts, Derived, Provenance};
use crate::search::{first_where, lemma_first_where_hit, lemma_first_where_none};
use crate::text::{
    ascii_lower_seq, dec_nat, dollars_text, eq_ignore_case, push_dec_u64, push_dollars, str_eq,
    str_eq_ignore_ascii_case, str_to_ascii_lowercase,
};

verus! {

/// Property occupancy.
#[derive(Clone, Copy, Debug, PartialEq, Eq, Structural)]
pub enum Occupancy {
    Primary,
    SecondHome,
    Investment,
}

impl Occupancy {
    /// The variant's name.
    pub open spec fn spec_name(self) -> Seq<char> {
        match self {
            Occupancy::Primary => "Primary"@,
            Occupancy::SecondHome => "SecondHome"@,
            Occupancy::Investment => "Investment"@,
        }
    }

    /// The variant's name.
    pub fn name(self) -> (s: &'static str)
        ensures
            s@ == self.spec_name(),
    {
        match self {
            Occupancy::Primary => "Primary",
            Occupancy::SecondHome => "SecondHome",
            Occupancy::Investment => "Investment",
        }
    }
}

/// The basis the cap percentage is applied to.
#[derive(Clone, Copy, Debug, PartialEq, Eq, Structural)]
pub enum CapBasis {
    /// Percentage of the contract sales price.
    SalesPrice,
    /// Percentage of the lesser of sales price or appraised value.
    LesserOfPriceOrValue,
    /// Percentage of VA "reasonable value" (the appraised value).
    ReasonableValue,
}

impl CapBasis {
    /// The variant's name.
    pub open spec fn spec_name(self) -> Seq<char> {
        match self {
            CapBasis::SalesPrice => "SalesPrice"@,
            CapBasis::LesserOfPriceOrValue => "LesserOfPriceOrValue"@,
            CapBasis::ReasonableValue => "ReasonableValue"@,
        }
    }

    /// The variant's name.
    pub fn name(self) -> (s: &'static str)
        ensures
            s@ == self.spec_name(),
    {
        match self {
            CapBasis::SalesPrice => "SalesPrice",
            CapBasis::LesserOfPriceOrValue => "LesserOfPriceOrValue",
            CapBasis::ReasonableValue => "ReasonableValue",
        }
    }
}

/// One cap row: program × occupancy × LTV tier.
#[derive(Clone, Debug, PartialEq, Eq)]
pub struct SellerConcessionCap {
    /// Program/investor: "fha","va","usda","fnma","fhlmc".
    pub program: String,
    pub occupancy: Occupancy,
    /// LTV tier lower bound in bps, exclusive (0 for the lowest tier).
    pub ltv_min_bps: u32,
    /// LTV tier upper bound in bps, inclusive.
    pub ltv_max_bps: u32,
    /// The cap, in basis points of the basis (600 = 6%).
    pub cap_bps: u32,
    pub basis: CapBasis,
    /// Human note (e.g. VA's distinction between concessions and normal costs).
    pub note: String,
}

impl SellerConcessionCap {
    /// A copy of the cap row.
    pub fn copy(&self) -> (r: SellerConcessionCap)
        ensures
            r == *self,
    {
        SellerConcessionCap {
            program: self.program.clone(),
            occupancy: self.occupancy,
            ltv_min_bps: self.ltv_min_bps,
            ltv_max_bps: self.ltv_max_bps,
            cap_bps: self.cap_bps,
            basis: self.basis,
            note: self.note.clone(),
        }
    }
}

/// Inputs needed to resolve the applicable cap.
#[derive(Clone, Debug)]
pub struct ConcessionCapInput {
    pub program: String,
    pub occupancy: Occupancy,
    pub ltv_bps: u32,
}

/// Result of checking a proposed contribution against the cap.
#[derive(Clone, Debug, PartialEq, Eq)]
pub struct ConcessionOutcome {
    pub cap_bps: u32,
    pub max_allowed: Cents,
    pub proposed: Cents,
    pub within_limit: bool,
    /// Amount over the cap that must be treated as a sales concession; 0 if within.
    pub excess: Cents,
}

/// The insuring agency whose cap governs a Ginnie Mae-pooled loan of this
/// type (compared without regard to ASCII case): FHA, VA, or USDA (also
/// spelled `rd` / `rural_development`); `None` for anything Ginnie Mae does
/// not pool.
pub open spec fn gnma_program_of(loan_type: Seq<char>) -> Option<Seq<char>> {
    let t = ascii_lower_seq(loan_type);
    if t == "fha"@ {
        Some("fha"@)
    } else if t == "va"@ {
        Some("va"@)
    } else if t == "usda"@ || t == "rd"@ || t == "rural_development"@ {
        Some("usda"@)
    } else {
        None
    }
}

/// Maps a GNMA-securitized loan to the insuring agency whose cap governs.
/// Returns the program key to look up, or `None` if the loan type isn't
/// GNMA-eligible (GNMA pools only FHA/VA/USDA).
pub fn gnma_inherits_program(loan_type: &str) -> (r: Option<&'static str>)
    ensures
        match r {
            Some(k) => gnma_program_of(loan_type@) == Some(k@),
            None => gnma_program_of(loan_type@) is None,
        },
{
    let lower = str_to_ascii_lowercase(loan_type);
    let t = lower.as_str();
    if str_eq(t, "fha") {
        Some("fha")
    } else if str_eq(t, "va") {
        Some("va")
    } else if str_eq(t, "usda") || str_eq(t, "rd") || str_eq(t, "rural_development") {
        Some("usda")
    } else {
        None
    }
}

/// A seller-concession cap catalog: one dataset version.
#[derive(Clone, Debug)]
pub struct SellerConcessionCapFile {
    pub effective_date: String,
    pub source_citation: String,
    pub caps: Vec<SellerConcessionCap>,
}

/// The cap row matches the input: same program (ignoring ASCII case), same
/// occupancy, and the LTV falls in the row's `(min, max]` tier.
pub open spec fn cap_matches(c: SellerConcessionCap, input: ConcessionCapInput) -> bool {
    &&& eq_ignore_case(c.program@, input.program@)
    &&& c.occupancy == input.occupancy
    &&& input.ltv_bps > c.ltv_min_bps
    &&& input.ltv_bps <= c.ltv_max_bps
}

/// The first cap row matching the input.
pub open spec fn cap_for(caps: Seq<SellerConcessionCap>, input: ConcessionCapInput) -> Option<
    SellerConcessionCap,
> {
    first_where(caps, |c: SellerConcessionCap| cap_matches(c, input))
}

/// The record identifier of a cap row: `{program}_{occupancy}_{min}-{max}`.
pub open spec fn cap_record_id(c: SellerConcessionCap) -> Seq<char> {
    c.program@ + "_"@ + c.occupancy.spec_name() + "_"@ + dec_nat(c.ltv_min_bps as nat) + "-"@
        + dec_nat(c.ltv_max_bps as nat)
}

/// The provenance of an answer about cap row `c`.
pub open spec fn cap_prov(
    f: SellerConcessionCapFile,
    c: SellerConcessionCap,
    d: Provenance,
    file: Seq<char>,
    req: u16,
    res: u16,
) -> bool {
    prov_is(d, "seller_concession_caps"@, file, f.source_citation@, f.effective_date@, cap_record_id(c), req, res)
}

/// The most an interested party may contribute: the cap share of the basis,
/// rounded toward zero.
pub open spec fn max_allowed_of(cap_bps: u32, basis_amount: int) -> int {
    trunc_div(basis_amount * cap_bps, 10_000)
}

/// `program=…, occ=…, ltv=…bps`.
pub open spec fn resolve_inputs_text(input: ConcessionCapInput) -> Seq<char> {
    "program="@ + input.program@ + ", occ="@ + input.occupancy.spec_name() + ", ltv="@ + dec_nat(
        input.ltv_bps as nat,
    ) + "bps"@
}

/// `cap N% (Basis)`.
pub open spec fn resolve_outcome_text(c: SellerConcessionCap) -> Seq<char> {
    "cap "@ + dec_nat((c.cap_bps / 100) as nat) + "% ("@ + c.basis.spec_name() + ")"@
}

/// The step resolving the cap row for the input.
pub open spec fn resolve_step(input: ConcessionCapInput, c: SellerConcessionCap) -> (Seq<char>, Seq<char>, Seq<char>) {
    ("resolve_concession_cap"@, resolve_inputs_text(input), resolve_outcome_text(c))
}

/// The steps of a contribution check: the cap row, the maximum allowed,
/// and the comparison with the proposed contribution.
pub open spec fn concession_trail(
    input: ConcessionCapInput,
    c: SellerConcessionCap,
    basis_amount: int,
    proposed: int,
) -> Seq<(Seq<char>, Seq<char>, Seq<char>)> {
    let max = max_allowed_of(c.cap_bps, basis_amount);
    seq![
        resolve_step(input, c),
        (
            "compute_max_allowed"@,
            dec_nat((c.cap_bps / 100) as nat) + "% of $"@ + dollars_text(basis_amount),
            "max $"@ + dollars_text(max),
        ),
        (
            "compare_proposed"@,
            "proposed $"@ + dollars_text(proposed),
            if proposed <= max {
                "WITHIN limit ($"@ + dollars_text(proposed) + " <= $"@ + dollars_text(max) + ")"@
            } else {
                "EXCEEDS by $"@ + dollars_text(proposed - max)
                    + " — excess is a sales concession; reduce price and recompute LTV"@
            },
        ),
    ]
}

impl SellerConcessionCapFile {
    fn provenance_for(&self, cap: &SellerConcessionCap, file: &str, req: u16, res: u16) -> (r: Provenance)
        ensures
            cap_prov(*self, *cap, r, file@, req, res),
    {
        let mut record = String::new();
        record.append(cap.program.as_str());
        record.append("_");
        record.append(cap.occupancy.name());
        record.append("_");
        push_dec_u64(&mut record, cap.ltv_min_bps as u64);
        record.append("-");
        push_dec_u64(&mut record, cap.ltv_max_bps as u64);
        Provenance {
            dataset: "seller_concession_caps".to_owned(),
            source_file: file.to_owned(),
            source_citation: self.source_citation.clone(),
            effective_date: self.effective_date.clone(),
            record_id: record,
            requested_version: req,
            resolved_version: res,
        }
    }

    /// Index of the first cap row matching the input.
    pub fn find(&self, input: &ConcessionCapInput) -> (r: Option<&SellerConcessionCap>)
        ensures
            match r {
                Some(c) => cap_for(self.caps@, *input) == Some(*c),
                None => cap_for(self.caps@, *input) is None,
            },
    {
        let ghost pred = |c: SellerConcessionCap| cap_matches(c, *input);
        let mut i: usize = 0;
        while i < self.caps.len()
            invariant
                0 <= i <= self.caps@.len(),
                pred == (|c: SellerConcessionCap| cap_matches(c, *input)),
                forall|j: int| 0 <= j < i ==> !pred(#[trigger] self.caps@[j]),
            decreases self.caps@.len() - i,
        {
            let c = &self.caps[i];
            if str_eq_ignore_ascii_case(c.program.as_str(), input.program.as_str())
                && c.occupancy == input.occupancy && input.ltv_bps > c.ltv_min_bps && input.ltv_bps
                <= c.ltv_max_bps {
                proof {
                    lemma_first_where_hit(self.caps@, pred, i as int);
                }
                return Some(c);
            }
            i = i + 1;
        }
        proof {
            lemma_first_where_none(self.caps@, pred);
        }
        None
    }

    /// The applicable cap row, with provenance and a `resolve_concession_cap`
    /// step; `None` when no row matches.
    pub fn cap(&self, input: &ConcessionCapInput, file: &str, req: u16, res: u16) -> (r: Option<
        Derived<SellerConcessionCap>,
    >)
        ensures
            r is Some <==> cap_for(self.caps@, *input) is Some,
            r matches Some(d) ==> {
                let c = cap_for(self.caps@, *input)->0;
                &&& d.value == c
                &&& cap_prov(*self, c, d.provenance, file@, req, res)
                &&& step_texts(d.steps@) == seq![resolve_step(*input, c)]
            },
    {
        let cap = match self.find(input) {
            None => return None,
            Some(c) => c,
        };
        let prov = self.provenance_for(cap, file, req, res);
        let d = Derived::new(cap.copy(), prov).with_step(
            "resolve_concession_cap",
            resolve_inputs(input),
            resolve_outcome(cap),
        );
        assert(step_texts(d.steps@) =~= seq![resolve_step(*input, *cap)]);
        Some(d)
    }

    /// Checks a proposed contribution against the applicable cap.
    /// `basis_amount` is the dollar figure the percentage applies to (sales
    /// price, lesser-of, or reasonable value per the cap's basis). The
    /// contribution is within the limit exactly when it does not exceed the
    /// cap share of the basis; otherwise the excess is reported as a sales
    /// concession. `None` when no cap row matches.
    pub fn evaluate(
        &self,
        input: &ConcessionCapInput,
        basis_amount: Cents,
        proposed: Cents,
        file: &str,
        req: u16,
        res: u16,
    ) -> (r: Option<Derived<ConcessionOutcome>>)
        requires
            cap_for(self.caps@, *input) matches Some(c) ==> {
                &&& i64::MIN <= basis_amount.0 * c.cap_bps <= i64::MAX
                &&& proposed.0 > max_allowed_of(c.cap_bps, basis_amount.0 as int) ==> proposed.0
                    - max_allowed_of(c.cap_bps, basis_amount.0 as int) <= i64::MAX
            },
        ensures
            r is Some <==> cap_for(self.caps@, *input) is Some,
            r matches Some(d) ==> {
                let c = cap_for(self.caps@, *input)->0;
                let max = max_allowed_of(c.cap_bps, basis_amount.0 as int);
                &&& d.value.cap_bps == c.cap_bps
                &&& d.value.max_allowed.0 == max
                &&& d.value.proposed == proposed
                &&& d.value.within_limit == (proposed.0 <= max)
                &&& d.value.excess.0 == (if proposed.0 <= max { 0 } else { proposed.0 - max })
                &&& d.value.within_limit ==> d.value.excess.0 == 0
                &&& !d.value.within_limit ==> d.value.excess.0 > 0 && d.value.max_allowed.0
                    + d.value.excess.0 == proposed.0
                &&& cap_prov(*self, c, d.provenance, file@, req, res)
                &&& step_texts(d.steps@) == concession_trail(*input, c, basis_amount.0 as int, proposed.0 as int)
            },
    {
        let cap = match self.find(input) {
            None => return None,
            Some(c) => c,
        };
        let max_allowed = Cents(basis_amount.0 * (cap.cap_bps as i64) / 10_000);
        let within = proposed.0 <= max_allowed.0;
        let excess = if within { Cents(0) } else { Cents(proposed.0 - max_allowed.0) };
        let outcome = ConcessionOutcome {
            cap_bps: cap.cap_bps,
            max_allowed,
            proposed,
            within_limit: within,
            excess,
        };
        let prov = self.provenance_for(cap, file, req, res);
        let mut d = Derived::new(outcome, prov);
        d.push_step("resolve_concession_cap", resolve_inputs(input), resolve_outcome(cap));
        let mut m_in = String::new();
        push_dec_u64(&mut m_in, (cap.cap_bps / 100) as u64);
        m_in.append("% of $");
        push_dollars(&mut m_in, basis_amount.0);
        let mut m_out = String::new();
        m_out.append("max $");
        push_dollars(&mut m_out, max_allowed.0);
        d.push_step("compute_max_allowed", m_in, m_out);
        let mut c_in = String::new();
        c_in.append("proposed $");
        push_dollars(&mut c_in, proposed.0);
        let mut c_out = String::new();
        if within {
            c_out.append("WITHIN limit ($");
            push_dollars(&mut c_out, proposed.0);
            c_out.append(" <= $");
            push_dollars(&mut c_out, max_allowed.0);
            c_out.append(")");
        } else {
            c_out.append("EXCEEDS by $");
            push_dollars(&mut c_out, excess.0);
            c_out.append(
                " — excess is a sales concession; reduce price and recompute LTV",
            );
        }
        d.push_step("compare_proposed", c_in, c_out);
        assert(step_texts(d.steps@) =~= concession_trail(*input, *cap, basis_amount.0 as int, proposed.0 as int));
        Some(d)
    }
}

/// `program=…, occ=…, ltv=…bps`.
fn resolve_inputs(input: &ConcessionCapInput) -> (s: String)
    ensures
        s@ == resolve_inputs_text(*input),
{
    let mut s = String::new();
    s.append("program=");
    s.append(input.program.as_str());
    s.append(", occ=");
    s.append(input.occupancy.name());
    s.append(", ltv=");
    push_dec_u64(&mut s, input.ltv_bps as u64);
    s.append("bps");
    s
}

/// `cap N% (Basis)`.
fn resolve_outcome(cap: &SellerConcessionCap) -> (s: String)
    ensures
        s@ == resolve_outcome_text(*cap),
{
    let mut s = String::new();
    s.append("cap ");
    push_dec_u64(&mut s, (cap.cap_bps / 100) as u64);
    s.append("% (");
    s.append(cap.basis.name());
    s.append(")");
    s
}

} // verus!
