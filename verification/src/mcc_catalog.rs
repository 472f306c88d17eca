//! Mortgage Credit Certificate (MCC) program catalog.
//!
//! An MCC converts a percentage of the borrower's annual mortgage interest
//! into a dollar-for-dollar federal income tax credit; above a 20% credit
//! rate the annual credit is capped at $2,000. Eligibility gates:
//! first-time-homebuyer status (with veteran and targeted-area exemptions),
//! household income limits (by size and targeted-area status) and
//! purchase-price limits.

use vstd::prelude::*;
use vstd::string::*;
use crate::money::{trunc_div, Cents};
use crate::provenance::{prov_is, step_texts, Derived, Provenance};
use crate::search::{
    first_where, lemma_first_where_hit, lemma_first_where_none, listed_if, push_msg,
    strings_view,
};
use crate::text::{bool_str, bool_text, dec_int, dec_nat, dollars_text, eq_ignore_case, push_dec_i64, push_dec_u64, push_dollars, str_eq_ignore_ascii_case};

verus! {

/// One MCC program in the catalog.
#[derive(Clone, Debug, PartialEq, Eq)]
pub struct MccProgram {
    pub program_id: String,
    /// Two-letter state code the program serves.
    pub state: String,
    pub administering_agency: String,
    pub program_name: String,
    /// Credit rate in basis points (4000 = 40% of annual interest).
    pub credit_rate_bps: u32,
    /// Annual dollar cap on the credit, in cents; `0` means no cap.
    pub annual_credit_cap_cents: i64,
    /// Whether first-time homebuyer status is required.
    pub fthb_required: bool,
    /// Veterans are exempt from the FTHB requirement.
    pub veteran_fthb_exempt: bool,
    /// Purchases in a federally targeted area are exempt from FTHB.
    pub targeted_area_fthb_exempt: bool,
    pub income_limit_1_2_cents: i64,
    pub income_limit_3plus_cents: i64,
    pub income_limit_targeted_1_2_cents: i64,
    pub income_limit_targeted_3plus_cents: i64,
    pub price_limit_cents: i64,
    pub price_limit_targeted_cents: i64,
}

/// Income limit (cents) for a household size and targeted-area status.
pub open spec fn mcc_income_limit(p: MccProgram, household_size: u8, targeted: bool) -> i64 {
    if targeted {
        if household_size <= 2 { p.income_limit_targeted_1_2_cents } else { p.income_limit_targeted_3plus_cents }
    } else {
        if household_size <= 2 { p.income_limit_1_2_cents } else { p.income_limit_3plus_cents }
    }
}

/// Purchase-price limit (cents) for targeted-area status.
pub open spec fn mcc_price_limit(p: MccProgram, targeted: bool) -> i64 {
    if targeted { p.price_limit_targeted_cents } else { p.price_limit_cents }
}

impl MccProgram {
    /// Applicable income limit given household size and targeted-area status.
    pub fn income_limit(&self, household_size: u8, targeted: bool) -> (c: Cents)
        ensures
            c.0 == mcc_income_limit(*self, household_size, targeted),
    {
        let small = household_size <= 2;
        Cents(
            if targeted {
                if small { self.income_limit_targeted_1_2_cents } else { self.income_limit_targeted_3plus_cents }
            } else {
                if small { self.income_limit_1_2_cents } else { self.income_limit_3plus_cents }
            },
        )
    }

    /// A copy of the program.
    pub fn copy(&self) -> (r: MccProgram)
        ensures
            r == *self,
    {
        MccProgram {
            program_id: self.program_id.clone(),
            state: self.state.clone(),
            administering_agency: self.administering_agency.clone(),
            program_name: self.program_name.clone(),
            credit_rate_bps: self.credit_rate_bps,
            annual_credit_cap_cents: self.annual_credit_cap_cents,
            fthb_required: self.fthb_required,
            veteran_fthb_exempt: self.veteran_fthb_exempt,
            targeted_area_fthb_exempt: self.targeted_area_fthb_exempt,
            income_limit_1_2_cents: self.income_limit_1_2_cents,
            income_limit_3plus_cents: self.income_limit_3plus_cents,
            income_limit_targeted_1_2_cents: self.income_limit_targeted_1_2_cents,
            income_limit_targeted_3plus_cents: self.income_limit_targeted_3plus_cents,
            price_limit_cents: self.price_limit_cents,
            price_limit_targeted_cents: self.price_limit_targeted_cents,
        }
    }

    /// Applicable purchase-price limit given targeted-area status.
    pub fn price_limit(&self, targeted: bool) -> (c: Cents)
        ensures
            c.0 == mcc_price_limit(*self, targeted),
    {
        Cents(if targeted { self.price_limit_targeted_cents } else { self.price_limit_cents })
    }
}

/// Borrower / transaction facts needed to evaluate MCC eligibility.
#[derive(Clone, Debug)]
pub struct MccEligibilityInput {
    pub state: String,
    pub is_first_time_homebuyer: bool,
    pub is_veteran: bool,
    pub in_targeted_area: bool,
    pub household_size: u8,
    pub annual_household_income: Cents,
    pub purchase_price: Cents,
}

/// The result of evaluating MCC eligibility for a borrower against a program.
#[derive(Clone, Debug, PartialEq, Eq)]
pub struct MccOutcome {
    pub eligible: bool,
    pub program_id: String,
    pub credit_rate_bps: u32,
    /// Reasons the borrower failed (empty when eligible).
    pub disqualifiers: Vec<String>,
}

/// An MCC catalog: one dataset version of programs.
#[derive(Clone, Debug)]
pub struct MccCatalogFile {
    pub effective_date: String,
    pub source_citation: String,
    pub programs: Vec<MccProgram>,
}

/// The first program serving `state` (compared without regard to ASCII case).
pub open spec fn mcc_program_for(programs: Seq<MccProgram>, state: Seq<char>) -> Option<MccProgram> {
    first_where(programs, |p: MccProgram| eq_ignore_case(p.state@, state))
}

/// The first-time-homebuyer gate fails: required, not met, no exemption.
pub open spec fn mcc_fthb_fails(p: MccProgram, input: MccEligibilityInput) -> bool {
    &&& p.fthb_required
    &&& !input.is_first_time_homebuyer
    &&& !(p.veteran_fthb_exempt && input.is_veteran)
    &&& !(p.targeted_area_fthb_exempt && input.in_targeted_area)
}

/// Household income is above the applicable limit.
pub open spec fn mcc_income_fails(p: MccProgram, input: MccEligibilityInput) -> bool {
    input.annual_household_income.0 > mcc_income_limit(p, input.household_size, input.in_targeted_area)
}

/// Purchase price is above the applicable limit.
pub open spec fn mcc_price_fails(p: MccProgram, input: MccEligibilityInput) -> bool {
    input.purchase_price.0 > mcc_price_limit(p, input.in_targeted_area)
}

/// The reasons the borrower fails the program's gates, in gate order.
pub open spec fn mcc_disqualifiers(p: MccProgram, input: MccEligibilityInput) -> Seq<Seq<char>> {
    listed_if(mcc_fthb_fails(p, input), "not a first-time homebuyer; no exemption applies"@)
        + listed_if(
        mcc_income_fails(p, input),
        "household income $"@ + dollars_text(input.annual_household_income.0 as int)
            + " exceeds limit $"@ + dollars_text(
            mcc_income_limit(p, input.household_size, input.in_targeted_area) as int,
        ),
    ) + listed_if(
        mcc_price_fails(p, input),
        "purchase price $"@ + dollars_text(input.purchase_price.0 as int) + " exceeds limit $"@
            + dollars_text(mcc_price_limit(p, input.in_targeted_area) as int),
    )
}

/// The first-time-homebuyer step: (rule, inputs, outcome).
pub open spec fn mcc_fthb_step(p: MccProgram, i: MccEligibilityInput) -> (Seq<char>, Seq<char>, Seq<char>) {
    let rule = "first_time_homebuyer_requirement"@;
    if p.fthb_required && !i.is_first_time_homebuyer {
        if p.veteran_fthb_exempt && i.is_veteran {
            (rule, "is_fthb=false, is_veteran="@ + bool_text(i.is_veteran), "satisfied via veteran exemption"@)
        } else if p.targeted_area_fthb_exempt && i.in_targeted_area {
            (
                rule,
                "is_fthb=false, targeted_area="@ + bool_text(i.in_targeted_area),
                "satisfied via targeted-area exemption"@,
            )
        } else {
            (
                rule,
                "is_fthb=false, is_veteran="@ + bool_text(i.is_veteran) + ", targeted_area="@ + bool_text(
                    i.in_targeted_area,
                ),
                "FAILED — no exemption"@,
            )
        }
    } else {
        (
            rule,
            "fthb_required="@ + bool_text(p.fthb_required) + ", is_fthb="@ + bool_text(i.is_first_time_homebuyer),
            "satisfied"@,
        )
    }
}

/// The outcome of a limit gate: failed with the limit, or satisfied under it.
pub open spec fn limit_outcome(fails: bool, limit: int) -> Seq<char> {
    if fails {
        "FAILED — exceeds limit $"@ + dollars_text(limit)
    } else {
        "satisfied (limit $"@ + dollars_text(limit) + ")"@
    }
}

/// The steps of an evaluation: program match, the three gates, and the
/// final determination counting the failed gates.
pub open spec fn mcc_trail(p: MccProgram, i: MccEligibilityInput) -> Seq<(Seq<char>, Seq<char>, Seq<char>)> {
    let income_limit = mcc_income_limit(p, i.household_size, i.in_targeted_area);
    let price_limit = mcc_price_limit(p, i.in_targeted_area);
    let failed = mcc_disqualifiers(p, i).len();
    seq![
        ("lookup_program_by_state"@, "state="@ + i.state@, "matched '"@ + p.program_name@ + "'"@),
        mcc_fthb_step(p, i),
        (
            "income_limit"@,
            "income=$"@ + dollars_text(i.annual_household_income.0 as int) + ", size="@ + dec_nat(
                i.household_size as nat,
            ) + ", targeted="@ + bool_text(i.in_targeted_area),
            limit_outcome(mcc_income_fails(p, i), income_limit as int),
        ),
        (
            "purchase_price_limit"@,
            "price=$"@ + dollars_text(i.purchase_price.0 as int) + ", targeted="@ + bool_text(i.in_targeted_area),
            limit_outcome(mcc_price_fails(p, i), price_limit as int),
        ),
        (
            "final_determination"@,
            dec_nat(failed) + " gate(s) failed"@,
            if failed == 0 { "ELIGIBLE"@ } else { "INELIGIBLE"@ },
        ),
    ]
}

/// The provenance of a catalog answer about program `p`.
pub open spec fn mcc_prov(
    cat: MccCatalogFile,
    p: MccProgram,
    d: Provenance,
    file: Seq<char>,
    req: u16,
    res: u16,
) -> bool {
    prov_is(d, "mcc_catalog"@, file, cat.source_citation@, cat.effective_date@, p.program_id@, req, res)
}


impl MccCatalogFile {
    fn provenance_for(&self, program: &MccProgram, source_file: &str, requested: u16, resolved: u16) -> (r:
        Provenance)
        ensures
            mcc_prov(*self, *program, r, source_file@, requested, resolved),
    {
        Provenance {
            dataset: "mcc_catalog".to_owned(),
            source_file: source_file.to_owned(),
            source_citation: self.source_citation.clone(),
            effective_date: self.effective_date.clone(),
            record_id: program.program_id.clone(),
            requested_version: requested,
            resolved_version: resolved,
        }
    }

    /// Index of the first program serving `state`.
    fn find_state(&self, state: &str) -> (r: Option<usize>)
        ensures
            match r {
                Some(k) => k < self.programs@.len() && mcc_program_for(self.programs@, state@)
                    == Some(self.programs@[k as int]),
                None => mcc_program_for(self.programs@, state@) is None,
            },
    {
        let ghost pred = |p: MccProgram| eq_ignore_case(p.state@, state@);
        let mut i: usize = 0;
        while i < self.programs.len()
            invariant
                0 <= i <= self.programs@.len(),
                pred == (|p: MccProgram| eq_ignore_case(p.state@, state@)),
                forall|j: int| 0 <= j < i ==> !pred(#[trigger] self.programs@[j]),
            decreases self.programs@.len() - i,
        {
            if str_eq_ignore_ascii_case(self.programs[i].state.as_str(), state) {
                proof {
                    lemma_first_where_hit(self.programs@, pred, i as int);
                }
                return Some(i);
            }
            i = i + 1;
        }
        proof {
            lemma_first_where_none(self.programs@, pred);
        }
        None
    }

    /// The MCC program serving a state, with provenance and a
    /// `lookup_program_by_state` step; `None` when the state has no program.
    pub fn lookup(&self, state: &str, source_file: &str, requested: u16, resolved: u16) -> (r: Option<
        Derived<MccProgram>,
    >)
        ensures
            r is Some <==> mcc_program_for(self.programs@, state@) is Some,
            r matches Some(d) ==> {
                let p = mcc_program_for(self.programs@, state@)->0;
                &&& d.value == p
                &&& mcc_prov(*self, p, d.provenance, source_file@, requested, resolved)
                &&& step_texts(d.steps@) == seq![
                    (
                        "lookup_program_by_state"@,
                        "state="@ + state@,
                        "matched '"@ + p.program_name@ + "' ("@ + p.administering_agency@ + ")"@,
                    ),
                ]
            },
    {
        let k = match self.find_state(state) {
            None => return None,
            Some(k) => k,
        };
        let program = &self.programs[k];
        let prov = self.provenance_for(program, source_file, requested, resolved);
        let mut inputs = String::new();
        inputs.append("state=");
        inputs.append(state);
        let mut outcome = String::new();
        outcome.append("matched '");
        outcome.append(program.program_name.as_str());
        outcome.append("' (");
        outcome.append(program.administering_agency.as_str());
        outcome.append(")");
        let d = Derived::new(program.copy(), prov).with_step("lookup_program_by_state", inputs, outcome);
        assert(step_texts(d.steps@) =~= seq![
            (
                "lookup_program_by_state"@,
                "state="@ + state@,
                "matched '"@ + program.program_name@ + "' ("@ + program.administering_agency@ + ")"@,
            ),
        ]);
        Some(d)
    }

    /// Evaluates MCC eligibility for a borrower against the program serving
    /// the borrower's state: the first-time-homebuyer, income and price gates,
    /// each recorded as a step. Eligible exactly when no gate fails; `None`
    /// when the state has no program.
    pub fn evaluate(&self, input: &MccEligibilityInput, source_file: &str, requested: u16, resolved: u16) -> (r:
        Option<Derived<MccOutcome>>)
        ensures
            r is Some <==> mcc_program_for(self.programs@, input.state@) is Some,
            r matches Some(d) ==> {
                let p = mcc_program_for(self.programs@, input.state@)->0;
                &&& d.value.program_id@ == p.program_id@
                &&& d.value.credit_rate_bps == p.credit_rate_bps
                &&& strings_view(d.value.disqualifiers@) == mcc_disqualifiers(p, *input)
                &&& d.value.eligible == (mcc_disqualifiers(p, *input).len() == 0)
                &&& mcc_prov(*self, p, d.provenance, source_file@, requested, resolved)
                &&& step_texts(d.steps@) == mcc_trail(p, *input)
            },
    {
        let k = match self.find_state(input.state.as_str()) {
            None => return None,
            Some(k) => k,
        };
        let program = &self.programs[k];
        let ghost trail = mcc_trail(*program, *input);
        let prov = self.provenance_for(program, source_file, requested, resolved);
        let mut disqualifiers: Vec<String> = Vec::new();
        let mut derived = Derived::new(
            MccOutcome {
                eligible: false,
                program_id: program.program_id.clone(),
                credit_rate_bps: program.credit_rate_bps,
                disqualifiers: Vec::new(),
            },
            prov,
        );
        let mut l_in = String::new();
        l_in.append("state=");
        l_in.append(input.state.as_str());
        let mut l_out = String::new();
        l_out.append("matched '");
        l_out.append(program.program_name.as_str());
        l_out.append("'");
        derived.push_step("lookup_program_by_state", l_in, l_out);
        assert(step_texts(derived.steps@) =~= trail.take(1));

        // Gate 1: first-time homebuyer (with exemptions).
        if program.fthb_required && !input.is_first_time_homebuyer {
            let vet_ok = program.veteran_fthb_exempt && input.is_veteran;
            let targeted_ok = program.targeted_area_fthb_exempt && input.in_targeted_area;
            if vet_ok {
                let mut f_in = String::new();
                f_in.append("is_fthb=false, is_veteran=");
                f_in.append(bool_str(input.is_veteran));
                derived.push_step(
                    "first_time_homebuyer_requirement",
                    f_in,
                    "satisfied via veteran exemption".to_owned(),
                );
            } else if targeted_ok {
                let mut f_in = String::new();
                f_in.append("is_fthb=false, targeted_area=");
                f_in.append(bool_str(input.in_targeted_area));
                derived.push_step(
                    "first_time_homebuyer_requirement",
                    f_in,
                    "satisfied via targeted-area exemption".to_owned(),
                );
            } else {
                push_msg(&mut disqualifiers, "not a first-time homebuyer; no exemption applies".to_owned());
                let mut f_in = String::new();
                f_in.append("is_fthb=false, is_veteran=");
                f_in.append(bool_str(input.is_veteran));
                f_in.append(", targeted_area=");
                f_in.append(bool_str(input.in_targeted_area));
                derived.push_step(
                    "first_time_homebuyer_requirement",
                    f_in,
                    "FAILED — no exemption".to_owned(),
                );
            }
        } else {
            let mut f_in = String::new();
            f_in.append("fthb_required=");
            f_in.append(bool_str(program.fthb_required));
            f_in.append(", is_fthb=");
            f_in.append(bool_str(input.is_first_time_homebuyer));
            derived.push_step("first_time_homebuyer_requirement", f_in, "satisfied".to_owned());
        }
        assert(step_texts(derived.steps@) =~= trail.take(2));
        let ghost dq1 = strings_view(disqualifiers@);
        assert(dq1 =~= listed_if(
            mcc_fthb_fails(*program, *input),
            "not a first-time homebuyer; no exemption applies"@,
        ));

        // Gate 2: income limit.
        let income_limit = program.income_limit(input.household_size, input.in_targeted_area);
        let mut i_in = String::new();
        i_in.append("income=$");
        push_dollars(&mut i_in, input.annual_household_income.0);
        i_in.append(", size=");
        push_dec_u64(&mut i_in, input.household_size as u64);
        i_in.append(", targeted=");
        i_in.append(bool_str(input.in_targeted_area));
        if input.annual_household_income.0 > income_limit.0 {
            let mut m = String::new();
            m.append("household income $");
            push_dollars(&mut m, input.annual_household_income.0);
            m.append(" exceeds limit $");
            push_dollars(&mut m, income_limit.0);
            push_msg(&mut disqualifiers, m);
            let mut o = String::new();
            o.append("FAILED — exceeds limit $");
            push_dollars(&mut o, income_limit.0);
            derived.push_step("income_limit", i_in, o);
        } else {
            let mut o = String::new();
            o.append("satisfied (limit $");
            push_dollars(&mut o, income_limit.0);
            o.append(")");
            derived.push_step("income_limit", i_in, o);
        }
        assert(step_texts(derived.steps@) =~= trail.take(3));
        let ghost dq2 = strings_view(disqualifiers@);
        assert(dq2 =~= dq1 + listed_if(
            mcc_income_fails(*program, *input),
            "household income $"@ + dollars_text(input.annual_household_income.0 as int)
                + " exceeds limit $"@ + dollars_text(income_limit.0 as int),
        ));

        // Gate 3: purchase-price limit.
        let price_limit = program.price_limit(input.in_targeted_area);
        let mut p_in = String::new();
        p_in.append("price=$");
        push_dollars(&mut p_in, input.purchase_price.0);
        p_in.append(", targeted=");
        p_in.append(bool_str(input.in_targeted_area));
        if input.purchase_price.0 > price_limit.0 {
            let mut m = String::new();
            m.append("purchase price $");
            push_dollars(&mut m, input.purchase_price.0);
            m.append(" exceeds limit $");
            push_dollars(&mut m, price_limit.0);
            push_msg(&mut disqualifiers, m);
            let mut o = String::new();
            o.append("FAILED — exceeds limit $");
            push_dollars(&mut o, price_limit.0);
            derived.push_step("purchase_price_limit", p_in, o);
        } else {
            let mut o = String::new();
            o.append("satisfied (limit $");
            push_dollars(&mut o, price_limit.0);
            o.append(")");
            derived.push_step("purchase_price_limit", p_in, o);
        }
        assert(step_texts(derived.steps@) =~= trail.take(4));
        let ghost dq3 = strings_view(disqualifiers@);
        assert(dq3 =~= dq2 + listed_if(
            mcc_price_fails(*program, *input),
            "purchase price $"@ + dollars_text(input.purchase_price.0 as int) + " exceeds limit $"@
                + dollars_text(price_limit.0 as int),
        ));
        assert(dq3 =~= mcc_disqualifiers(*program, *input));

        let eligible = disqualifiers.len() == 0;
        let mut f_in = String::new();
        push_dec_u64(&mut f_in, disqualifiers.len() as u64);
        f_in.append(" gate(s) failed");
        derived.push_step(
            "final_determination",
            f_in,
            if eligible { "ELIGIBLE".to_owned() } else { "INELIGIBLE".to_owned() },
        );
        assert(step_texts(derived.steps@) =~= trail);
        derived.value.eligible = eligible;
        derived.value.disqualifiers = disqualifiers;
        Some(derived)
    }
}

/// The annual credit: the credit rate applied to the interest (rounded
/// toward zero), limited to a non-zero cap.
pub open spec fn mcc_credit(rate_bps: u32, cap: i64, annual_interest: int) -> int {
    let uncapped = trunc_div(annual_interest * rate_bps, 10_000);
    if cap > 0 && uncapped > cap { cap as int } else { uncapped as i64 as int }
}

/// The two steps of a credit estimate: the rate applied to the interest
/// (whole dollars; the uncapped credit's dollars as a 64-bit integer), then
/// the cap.
pub open spec fn mcc_credit_trail(rate_bps: u32, cap: i64, annual_interest: int) -> Seq<
    (Seq<char>, Seq<char>, Seq<char>),
> {
    let uncapped = trunc_div(annual_interest * rate_bps, 10_000);
    let capped = cap > 0 && uncapped > cap;
    seq![
        (
            "apply_credit_rate"@,
            "annual_interest=$"@ + dollars_text(annual_interest) + ", rate="@ + dec_nat((rate_bps / 100) as nat)
                + "%"@,
            "uncapped credit=$"@ + dec_int(trunc_div(uncapped, 100) as i64 as int),
        ),
        (
            "apply_annual_cap"@,
            "cap=$"@ + if cap > 0 { dollars_text(cap as int) } else { "none"@ },
            (if capped { "capped to $"@ } else { "under cap, credit=$"@ }) + dollars_text(
                mcc_credit(rate_bps, cap, annual_interest),
            ),
        ),
    ]
}

/// Estimates the annual MCC tax credit from the program and the borrower's
/// first-year mortgage interest: `min(cap, rate × interest)`, where a `0`
/// cap means uncapped. Extends the program's trail with the rate and cap
/// steps.
pub fn estimate_annual_credit(program: Derived<MccProgram>, annual_interest: Cents) -> (r: Derived<
    Cents,
>)
    ensures
        r.value.0 == mcc_credit(
            program.value.credit_rate_bps,
            program.value.annual_credit_cap_cents,
            annual_interest.0 as int,
        ),
        r.provenance == program.provenance,
        step_texts(r.steps@) == step_texts(program.steps@) + mcc_credit_trail(
            program.value.credit_rate_bps,
            program.value.annual_credit_cap_cents,
            annual_interest.0 as int,
        ),
        annual_interest.0 >= 0 && program.value.annual_credit_cap_cents > 0 ==> r.value.0
            <= program.value.annual_credit_cap_cents,
{
    let rate_bps = program.value.credit_rate_bps;
    let cap = program.value.annual_credit_cap_cents;
    assert((annual_interest.0 as i128) * (rate_bps as i128) <= i64::MAX * u32::MAX) by (nonlinear_arith)
        requires
            0 <= rate_bps <= u32::MAX,
            annual_interest.0 <= i64::MAX,
    ;
    assert((annual_interest.0 as i128) * (rate_bps as i128) >= i64::MIN * u32::MAX) by (nonlinear_arith)
        requires
            0 <= rate_bps <= u32::MAX,
            annual_interest.0 >= i64::MIN,
    ;
    let uncapped: i128 = (annual_interest.0 as i128) * (rate_bps as i128) / 10_000;
    let capped = cap > 0 && uncapped > cap as i128;
    let credit: i64 = if capped { cap } else { #[verifier::truncate] (uncapped as i64) };
    if annual_interest.0 >= 0 {
        assert((annual_interest.0 as i128) * (rate_bps as i128) >= 0) by (nonlinear_arith)
            requires
                annual_interest.0 >= 0,
                0 <= rate_bps,
        ;
    }
    let mut r_in = String::new();
    r_in.append("annual_interest=$");
    push_dollars(&mut r_in, annual_interest.0);
    r_in.append(", rate=");
    push_dec_u64(&mut r_in, (rate_bps / 100) as u64);
    r_in.append("%");
    let mut r_out = String::new();
    r_out.append("uncapped credit=$");
    push_dec_i64(&mut r_out, #[verifier::truncate] ((uncapped / 100) as i64));
    let mut c_in = String::new();
    c_in.append("cap=$");
    if cap > 0 {
        push_dollars(&mut c_in, cap);
    } else {
        c_in.append("none");
    }
    let mut c_out = String::new();
    if capped {
        c_out.append("capped to $");
    } else {
        c_out.append("under cap, credit=$");
    }
    push_dollars(&mut c_out, credit);
    let d = program.map(|_p: MccProgram| -> (c: Cents)
        ensures
            c.0 == credit,
        { Cents(credit) });
    let d = d.with_step("apply_credit_rate", r_in, r_out);
    let d = d.with_step("apply_annual_cap", c_in, c_out);
    assert(step_texts(d.steps@) =~= step_texts(program.steps@) + mcc_credit_trail(
        rate_bps,
        cap,
        annual_interest.0 as int,
    ));
    d
}

/// The limits a borrower is held to: a targeted-area purchase is held to the
/// program's targeted-area price limit and targeted-area income limits, any
/// other purchase to the standard ones; households of one or two persons use
/// the 1–2 person income limit, larger ones the 3+ limit.
pub proof fn lemma_mcc_limits_by_area(p: MccProgram, household_size: u8)
    ensures
        mcc_price_limit(p, true) == p.price_limit_targeted_cents,
        mcc_price_limit(p, false) == p.price_limit_cents,
        household_size <= 2 ==> mcc_income_limit(p, household_size, true) == p.income_limit_targeted_1_2_cents,
        household_size > 2 ==> mcc_income_limit(p, household_size, true) == p.income_limit_targeted_3plus_cents,
        household_size <= 2 ==> mcc_income_limit(p, household_size, false) == p.income_limit_1_2_cents,
        household_size > 2 ==> mcc_income_limit(p, household_size, false) == p.income_limit_3plus_cents,
{
}

/// A borrower has no disqualifier exactly when the first-time-homebuyer
/// requirement is met or waived, household income is at most the applicable
/// income limit, and the purchase price is at most the price limit for the
/// area (the targeted-area limit in a targeted area); each failed gate adds
/// exactly one disqualifier.
pub proof fn lemma_mcc_eligible_iff(p: MccProgram, i: MccEligibilityInput)
    ensures
        mcc_disqualifiers(p, i).len() == 0 <==> {
            &&& (!p.fthb_required || i.is_first_time_homebuyer || (p.veteran_fthb_exempt && i.is_veteran)
                || (p.targeted_area_fthb_exempt && i.in_targeted_area))
            &&& i.annual_household_income.0 <= (if i.in_targeted_area {
                if i.household_size <= 2 { p.income_limit_targeted_1_2_cents } else { p.income_limit_targeted_3plus_cents }
            } else {
                if i.household_size <= 2 { p.income_limit_1_2_cents } else { p.income_limit_3plus_cents }
            })
            &&& i.purchase_price.0 <= (if i.in_targeted_area {
                p.price_limit_targeted_cents
            } else {
                p.price_limit_cents
            })
        },
        mcc_disqualifiers(p, i).len() == (if mcc_fthb_fails(p, i) { 1int } else { 0 }) + (if mcc_income_fails(
            p,
            i,
        ) { 1int } else { 0 }) + (if mcc_price_fails(p, i) { 1int } else { 0 }),
{
}

} // verus!
