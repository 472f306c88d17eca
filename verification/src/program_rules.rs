//! Program eligibility rules, evaluated before any geographic check:
//! credit score at least the minimum, LTV at most the maximum for the
//! credit tier, front-end DTI at most the maximum.
//!
//! VA uses residual income rather than DTI, so its front-end DTI maximum is
//! set to 9999 bps and the DTI check always passes.

use vstd::prelude::*;
use crate::error::{RefDataError, RefDataResult};
use crate::money::{CreditScore, DtiBasisPoints, LtvBasisPoints, ProgramCode};
use crate::search::{first_where, lemma_first_where_hit, lemma_first_where_none};
use crate::versioning::CalendarDate;

verus! {

/// Agency / GSE eligibility rules for one program. Lender overlays may
/// tighten, never loosen, them.
#[derive(Clone, Copy, Debug, PartialEq, Eq, Structural)]
pub struct ProgramEligibilityRules {
    pub program: ProgramCode,
    /// Standard minimum representative credit score.
    pub min_credit_score: u16,
    /// A lower minimum allowed with a larger down payment (FHA only).
    pub min_credit_score_alt: Option<u16>,
    /// Down payment (bps) that qualifies for the alternative minimum.
    pub alt_credit_min_down_payment_bps: Option<u16>,
    /// Maximum LTV for the standard credit tier (bps).
    pub max_ltv_bps: u32,
    /// Maximum LTV with the alternative credit minimum.
    pub max_ltv_bps_alt_credit: Option<u32>,
    /// Maximum LTV for high-balance loans.
    pub max_ltv_bps_high_balance: Option<u32>,
    /// Maximum front-end DTI (bps); 9999 for VA.
    pub front_end_dti_max_bps: u32,
    pub requires_primary_residence: bool,
    pub requires_first_time_buyer: bool,
    pub requires_va_entitlement: bool,
    pub requires_usda_eligibility: bool,
    /// Income at most 80% AMI (HomeReady / Home Possible).
    pub requires_ami_income_check: bool,
    /// Effective date of the guidelines.
    pub effective_date: CalendarDate,
}

/// The minimum credit score for a down payment: the alternative minimum
/// when the program has one and the down payment reaches its threshold.
pub open spec fn min_score_for(r: ProgramEligibilityRules, down_payment_bps: u32) -> u16 {
    match (r.min_credit_score_alt, r.alt_credit_min_down_payment_bps) {
        (Some(alt_min), Some(alt_dp)) => if down_payment_bps >= alt_dp {
            alt_min
        } else {
            r.min_credit_score
        },
        _ => r.min_credit_score,
    }
}

/// The maximum LTV: the high-balance maximum for high-balance loans when
/// set; else the alternative-credit maximum for a score in the alternative
/// tier; else the standard maximum.
pub open spec fn max_ltv_of(r: ProgramEligibilityRules, score: u16, is_high_balance: bool) -> u32 {
    if is_high_balance && r.max_ltv_bps_high_balance is Some {
        r.max_ltv_bps_high_balance->0
    } else {
        match (r.min_credit_score_alt, r.max_ltv_bps_alt_credit) {
            (Some(alt_min), Some(alt_max)) => if score < r.min_credit_score && score >= alt_min {
                alt_max
            } else {
                r.max_ltv_bps
            },
            _ => r.max_ltv_bps,
        }
    }
}

impl ProgramEligibilityRules {
    /// Minimum credit score for the proposed down payment.
    pub fn min_credit_score_for_down_payment(&self, down_payment_bps: u32) -> (m: u16)
        ensures
            m == min_score_for(*self, down_payment_bps),
    {
        match (self.min_credit_score_alt, self.alt_credit_min_down_payment_bps) {
            (Some(alt_min), Some(alt_dp)) => {
                if down_payment_bps >= alt_dp as u32 {
                    return alt_min;
                }
            },
            _ => {},
        }
        self.min_credit_score
    }

    /// Maximum LTV for the credit score and high-balance flag.
    pub fn max_ltv_for(&self, credit_score: CreditScore, is_high_balance: bool) -> (l: LtvBasisPoints)
        ensures
            l.0 == max_ltv_of(*self, credit_score.0, is_high_balance),
    {
        if is_high_balance {
            match self.max_ltv_bps_high_balance {
                Some(hb_max) => {
                    return LtvBasisPoints(hb_max);
                },
                None => {},
            }
        }
        match (self.min_credit_score_alt, self.max_ltv_bps_alt_credit) {
            (Some(alt_min), Some(alt_max)) => {
                if credit_score.0 < self.min_credit_score && credit_score.0 >= alt_min {
                    return LtvBasisPoints(alt_max);
                }
            },
            _ => {},
        }
        LtvBasisPoints(self.max_ltv_bps)
    }

    /// Front-end DTI limit of the program.
    pub fn front_end_dti_limit(&self) -> (d: DtiBasisPoints)
        ensures
            d.0 == self.front_end_dti_max_bps,
    {
        DtiBasisPoints::new(self.front_end_dti_max_bps)
    }

    /// True if the score meets the minimum for the down payment.
    pub fn credit_score_eligible(&self, score: CreditScore, down_payment_bps: u32) -> (b: bool)
        ensures
            b == (score.0 >= min_score_for(*self, down_payment_bps)),
    {
        let min = self.min_credit_score_for_down_payment(down_payment_bps);
        score.0 >= min
    }

    /// True if the LTV is within the maximum for the score and high-balance
    /// status.
    pub fn ltv_eligible(&self, ltv: LtvBasisPoints, credit_score: CreditScore, is_high_balance: bool) -> (b:
        bool)
        ensures
            b == (ltv.0 <= max_ltv_of(*self, credit_score.0, is_high_balance)),
    {
        ltv.0 <= self.max_ltv_for(credit_score, is_high_balance).0
    }

    /// True if the front-end DTI is within the program's maximum.
    pub fn dti_eligible(&self, front_end_dti: DtiBasisPoints) -> (b: bool)
        ensures
            b == (front_end_dti.0 <= self.front_end_dti_max_bps),
    {
        front_end_dti.0 <= self.front_end_dti_limit().0
    }
}

/// The rules of every program.
#[derive(Clone, Debug)]
pub struct AllProgramRules(pub Vec<ProgramEligibilityRules>);

/// The program's name as the rules report it.
pub open spec fn program_name(p: ProgramCode) -> Seq<char> {
    match p {
        ProgramCode::Conventional => "Conventional"@,
        ProgramCode::HomeReady => "HomeReady"@,
        ProgramCode::HomePossible => "HomePossible"@,
        ProgramCode::HomeOne => "HomeOne"@,
        ProgramCode::Fha => "Fha"@,
        ProgramCode::FhaDpa => "FhaDpa"@,
        ProgramCode::Va => "Va"@,
        ProgramCode::VaJumbo => "VaJumbo"@,
        ProgramCode::Usda => "Usda"@,
        ProgramCode::Bond => "Bond"@,
        ProgramCode::Jumbo => "Jumbo"@,
        ProgramCode::NonQm => "NonQm"@,
    }
}

/// The program's name as the rules report it.
pub fn program_code_str(p: ProgramCode) -> (s: &'static str)
    ensures
        s@ == program_name(p),
{
    match p {
        ProgramCode::Conventional => "Conventional",
        ProgramCode::HomeReady => "HomeReady",
        ProgramCode::HomePossible => "HomePossible",
        ProgramCode::HomeOne => "HomeOne",
        ProgramCode::Fha => "Fha",
        ProgramCode::FhaDpa => "FhaDpa",
        ProgramCode::Va => "Va",
        ProgramCode::VaJumbo => "VaJumbo",
        ProgramCode::Usda => "Usda",
        ProgramCode::Bond => "Bond",
        ProgramCode::Jumbo => "Jumbo",
        ProgramCode::NonQm => "NonQm",
    }
}

impl AllProgramRules {
    /// The first rules of the program, or `NotFound` naming the program.
    pub fn for_program(&self, program: ProgramCode) -> (r: RefDataResult<&ProgramEligibilityRules>)
        ensures
            match r {
                Ok(rules) => first_where(self.0@, |x: ProgramEligibilityRules| x.program == program)
                    == Some(*rules),
                Err(e) => first_where(self.0@, |x: ProgramEligibilityRules| x.program == program) is None
                    && (e matches RefDataError::NotFound { data_type, fips, year } && data_type@
                    == "ProgramEligibilityRules"@ && fips@ == program_name(program) && year == 0),
            },
    {
        let ghost pred = |x: ProgramEligibilityRules| x.program == program;
        let mut i: usize = 0;
        while i < self.0.len()
            invariant
                0 <= i <= self.0@.len(),
                pred == (|x: ProgramEligibilityRules| x.program == program),
                forall|j: int| 0 <= j < i ==> !pred(#[trigger] self.0@[j]),
            decreases self.0@.len() - i,
        {
            if self.0[i].program == program {
                proof {
                    lemma_first_where_hit(self.0@, pred, i as int);
                }
                return Ok(&self.0[i]);
            }
            i = i + 1;
        }
        proof {
            lemma_first_where_none(self.0@, pred);
        }
        Err(
            RefDataError::NotFound {
                data_type: "ProgramEligibilityRules",
                fips: program_code_str(program).to_owned(),
                year: 0,
            },
        )
    }
}

} // verus!
