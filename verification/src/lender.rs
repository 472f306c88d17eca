//! Lender profiles and per-lender overlays on agency program rules.
//!
//! Overlays can only tighten: a lender may require a higher credit score, a
//! lower maximum LTV or a stricter DTI cap than the agency, never looser
//! ones. [`LenderOverlays::apply`] enforces this.

use vstd::prelude::*;
use crate::money::ProgramCode;
use crate::program_rules::ProgramEligibilityRules;
use crate::versioning::CalendarDate;

verus! {

/// A lender's identity and active status.
#[derive(Clone, Debug)]
pub struct LenderProfile {
    pub lender_id: String,
    pub name: String,
    pub nmls_id: Option<String>,
    pub active: bool,
}

/// Per-lender, per-program rule overrides; `None` keeps the agency rule.
#[derive(Clone, Debug)]
pub struct LenderOverlays {
    pub lender_id: String,
    pub program: ProgramCode,
    /// Minimum credit score; used only when above the agency minimum.
    pub min_credit_score_override: Option<u16>,
    /// Maximum LTV (bps); used only when below the agency maximum.
    pub max_ltv_bps_override: Option<u32>,
    /// Maximum front-end DTI (bps); used only when below the agency maximum.
    pub dti_max_bps_override: Option<u32>,
    pub effective_date: CalendarDate,
}

/// The stricter of an agency minimum and an optional override (the larger).
pub open spec fn tighter_min(agency: u16, o: Option<u16>) -> u16 {
    match o {
        Some(v) => if v > agency { v } else { agency },
        None => agency,
    }
}

/// The stricter of an agency maximum and an optional override (the smaller).
pub open spec fn tighter_max(agency: u32, o: Option<u32>) -> u32 {
    match o {
        Some(v) => if v < agency { v } else { agency },
        None => agency,
    }
}

/// The agency rules with the overlay's stricter values in place.
pub open spec fn applied(o: LenderOverlays, a: ProgramEligibilityRules) -> ProgramEligibilityRules {
    ProgramEligibilityRules {
        min_credit_score: tighter_min(a.min_credit_score, o.min_credit_score_override),
        max_ltv_bps: tighter_max(a.max_ltv_bps, o.max_ltv_bps_override),
        front_end_dti_max_bps: tighter_max(a.front_end_dti_max_bps, o.dti_max_bps_override),
        ..a
    }
}

impl LenderOverlays {
    /// The agency rules tightened by this overlay: each overridden field
    /// takes the override only when it is stricter; every other field is
    /// the agency's.
    pub fn apply(&self, agency: &ProgramEligibilityRules) -> (r: ProgramEligibilityRules)
        ensures
            r == applied(*self, *agency),
    {
        let min_credit_score = match self.min_credit_score_override {
            Some(o) => if o > agency.min_credit_score { o } else { agency.min_credit_score },
            None => agency.min_credit_score,
        };
        let max_ltv_bps = match self.max_ltv_bps_override {
            Some(o) => if o < agency.max_ltv_bps { o } else { agency.max_ltv_bps },
            None => agency.max_ltv_bps,
        };
        let front_end_dti_max_bps = match self.dti_max_bps_override {
            Some(o) => if o < agency.front_end_dti_max_bps { o } else { agency.front_end_dti_max_bps },
            None => agency.front_end_dti_max_bps,
        };
        ProgramEligibilityRules {
            program: agency.program,
            min_credit_score,
            min_credit_score_alt: agency.min_credit_score_alt,
            alt_credit_min_down_payment_bps: agency.alt_credit_min_down_payment_bps,
            max_ltv_bps,
            max_ltv_bps_alt_credit: agency.max_ltv_bps_alt_credit,
            max_ltv_bps_high_balance: agency.max_ltv_bps_high_balance,
            front_end_dti_max_bps,
            requires_primary_residence: agency.requires_primary_residence,
            requires_first_time_buyer: agency.requires_first_time_buyer,
            requires_va_entitlement: agency.requires_va_entitlement,
            requires_usda_eligibility: agency.requires_usda_eligibility,
            requires_ami_income_check: agency.requires_ami_income_check,
            effective_date: agency.effective_date,
        }
    }
}

/// Overlays only tighten: the applied minimum credit score is never below
/// the agency's, the applied maximum LTV and DTI never above the agency's,
/// and every other rule is the agency's.
pub proof fn lemma_overlay_tightens_only(o: LenderOverlays, a: ProgramEligibilityRules)
    ensures
        applied(o, a).min_credit_score >= a.min_credit_score,
        applied(o, a).max_ltv_bps <= a.max_ltv_bps,
        applied(o, a).front_end_dti_max_bps <= a.front_end_dti_max_bps,
        applied(o, a).program == a.program,
        applied(o, a).min_credit_score_alt == a.min_credit_score_alt,
        applied(o, a).max_ltv_bps_alt_credit == a.max_ltv_bps_alt_credit,
        applied(o, a).max_ltv_bps_high_balance == a.max_ltv_bps_high_balance,
        applied(o, a).effective_date == a.effective_date,
{
}

/// Applying an overlay twice changes nothing more than applying it once.
pub proof fn lemma_overlay_idempotent(o: LenderOverlays, a: ProgramEligibilityRules)
    ensures
        applied(o, applied(o, a)) == applied(o, a),
{
}

/// A stricter override is honored; a looser one is ignored.
pub proof fn lemma_overlay_honors_stricter(o: LenderOverlays, a: ProgramEligibilityRules)
    ensures
        o.min_credit_score_override matches Some(v) ==> applied(o, a).min_credit_score == if v
            > a.min_credit_score {
            v
        } else {
            a.min_credit_score
        },
        o.max_ltv_bps_override matches Some(v) ==> applied(o, a).max_ltv_bps == if v < a.max_ltv_bps {
            v
        } else {
            a.max_ltv_bps
        },
        o.dti_max_bps_override matches Some(v) ==> applied(o, a).front_end_dti_max_bps == if v
            < a.front_end_dti_max_bps {
            v
        } else {
            a.front_end_dti_max_bps
        },
{
}

/// Lender profiles and overlays.
#[derive(Clone, Debug)]
pub struct LenderProfileFile {
    pub lenders: Vec<LenderProfile>,
    pub overlays: Vec<LenderOverlays>,
}

} // verus!
