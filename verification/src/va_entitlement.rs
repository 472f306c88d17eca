//! VA loan limits, guaranty, and entitlement analysis.
//!
//! Since 2020 VA imposes no loan-amount cap for veterans with full
//! entitlement: VA guarantees 25% and the veteran can borrow whatever the
//! lender approves with zero down. The county conforming limit (the GSE
//! limit) only governs partial entitlement, where the remaining entitlement
//! is 25% of the county limit less the entitlement already charged, the
//! zero-down maximum is four times the remaining entitlement, and a larger
//! loan needs a down payment of 25% of the gap. IRRRLs are guaranteed at a
//! flat 25% whatever entitlement remains; a joint loan with a non-spouse non-veteran guarantees only the
//! veteran's share and the non-veteran share carries a down payment.

use vstd::prelude::*;
use vstd::string::*;
use crate::money::{trunc_div, trunc_div_signed, Cents};
use crate::provenance::{prov_is, rule_names, step_texts, Derived, Provenance};
use crate::search::{first_where, lemma_first_where_hit, lemma_first_where_none, listed_if};
use crate::text::{dec_nat, dollars_text, push_dec_u64, push_dollars};

verus! {

/// Entitlement status as reflected on the Certificate of Eligibility (COE).
#[derive(Clone, Copy, Debug, PartialEq, Eq, Structural)]
pub enum EntitlementStatus {
    /// Never used, or fully restored — no county-limit cap applies.
    Full,
    /// Some entitlement is charged to an active or unrestored prior loan.
    Partial,
}

impl EntitlementStatus {
    /// The variant's name.
    pub open spec fn spec_name(self) -> Seq<char> {
        match self {
            EntitlementStatus::Full => "Full"@,
            EntitlementStatus::Partial => "Partial"@,
        }
    }

    /// The variant's name.
    pub fn name(self) -> (s: &'static str)
        ensures
            s@ == self.spec_name(),
    {
        match self {
            EntitlementStatus::Full => "Full",
            EntitlementStatus::Partial => "Partial",
        }
    }
}

/// Loan purpose — entitlement treatment differs for IRRRLs.
#[derive(Clone, Copy, Debug, PartialEq, Eq, Structural)]
pub enum VaLoanPurpose {
    /// Purchase, construction, or condominium.
    Purchase,
    /// Interest Rate Reduction Refinancing Loan — always guaranteed at 25%.
    Irrrl,
    /// Cash-out / regular refinance — treated like a purchase for guaranty.
    CashOutRefinance,
}

/// COE entitlement code: the recorded basis for full or partial entitlement.
#[derive(Clone, Copy, Debug, PartialEq, Eq, Structural)]
pub enum CoeEntitlementCode {
    /// No prior use — full entitlement.
    NeverUsed,
    /// Prior VA loan paid in full and property disposed — entitlement restored.
    RestoredDisposedPaidInFull,
    /// One-time restoration used (loan paid off, property retained).
    OneTimeRestoration,
    /// Prior VA loan active/unrestored — partial entitlement.
    InUseNotRestored,
    /// Entitlement substituted by another veteran who assumed the loan.
    SubstitutionOfEntitlement,
}

impl CoeEntitlementCode {
    /// The entitlement status this code implies for the guaranty calculation:
    /// partial only for an active, unrestored prior loan.
    pub fn implies_status(self) -> (s: EntitlementStatus)
        ensures
            s == (if self == CoeEntitlementCode::InUseNotRestored {
                EntitlementStatus::Partial
            } else {
                EntitlementStatus::Full
            }),
    {
        match self {
            CoeEntitlementCode::InUseNotRestored => EntitlementStatus::Partial,
            _ => EntitlementStatus::Full,
        }
    }
}

/// One statutory guaranty band.
#[derive(Clone, Debug)]
pub struct GuarantyBand {
    pub min_loan_cents: i64,
    pub max_loan_cents: i64,
    /// Percentage of the loan in bps; `None` if the band is a flat amount.
    pub pct_bps: Option<u32>,
    /// Flat guaranty in cents; `None` if percentage-based.
    pub flat_cents: Option<i64>,
    /// Dollar cap on the percentage result; `None` if uncapped.
    pub max_cents: Option<i64>,
    pub note: String,
}

/// Statutory VA entitlement parameters (one dataset version).
#[derive(Clone, Debug)]
pub struct VaEntitlementParams {
    pub effective_date: String,
    pub source_citation: String,
    /// Basic (tier-1) entitlement in cents.
    pub basic_entitlement_cents: i64,
    /// Loan amount up to which tier-1 alone gives a 25% guaranty.
    pub tier1_ceiling_cents: i64,
    /// VA guaranty percentage in basis points (2500 = 25%).
    pub guaranty_pct_bps: u32,
    /// Down-payment guidance for the non-veteran share of a joint loan, bps.
    pub joint_nonveteran_dp_pct_bps: u32,
    /// Statutory guaranty schedule.
    pub guaranty_bands: Vec<GuarantyBand>,
    /// IRRRL guaranty percentage in bps (always 25% of the loan).
    pub irrrl_guaranty_pct_bps: u32,
    pub irrrl_note: String,
}

/// The band covers the loan: `min < loan <= max`.
pub open spec fn band_covers(b: GuarantyBand, loan: int) -> bool {
    b.min_loan_cents < loan && loan <= b.max_loan_cents
}

/// The guaranty a band gives a loan: the flat amount, else the percentage
/// share (rounded toward zero) limited by the band's cap, else nothing.
pub open spec fn band_guaranty(b: GuarantyBand, loan: int) -> int {
    match b.flat_cents {
        Some(flat) => flat as int,
        None => match b.pct_bps {
            Some(pct) => {
                let raw = trunc_div(loan * pct, 10_000);
                match b.max_cents {
                    Some(cap) => if raw < cap { raw } else { cap as int },
                    None => raw,
                }
            },
            None => 0,
        },
    }
}

/// The statutory guaranty under full entitlement and the note of the band
/// that gave it: the first band covering the loan, else the default
/// percentage of the loan.
pub open spec fn statutory(p: VaEntitlementParams, loan: int) -> (int, Seq<char>) {
    match first_where(p.guaranty_bands@, |b: GuarantyBand| band_covers(b, loan)) {
        Some(b) => (band_guaranty(b, loan), b.note@),
        None => (trunc_div(loan * p.guaranty_pct_bps, 10_000), "default 25%"@),
    }
}

impl VaEntitlementParams {
    /// The statutory maximum guaranty for a loan under full entitlement, per
    /// the band schedule, with the governing band's note.
    pub fn statutory_guaranty(&self, loan_cents: i64) -> (r: (i64, String))
        requires
            i64::MIN <= statutory(*self, loan_cents as int).0 <= i64::MAX,
        ensures
            r.0 == statutory(*self, loan_cents as int).0,
            r.1@ == statutory(*self, loan_cents as int).1,
    {
        let ghost pred = |b: GuarantyBand| band_covers(b, loan_cents as int);
        let mut i: usize = 0;
        while i < self.guaranty_bands.len()
            invariant
                0 <= i <= self.guaranty_bands@.len(),
                pred == (|b: GuarantyBand| band_covers(b, loan_cents as int)),
                i64::MIN <= statutory(*self, loan_cents as int).0 <= i64::MAX,
                forall|j: int| 0 <= j < i ==> !pred(#[trigger] self.guaranty_bands@[j]),
            decreases self.guaranty_bands@.len() - i,
        {
            let b = &self.guaranty_bands[i];
            if loan_cents > b.min_loan_cents && loan_cents <= b.max_loan_cents {
                proof {
                    lemma_first_where_hit(self.guaranty_bands@, pred, i as int);
                    assert(first_where(self.guaranty_bands@, pred) == Some(*b));
                    assert(statutory(*self, loan_cents as int).0 == band_guaranty(*b, loan_cents as int));
                }
                let g: i64 = match b.flat_cents {
                    Some(flat) => flat,
                    None => match b.pct_bps {
                        Some(pct) => {
                            proof {
                                crate::money::lemma_wide_product(loan_cents as int, pct as int);
                            }
                            let raw: i128 = (loan_cents as i128) * (pct as i128) / 10_000;
                            match b.max_cents {
                                Some(cap) => if raw < cap as i128 { raw as i64 } else { cap },
                                None => raw as i64,
                            }
                        },
                        None => 0,
                    },
                };
                return (g, b.note.clone());
            }
            i = i + 1;
        }
        proof {
            lemma_first_where_none(self.guaranty_bands@, pred);
        }
        proof {
            crate::money::lemma_wide_product(loan_cents as int, self.guaranty_pct_bps as int);
        }
        let g: i128 = (loan_cents as i128) * (self.guaranty_pct_bps as i128) / 10_000;
        (g as i64, "default 25%".to_owned())
    }
}

/// Inputs for a guaranty / entitlement computation (COE and application facts).
#[derive(Clone, Debug)]
pub struct VaGuarantyInput {
    /// County conforming limit (the GSE limit).
    pub county_conforming_limit: Cents,
    pub entitlement_status: EntitlementStatus,
    /// Entitlement already charged and not restored, in cents (0 for full).
    pub entitlement_used_cents: i64,
    pub proposed_loan_amount: Cents,
    pub down_payment: Cents,
    /// Loan purpose (IRRRLs are guaranteed at a flat 25%).
    pub loan_purpose: VaLoanPurpose,
    /// Total borrowers on the loan.
    pub total_borrowers: u8,
    /// Borrowers contributing VA entitlement.
    pub veteran_borrowers: u8,
    /// True when every non-veteran co-borrower is the veteran's spouse.
    pub nonveteran_coborrowers_all_spouses: bool,
    /// Service-connected disability → funding-fee exempt.
    pub disability_exempt: bool,
    /// Lender's max VA loan overlay, if any.
    pub lender_max_va_loan_cents: Option<i64>,
}

/// The fully-analyzed guaranty result.
#[derive(Clone, Debug, PartialEq, Eq)]
pub struct VaGuarantyResult {
    /// VA's dollar guaranty for this loan.
    pub guaranty_cents: i64,
    /// Effective guaranty as a percentage of the loan, in bps.
    pub guaranty_pct_bps: u32,
    /// Maximum loan achievable with $0 down; `i64::MAX` denotes no VA cap.
    pub zero_down_max_cents: i64,
    /// Down payment required for the proposed loan (0 if none).
    pub required_down_payment_cents: i64,
    /// Whether guaranty plus down payment reach the 25% lenders require.
    pub meets_25pct_guaranty: bool,
    pub funding_fee_exempt: bool,
    /// True if a lender max-loan overlay constrains this loan.
    pub lender_capped: bool,
    /// True if this is a joint loan triggering a non-veteran down payment.
    pub is_joint_nonveteran_loan: bool,
    /// The statutory guaranty band applied.
    pub guaranty_band_note: String,
    /// True if treated as an IRRRL (flat 25% guaranty).
    pub is_irrrl: bool,
}

/// A joint loan: some borrower brings no entitlement and is not the spouse.
pub open spec fn va_is_joint(i: VaGuarantyInput) -> bool {
    i.veteran_borrowers < i.total_borrowers && !i.nonveteran_coborrowers_all_spouses
}

/// The part of the loan VA guarantees against: the veteran's pro-rata share
/// of a joint loan, else the whole loan.
pub open spec fn va_base(i: VaGuarantyInput) -> int {
    let loan = i.proposed_loan_amount.0 as int;
    let num: int = if i.veteran_borrowers >= 1 { i.veteran_borrowers as int } else { 1 };
    let den: int = if i.total_borrowers >= 1 { i.total_borrowers as int } else { 1 };
    if va_is_joint(i) { trunc_div(loan * num, den) } else { loan }
}

/// Remaining partial entitlement: 25% of the county limit less what is used,
/// never negative.
pub open spec fn va_remaining(i: VaGuarantyInput, p: VaEntitlementParams) -> int {
    let avail = trunc_div(i.county_conforming_limit.0 * p.guaranty_pct_bps, 10_000);
    if avail - i.entitlement_used_cents > 0 { avail - i.entitlement_used_cents } else { 0 }
}

/// The zero-down maximum before any lender overlay (`i64::MAX` = no cap).
pub open spec fn va_zero_down(i: VaGuarantyInput, p: VaEntitlementParams) -> int {
    match i.entitlement_status {
        EntitlementStatus::Full => i64::MAX as int,
        EntitlementStatus::Partial => va_remaining(i, p) * 4,
    }
}

/// VA's dollar guaranty for the loan: an IRRRL is guaranteed at the flat
/// IRRRL percentage whatever the entitlement; otherwise the statutory band
/// under full entitlement, and the lesser of the guaranty percentage of the
/// loan and the remaining entitlement under partial entitlement.
pub open spec fn va_guaranty(i: VaGuarantyInput, p: VaEntitlementParams) -> int {
    let base = va_base(i);
    if i.loan_purpose == VaLoanPurpose::Irrrl {
        trunc_div(base * p.irrrl_guaranty_pct_bps, 10_000)
    } else {
        match i.entitlement_status {
            EntitlementStatus::Full => statutory(p, base).0,
            EntitlementStatus::Partial => {
                let share = trunc_div(base * p.guaranty_pct_bps, 10_000);
                if share < va_remaining(i, p) { share } else { va_remaining(i, p) }
            },
        }
    }
}

/// The note naming the guaranty rule applied.
pub open spec fn va_band_note(i: VaGuarantyInput, p: VaEntitlementParams) -> Seq<char> {
    if i.loan_purpose == VaLoanPurpose::Irrrl {
        "IRRRL flat 25%"@
    } else {
        match i.entitlement_status {
            EntitlementStatus::Full => statutory(p, va_base(i)).1,
            EntitlementStatus::Partial => "partial: lesser of 25% loan or (25% county − used)"@,
        }
    }
}

/// The zero-down ceiling after a lender overlay that only tightens it.
pub open spec fn va_effective_zero_down(i: VaGuarantyInput, p: VaEntitlementParams) -> int {
    match i.lender_max_va_loan_cents {
        Some(cap) => if cap < va_zero_down(i, p) { cap as int } else { va_zero_down(i, p) },
        None => va_zero_down(i, p),
    }
}

/// The loan exceeds a finite zero-down ceiling.
pub open spec fn va_has_shortfall(i: VaGuarantyInput, p: VaEntitlementParams) -> bool {
    let eff = va_effective_zero_down(i, p);
    eff != i64::MAX && i.proposed_loan_amount.0 > eff
}

/// Down payment for a loan above the zero-down ceiling: 25% of the gap under
/// partial entitlement, the whole gap above a lender cap under full.
pub open spec fn va_shortfall_dp(i: VaGuarantyInput, p: VaEntitlementParams) -> int {
    if va_has_shortfall(i, p) {
        let gap = i.proposed_loan_amount.0 - va_effective_zero_down(i, p);
        match i.entitlement_status {
            EntitlementStatus::Partial => trunc_div(gap * p.guaranty_pct_bps, 10_000),
            EntitlementStatus::Full => gap,
        }
    } else {
        0
    }
}

/// The joint-loan down payment: the guidance share of the non-veteran part.
pub open spec fn va_joint_dp(i: VaGuarantyInput, p: VaEntitlementParams) -> int {
    trunc_div((i.proposed_loan_amount.0 - va_base(i)) * p.joint_nonveteran_dp_pct_bps, 10_000)
}

/// The required down payment: the shortfall, raised to the joint-loan
/// guidance for a joint loan.
pub open spec fn va_required_dp(i: VaGuarantyInput, p: VaEntitlementParams) -> int {
    let s = va_shortfall_dp(i, p);
    if va_is_joint(i) && va_joint_dp(i, p) > s { va_joint_dp(i, p) } else { s }
}

/// Guaranty plus down payment reach the guaranty percentage of the loan (a
/// zero loan always does).
pub open spec fn va_meets_25(i: VaGuarantyInput, p: VaEntitlementParams) -> bool {
    let loan = i.proposed_loan_amount.0 as int;
    let dp = if i.down_payment.0 > va_required_dp(i, p) { i.down_payment.0 as int } else { va_required_dp(i, p) };
    loan == 0 || trunc_div_signed((va_guaranty(i, p) + dp) * 10_000, loan) >= p.guaranty_pct_bps
}

/// Every intermediate amount of the analysis fits the machine type that
/// holds it.
pub open spec fn va_in_range(i: VaGuarantyInput, p: VaEntitlementParams) -> bool {
    &&& i64::MIN <= va_guaranty(i, p) <= i64::MAX
    &&& i.entitlement_status == EntitlementStatus::Partial ==> {
        &&& i64::MIN <= trunc_div(i.county_conforming_limit.0 * p.guaranty_pct_bps, 10_000)
            - i.entitlement_used_cents <= i64::MAX
        &&& va_remaining(i, p) * 4 <= i64::MAX
    }
    &&& va_has_shortfall(i, p) ==> i.proposed_loan_amount.0 - va_effective_zero_down(i, p) <= i64::MAX
    &&& i64::MIN <= va_shortfall_dp(i, p) <= i64::MAX
    &&& i64::MIN <= va_joint_dp(i, p) <= i64::MAX
}

/// The overlay step applies when a lender cap lies below VA's ceiling.
pub open spec fn va_overlay_applies(i: VaGuarantyInput, p: VaEntitlementParams) -> bool {
    i.lender_max_va_loan_cents matches Some(cap) && cap < va_zero_down(i, p)
}

/// The rules of the opening steps: the IRRRL note, then the classification.
pub open spec fn va_head_rules(i: VaGuarantyInput) -> Seq<Seq<char>> {
    listed_if(i.loan_purpose == VaLoanPurpose::Irrrl, "irrrl_guaranty"@) + seq!["classify_entitlement"@]
}

/// The rule of the entitlement step.
pub open spec fn va_entitlement_rule(i: VaGuarantyInput) -> Seq<char> {
    if i.entitlement_status == EntitlementStatus::Full {
        "full_entitlement_guaranty"@
    } else {
        "partial_entitlement_remaining"@
    }
}

/// The rules of the closing steps: the coverage check, then the exemption.
pub open spec fn va_tail_rules(i: VaGuarantyInput) -> Seq<Seq<char>> {
    seq!["guaranty_coverage_check"@] + listed_if(i.disability_exempt, "funding_fee_exemption"@)
}

/// The rules a guaranty analysis records, in order.
pub open spec fn va_rules(i: VaGuarantyInput, p: VaEntitlementParams) -> Seq<Seq<char>> {
    va_head_rules(i) + seq![va_entitlement_rule(i)] + listed_if(va_overlay_applies(i, p), "apply_lender_overlay"@)
        + listed_if(va_has_shortfall(i, p), "shortfall_down_payment"@) + listed_if(
        va_is_joint(i),
        "joint_loan_nonveteran_dp"@,
    ) + va_tail_rules(i)
}

/// The down payment counted toward coverage: the larger of the one offered
/// and the one required.
pub open spec fn va_dp_used(i: VaGuarantyInput, p: VaEntitlementParams) -> int {
    if i.down_payment.0 > va_required_dp(i, p) { i.down_payment.0 as int } else { va_required_dp(i, p) }
}

/// The step of the entitlement rule: the statutory band under full
/// entitlement, the remaining entitlement under partial.
pub open spec fn va_entitlement_step(i: VaGuarantyInput, p: VaEntitlementParams) -> (Seq<char>, Seq<char>, Seq<char>) {
    match i.entitlement_status {
        EntitlementStatus::Full => (
            "full_entitlement_guaranty"@,
            "statutory band on $"@ + dollars_text(va_base(i)),
            "guaranty=$"@ + dollars_text(va_guaranty(i, p)) + " ["@ + va_band_note(i, p) + "], no VA loan cap"@,
        ),
        EntitlementStatus::Partial => (
            "partial_entitlement_remaining"@,
            "25% of county $"@ + dollars_text(i.county_conforming_limit.0 as int) + " − used $"@ + dollars_text(
                i.entitlement_used_cents as int,
            ),
            "remaining entitlement=$"@ + dollars_text(va_remaining(i, p)) + ", zero-down max=$"@ + dollars_text(
                va_zero_down(i, p),
            ),
        ),
    }
}

/// The opening steps: the IRRRL note, then the classification.
pub open spec fn va_head_trail(i: VaGuarantyInput) -> Seq<(Seq<char>, Seq<char>, Seq<char>)> {
    listed_if(
        i.loan_purpose == VaLoanPurpose::Irrrl,
        (
            "irrrl_guaranty"@,
            "IRRRL loan $"@ + dollars_text(i.proposed_loan_amount.0 as int),
            "flat 25% guaranty regardless of amount/entitlement (38 CFR 36.4302(b))"@,
        ),
    ) + seq![
        (
            "classify_entitlement"@,
            "status="@ + i.entitlement_status.spec_name() + ", used=$"@ + dollars_text(
                i.entitlement_used_cents as int,
            ),
            i.entitlement_status.spec_name() + " entitlement"@,
        ),
    ]
}

/// The lender-overlay step, when it applies.
pub open spec fn va_overlay_trail(i: VaGuarantyInput, p: VaEntitlementParams) -> Seq<(Seq<char>, Seq<char>, Seq<char>)> {
    match i.lender_max_va_loan_cents {
        Some(cap) => listed_if(
            cap < va_zero_down(i, p),
            (
                "apply_lender_overlay"@,
                "lender max=$"@ + dollars_text(cap as int),
                "ceiling set to $"@ + dollars_text(cap as int) + " (overlay tightens)"@,
            ),
        ),
        None => Seq::empty(),
    }
}

/// The shortfall step, when the loan exceeds the ceiling.
pub open spec fn va_shortfall_trail(i: VaGuarantyInput, p: VaEntitlementParams) -> Seq<(Seq<char>, Seq<char>, Seq<char>)> {
    listed_if(
        va_has_shortfall(i, p),
        (
            "shortfall_down_payment"@,
            "loan $"@ + dollars_text(i.proposed_loan_amount.0 as int) + " > zero-down max $"@ + dollars_text(
                va_effective_zero_down(i, p),
            ),
            "required down payment ≈ $"@ + dollars_text(va_shortfall_dp(i, p)),
        ),
    )
}

/// The joint-loan step, for a joint loan.
pub open spec fn va_joint_trail(i: VaGuarantyInput, p: VaEntitlementParams) -> Seq<(Seq<char>, Seq<char>, Seq<char>)> {
    listed_if(
        va_is_joint(i),
        (
            "joint_loan_nonveteran_dp"@,
            "non-veteran share $"@ + dollars_text(i.proposed_loan_amount.0 - va_base(i)) + " × "@ + dec_nat(
                (p.joint_nonveteran_dp_pct_bps / 100) as nat,
            ) + "%"@,
            "joint-loan down payment guidance ≈ $"@ + dollars_text(va_joint_dp(i, p))
                + " (secondary-market practice)"@,
        ),
    )
}

/// The closing steps: the coverage check, then the exemption.
pub open spec fn va_tail_trail(i: VaGuarantyInput, p: VaEntitlementParams) -> Seq<(Seq<char>, Seq<char>, Seq<char>)> {
    seq![
        (
            "guaranty_coverage_check"@,
            "guaranty $"@ + dollars_text(va_guaranty(i, p)) + " + DP $"@ + dollars_text(va_dp_used(i, p))
                + " vs 25% of $"@ + dollars_text(i.proposed_loan_amount.0 as int),
            if va_meets_25(i, p) { "meets 25% coverage"@ } else { "below 25% — more down payment needed"@ },
        ),
    ] + listed_if(
        i.disability_exempt,
        ("funding_fee_exemption"@, "service-connected disability"@, "VA funding fee EXEMPT"@),
    )
}

/// The steps a guaranty analysis records, in order, with their texts.
pub open spec fn va_trail(i: VaGuarantyInput, p: VaEntitlementParams) -> Seq<(Seq<char>, Seq<char>, Seq<char>)> {
    va_head_trail(i) + seq![va_entitlement_step(i, p)] + va_overlay_trail(i, p) + va_shortfall_trail(i, p)
        + va_joint_trail(i, p) + va_tail_trail(i, p)
}

/// `r` is the analysis of `i` under `p`.
pub open spec fn va_result_is(r: VaGuarantyResult, i: VaGuarantyInput, p: VaEntitlementParams) -> bool {
    let loan = i.proposed_loan_amount.0 as int;
    &&& r.guaranty_cents == va_guaranty(i, p)
    &&& r.guaranty_pct_bps == (if loan > 0 {
        trunc_div(va_guaranty(i, p) * 10_000, loan) as u32
    } else {
        0u32
    })
    &&& r.zero_down_max_cents == va_effective_zero_down(i, p)
    &&& r.required_down_payment_cents == va_required_dp(i, p)
    &&& r.meets_25pct_guaranty == va_meets_25(i, p)
    &&& r.funding_fee_exempt == i.disability_exempt
    &&& r.lender_capped == (i.lender_max_va_loan_cents matches Some(cap) && loan > cap)
    &&& r.is_joint_nonveteran_loan == va_is_joint(i)
    &&& r.guaranty_band_note@ == va_band_note(i, p)
    &&& r.is_irrrl == (i.loan_purpose == VaLoanPurpose::Irrrl)
}

/// The provenance of a VA answer.
pub open spec fn va_prov(p: VaEntitlementParams, d: Provenance, file: Seq<char>, req: u16, res: u16, record: Seq<char>) -> bool {
    prov_is(d, "va_entitlement"@, file, p.source_citation@, p.effective_date@, record, req, res)
}

fn provenance(p: &VaEntitlementParams, file: &str, req: u16, res: u16, record: &str) -> (r: Provenance)
    ensures
        va_prov(*p, r, file@, req, res, record@),
{
    Provenance {
        dataset: "va_entitlement".to_owned(),
        source_file: file.to_owned(),
        source_citation: p.source_citation.clone(),
        effective_date: p.effective_date.clone(),
        record_id: record.to_owned(),
        requested_version: req,
        resolved_version: res,
    }
}

/// The VA "county loan limit" is the GSE conforming limit: VA imposes no
/// county cap of its own, and the partial-entitlement formula reuses the GSE
/// limit. Wraps the limit the caller resolved with VA provenance and a
/// `delegate_to_gse_conforming_limit` step.
pub fn va_county_loan_limit(gse_limit: Cents, params: &VaEntitlementParams, file: &str, req: u16, res: u16) -> (r:
    Derived<Cents>)
    ensures
        r.value == gse_limit,
        va_prov(*params, r.provenance, file@, req, res, "va_county_limit_delegation"@),
        step_texts(r.steps@) == seq![
            (
                "delegate_to_gse_conforming_limit"@,
                "gse_limit=$"@ + dollars_text(gse_limit.0 as int),
                "VA imposes no county cap post-2020; partial-entitlement math uses the GSE limit"@,
            ),
        ],
{
    let mut g_in = String::new();
    g_in.append("gse_limit=$");
    push_dollars(&mut g_in, gse_limit.0);
    let d = Derived::new(
        gse_limit,
        provenance(params, file, req, res, "va_county_limit_delegation"),
    ).with_step(
        "delegate_to_gse_conforming_limit",
        g_in,
        "VA imposes no county cap post-2020; partial-entitlement math uses the GSE limit".to_owned(),
    );
    assert(step_texts(d.steps@) =~= seq![
        (
            "delegate_to_gse_conforming_limit"@,
            "gse_limit=$"@ + dollars_text(gse_limit.0 as int),
            "VA imposes no county cap post-2020; partial-entitlement math uses the GSE limit"@,
        ),
    ]);
    d
}

/// The guaranteed base of the loan.
fn base_of(input: &VaGuarantyInput) -> (b: i64)
    ensures
        b == va_base(*input),
{
    let loan: i64 = input.proposed_loan_amount.0;
    let is_joint = input.veteran_borrowers < input.total_borrowers
        && !input.nonveteran_coborrowers_all_spouses;
    if is_joint {
        let num: i128 = if input.veteran_borrowers >= 1 { input.veteran_borrowers as i128 } else { 1 };
        let den: i128 = if input.total_borrowers >= 1 { input.total_borrowers as i128 } else { 1 };
        proof {
            crate::money::lemma_wide_product(loan as int, num as int);
            crate::money::lemma_share_bounds(loan as int, num as int, den as int);
        }
        let b: i128 = (loan as i128) * num / den;
        b as i64
    } else {
        loan
    }
}

/// Zero-down maximum, guaranty and band note before any lender overlay.
fn entitlement_core(input: &VaGuarantyInput, params: &VaEntitlementParams, base: i64) -> (r: (i64, i64, String, i64))
    requires
        base == va_base(*input),
        va_in_range(*input, *params),
    ensures
        r.0 == va_zero_down(*input, *params),
        r.1 == va_guaranty(*input, *params),
        r.2@ == va_band_note(*input, *params),
        input.entitlement_status == EntitlementStatus::Partial ==> r.3 == va_remaining(*input, *params),
{
    let pct: i128 = params.guaranty_pct_bps as i128;
    match input.entitlement_status {
        EntitlementStatus::Full => {
            if input.loan_purpose == VaLoanPurpose::Irrrl {
                proof {
                    crate::money::lemma_wide_product(base as int, params.irrrl_guaranty_pct_bps as int);
                }
                let g: i128 = (base as i128) * (params.irrrl_guaranty_pct_bps as i128) / 10_000;
                (i64::MAX, g as i64, "IRRRL flat 25%".to_owned(), 0)
            } else {
                let (sg, note) = params.statutory_guaranty(base);
                (i64::MAX, sg, note, 0)
            }
        },
        EntitlementStatus::Partial => {
            proof {
                crate::money::lemma_wide_product(input.county_conforming_limit.0 as int, pct as int);
                crate::money::lemma_wide_product(base as int, pct as int);
            }
            let max_avail: i128 = (input.county_conforming_limit.0 as i128) * pct / 10_000;
            let diff: i128 = max_avail - (input.entitlement_used_cents as i128);
            let remaining: i64 = if diff > 0 { diff as i64 } else { 0 };
            let zdm: i64 = remaining * 4;
            if input.loan_purpose == VaLoanPurpose::Irrrl {
                proof {
                    crate::money::lemma_wide_product(base as int, params.irrrl_guaranty_pct_bps as int);
                }
                let g: i128 = (base as i128) * (params.irrrl_guaranty_pct_bps as i128) / 10_000;
                (zdm, g as i64, "IRRRL flat 25%".to_owned(), remaining)
            } else {
                let share: i128 = (base as i128) * pct / 10_000;
                let g: i64 = if share < remaining as i128 { share as i64 } else { remaining };
                (zdm, g, "partial: lesser of 25% loan or (25% county − used)".to_owned(), remaining)
            }
        },
    }
}

/// The required down payment: shortfall above the ceiling, raised to the
/// joint-loan guidance for a joint loan. Also returns the shortfall alone and
/// the joint-loan guidance.
fn required_down_payment(input: &VaGuarantyInput, params: &VaEntitlementParams, base: i64, eff: i64) -> (r: (i64, i64, i64))
    requires
        base == va_base(*input),
        eff == va_effective_zero_down(*input, *params),
        va_in_range(*input, *params),
    ensures
        r.0 == va_required_dp(*input, *params),
        r.1 == va_shortfall_dp(*input, *params),
        va_is_joint(*input) ==> r.2 == va_joint_dp(*input, *params),
{
    let loan = input.proposed_loan_amount.0;
    let pct: i128 = params.guaranty_pct_bps as i128;
    let mut required_dp: i64 = 0;
    if eff != i64::MAX && loan > eff {
        let gap: i64 = loan - eff;
        required_dp = match input.entitlement_status {
            EntitlementStatus::Partial => {
                proof {
                    crate::money::lemma_wide_product(gap as int, pct as int);
                }
                ((gap as i128) * pct / 10_000) as i64
            },
            EntitlementStatus::Full => gap,
        };
    }
    let shortfall = required_dp;
    let mut joint_dp: i64 = 0;
    if input.veteran_borrowers < input.total_borrowers && !input.nonveteran_coborrowers_all_spouses {
        proof {
            let j = (loan as int) - (base as int);
            assert(i64::MIN <= j <= i64::MAX) by {
                crate::money::lemma_share_bounds(
                    loan as int,
                    if input.veteran_borrowers >= 1 { input.veteran_borrowers as int } else { 1 },
                    if input.total_borrowers >= 1 { input.total_borrowers as int } else { 1 },
                );
            }
            crate::money::lemma_wide_product(j, params.joint_nonveteran_dp_pct_bps as int);
        }
        let nonvet_share: i64 = loan - base;
        joint_dp = ((nonvet_share as i128) * (params.joint_nonveteran_dp_pct_bps as i128) / 10_000) as i64;
        if joint_dp > required_dp {
            required_dp = joint_dp;
        }
    }
    (required_dp, shortfall, joint_dp)
}

/// Guaranty plus the down payment used reach the guaranty percentage.
fn meets_coverage(input: &VaGuarantyInput, params: &VaEntitlementParams, guaranty: i64, dp_used: i64) -> (b: bool)
    requires
        guaranty == va_guaranty(*input, *params),
        dp_used == (if input.down_payment.0 > va_required_dp(*input, *params) {
            input.down_payment.0 as int
        } else {
            va_required_dp(*input, *params)
        }),
    ensures
        b == va_meets_25(*input, *params),
{
    let loan = input.proposed_loan_amount.0;
    let pct: i128 = params.guaranty_pct_bps as i128;
    let coverage: i128 = (guaranty as i128) + (dp_used as i128);
    if loan == 0 {
        true
    } else if loan > 0 {
        coverage * 10_000 / (loan as i128) >= pct
    } else {
        -(coverage * 10_000 / (-(loan as i128))) >= pct
    }
}

/// Appends the opening steps: the IRRRL note, then the classification.
fn push_head_steps(d: &mut Derived<VaGuarantyResult>, input: &VaGuarantyInput)
    ensures
        final(d).value == old(d).value,
        final(d).provenance == old(d).provenance,
        rule_names(final(d).steps@) == rule_names(old(d).steps@) + va_head_rules(*input),
        step_texts(final(d).steps@) == step_texts(old(d).steps@) + va_head_trail(*input),
{
    let ghost r0 = rule_names(d.steps@);
    let ghost t0 = step_texts(d.steps@);
    if input.loan_purpose == VaLoanPurpose::Irrrl {
        let mut s_in = String::new();
        s_in.append("IRRRL loan $");
        push_dollars(&mut s_in, input.proposed_loan_amount.0);
        d.push_step(
            "irrrl_guaranty",
            s_in,
            "flat 25% guaranty regardless of amount/entitlement (38 CFR 36.4302(b))".to_owned(),
        );
    }
    let mut c_in = String::new();
    c_in.append("status=");
    c_in.append(input.entitlement_status.name());
    c_in.append(", used=$");
    push_dollars(&mut c_in, input.entitlement_used_cents);
    let mut c_out = String::new();
    c_out.append(input.entitlement_status.name());
    c_out.append(" entitlement");
    d.push_step("classify_entitlement", c_in, c_out);
    assert(rule_names(d.steps@) =~= r0 + va_head_rules(*input));
    assert(step_texts(d.steps@) =~= t0 + va_head_trail(*input));
}

/// Appends the entitlement step: the statutory band under full
/// entitlement, the remaining entitlement under partial.
fn push_entitlement_step(
    d: &mut Derived<VaGuarantyResult>,
    input: &VaGuarantyInput,
    params: &VaEntitlementParams,
    base: i64,
    zero_down_max: i64,
    guaranty: i64,
    band_note: &String,
    remaining: i64,
)
    requires
        base == va_base(*input),
        zero_down_max == va_zero_down(*input, *params),
        guaranty == va_guaranty(*input, *params),
        band_note@ == va_band_note(*input, *params),
        input.entitlement_status == EntitlementStatus::Partial ==> remaining == va_remaining(*input, *params),
    ensures
        final(d).value == old(d).value,
        final(d).provenance == old(d).provenance,
        rule_names(final(d).steps@) == rule_names(old(d).steps@).push(va_entitlement_rule(*input)),
        step_texts(final(d).steps@) == step_texts(old(d).steps@).push(va_entitlement_step(*input, *params)),
{
    match input.entitlement_status {
        EntitlementStatus::Full => {
            let mut f_in = String::new();
            f_in.append("statutory band on $");
            push_dollars(&mut f_in, base);
            let mut f_out = String::new();
            f_out.append("guaranty=$");
            push_dollars(&mut f_out, guaranty);
            f_out.append(" [");
            f_out.append(band_note.as_str());
            f_out.append("], no VA loan cap");
            d.push_step("full_entitlement_guaranty", f_in, f_out);
        },
        EntitlementStatus::Partial => {
            let mut p_in = String::new();
            p_in.append("25% of county $");
            push_dollars(&mut p_in, input.county_conforming_limit.0);
            p_in.append(" − used $");
            push_dollars(&mut p_in, input.entitlement_used_cents);
            let mut p_out = String::new();
            p_out.append("remaining entitlement=$");
            push_dollars(&mut p_out, remaining);
            p_out.append(", zero-down max=$");
            push_dollars(&mut p_out, zero_down_max);
            d.push_step("partial_entitlement_remaining", p_in, p_out);
        },
    }
}

/// Applies the lender overlay to the zero-down ceiling, appending its step
/// when it tightens; gives the effective ceiling and whether the cap
/// constrains this loan.
fn apply_overlay(d: &mut Derived<VaGuarantyResult>, input: &VaGuarantyInput, params: &VaEntitlementParams, zero_down_max: i64) -> (r: (i64, bool))
    requires
        zero_down_max == va_zero_down(*input, *params),
    ensures
        r.0 == va_effective_zero_down(*input, *params),
        r.1 == (input.lender_max_va_loan_cents matches Some(cap) && input.proposed_loan_amount.0 > cap),
        final(d).value == old(d).value,
        final(d).provenance == old(d).provenance,
        rule_names(final(d).steps@) == rule_names(old(d).steps@) + listed_if(
            va_overlay_applies(*input, *params),
            "apply_lender_overlay"@,
        ),
        step_texts(final(d).steps@) == step_texts(old(d).steps@) + va_overlay_trail(*input, *params),
{
    let ghost r0 = rule_names(d.steps@);
    let ghost t0 = step_texts(d.steps@);
    let mut lender_capped = false;
    let mut effective_zero_down = zero_down_max;
    match input.lender_max_va_loan_cents {
        Some(cap) => {
            if cap < effective_zero_down {
                effective_zero_down = cap;
                let mut o_in = String::new();
                o_in.append("lender max=$");
                push_dollars(&mut o_in, cap);
                let mut o_out = String::new();
                o_out.append("ceiling set to $");
                push_dollars(&mut o_out, cap);
                o_out.append(" (overlay tightens)");
                d.push_step("apply_lender_overlay", o_in, o_out);
            }
            if input.proposed_loan_amount.0 > cap {
                lender_capped = true;
            }
        },
        None => {},
    }
    assert(rule_names(d.steps@) =~= r0 + listed_if(va_overlay_applies(*input, *params), "apply_lender_overlay"@));
    assert(step_texts(d.steps@) =~= t0 + va_overlay_trail(*input, *params));
    (effective_zero_down, lender_capped)
}

/// Appends the shortfall and joint-loan steps.
fn push_down_payment_steps(
    d: &mut Derived<VaGuarantyResult>,
    input: &VaGuarantyInput,
    params: &VaEntitlementParams,
    base: i64,
    eff: i64,
    shortfall: i64,
    joint_dp: i64,
)
    requires
        base == va_base(*input),
        eff == va_effective_zero_down(*input, *params),
        shortfall == va_shortfall_dp(*input, *params),
        va_is_joint(*input) ==> joint_dp == va_joint_dp(*input, *params),
    ensures
        final(d).value == old(d).value,
        final(d).provenance == old(d).provenance,
        rule_names(final(d).steps@) == rule_names(old(d).steps@) + listed_if(
            va_has_shortfall(*input, *params),
            "shortfall_down_payment"@,
        ) + listed_if(va_is_joint(*input), "joint_loan_nonveteran_dp"@),
        step_texts(final(d).steps@) == step_texts(old(d).steps@) + va_shortfall_trail(*input, *params)
            + va_joint_trail(*input, *params),
{
    let ghost r0 = rule_names(d.steps@);
    let ghost t0 = step_texts(d.steps@);
    let loan = input.proposed_loan_amount.0;
    if eff != i64::MAX && loan > eff {
        let mut s_in = String::new();
        s_in.append("loan $");
        push_dollars(&mut s_in, loan);
        s_in.append(" > zero-down max $");
        push_dollars(&mut s_in, eff);
        let mut s_out = String::new();
        s_out.append("required down payment ≈ $");
        push_dollars(&mut s_out, shortfall);
        d.push_step("shortfall_down_payment", s_in, s_out);
    }
    if input.veteran_borrowers < input.total_borrowers && !input.nonveteran_coborrowers_all_spouses {
        proof {
            crate::money::lemma_share_bounds(
                loan as int,
                if input.veteran_borrowers >= 1 { input.veteran_borrowers as int } else { 1 },
                if input.total_borrowers >= 1 { input.total_borrowers as int } else { 1 },
            );
        }
        let mut j_in = String::new();
        j_in.append("non-veteran share $");
        push_dollars(&mut j_in, loan - base);
        j_in.append(" × ");
        push_dec_u64(&mut j_in, (params.joint_nonveteran_dp_pct_bps / 100) as u64);
        j_in.append("%");
        let mut j_out = String::new();
        j_out.append("joint-loan down payment guidance ≈ $");
        push_dollars(&mut j_out, joint_dp);
        j_out.append(" (secondary-market practice)");
        d.push_step("joint_loan_nonveteran_dp", j_in, j_out);
    }
    assert(rule_names(d.steps@) =~= r0 + listed_if(va_has_shortfall(*input, *params), "shortfall_down_payment"@)
        + listed_if(va_is_joint(*input), "joint_loan_nonveteran_dp"@));
    assert(step_texts(d.steps@) =~= t0 + va_shortfall_trail(*input, *params) + va_joint_trail(*input, *params));
}

/// Appends the closing steps: the coverage check, then the exemption.
fn push_tail_steps(
    d: &mut Derived<VaGuarantyResult>,
    input: &VaGuarantyInput,
    params: &VaEntitlementParams,
    guaranty: i64,
    dp_used: i64,
    meets_25: bool,
)
    requires
        guaranty == va_guaranty(*input, *params),
        dp_used == va_dp_used(*input, *params),
        meets_25 == va_meets_25(*input, *params),
    ensures
        final(d).value == old(d).value,
        final(d).provenance == old(d).provenance,
        rule_names(final(d).steps@) == rule_names(old(d).steps@) + va_tail_rules(*input),
        step_texts(final(d).steps@) == step_texts(old(d).steps@) + va_tail_trail(*input, *params),
{
    let ghost r0 = rule_names(d.steps@);
    let ghost t0 = step_texts(d.steps@);
    let mut g_in = String::new();
    g_in.append("guaranty $");
    push_dollars(&mut g_in, guaranty);
    g_in.append(" + DP $");
    push_dollars(&mut g_in, dp_used);
    g_in.append(" vs 25% of $");
    push_dollars(&mut g_in, input.proposed_loan_amount.0);
    d.push_step(
        "guaranty_coverage_check",
        g_in,
        if meets_25 {
            "meets 25% coverage".to_owned()
        } else {
            "below 25% — more down payment needed".to_owned()
        },
    );
    if input.disability_exempt {
        d.push_step(
            "funding_fee_exemption",
            "service-connected disability".to_owned(),
            "VA funding fee EXEMPT".to_owned(),
        );
    }
    assert(rule_names(d.steps@) =~= r0 + va_tail_rules(*input));
    assert(step_texts(d.steps@) =~= t0 + va_tail_trail(*input, *params));
}

/// A trail built from an empty one by appending the six parts in turn is
/// the parts in order.
proof fn lemma_six_parts<A>(t0: Seq<A>, h: Seq<A>, e: A, o: Seq<A>, s: Seq<A>, j: Seq<A>, t: Seq<A>)
    requires
        t0.len() == 0,
    ensures
        (t0 + h).push(e) + o + (s + j) + t == h + seq![e] + o + s + j + t,
        (t0 + h).push(e) + o + s + j + t == h + seq![e] + o + s + j + t,
{
    assert((t0 + h).push(e) + o + (s + j) + t =~= h + seq![e] + o + s + j + t);
    assert((t0 + h).push(e) + o + s + j + t =~= h + seq![e] + o + s + j + t);
}

/// Full entitlement and guaranty analysis of the supplied COE and
/// application facts: guaranty, zero-down maximum (after a tighten-only
/// lender overlay), required down payment, and whether the 25% coverage
/// lenders require is met.
#[verifier::spinoff_prover]
pub fn compute_va_guaranty(input: &VaGuarantyInput, params: &VaEntitlementParams, file: &str, req: u16, res: u16) -> (r:
    Derived<VaGuarantyResult>)
    requires
        va_in_range(*input, *params),
    ensures
        va_result_is(r.value, *input, *params),
        va_prov(*params, r.provenance, file@, req, res, "va_guaranty_calc"@),
        rule_names(r.steps@) == va_rules(*input, *params),
        step_texts(r.steps@) == va_trail(*input, *params),
{
    let loan: i64 = input.proposed_loan_amount.0;
    let is_irrrl = input.loan_purpose == VaLoanPurpose::Irrrl;
    let is_joint = input.veteran_borrowers < input.total_borrowers
        && !input.nonveteran_coborrowers_all_spouses;
    let guaranteed_base = base_of(input);
    let mut d = Derived::new(
        VaGuarantyResult {
            guaranty_cents: 0,
            guaranty_pct_bps: 0,
            zero_down_max_cents: 0,
            required_down_payment_cents: 0,
            meets_25pct_guaranty: false,
            funding_fee_exempt: input.disability_exempt,
            lender_capped: false,
            is_joint_nonveteran_loan: is_joint,
            guaranty_band_note: String::new(),
            is_irrrl,
        },
        provenance(params, file, req, res, "va_guaranty_calc"),
    );
    let ghost r0 = rule_names(d.steps@);
    let ghost t0 = step_texts(d.steps@);
    push_head_steps(&mut d, input);
    let (zero_down_max, guaranty, band_note, remaining) = entitlement_core(input, params, guaranteed_base);
    push_entitlement_step(&mut d, input, params, guaranteed_base, zero_down_max, guaranty, &band_note, remaining);
    let (effective_zero_down, lender_capped) = apply_overlay(&mut d, input, params, zero_down_max);
    let (required_dp, shortfall, joint_dp) = required_down_payment(input, params, guaranteed_base, effective_zero_down);
    push_down_payment_steps(&mut d, input, params, guaranteed_base, effective_zero_down, shortfall, joint_dp);
    let dp_used: i64 = if input.down_payment.0 > required_dp { input.down_payment.0 } else { required_dp };
    let meets_25 = meets_coverage(input, params, guaranty, dp_used);
    push_tail_steps(&mut d, input, params, guaranty, dp_used, meets_25);
    proof {
        lemma_six_parts(
            r0,
            va_head_rules(*input),
            va_entitlement_rule(*input),
            listed_if(va_overlay_applies(*input, *params), "apply_lender_overlay"@),
            listed_if(va_has_shortfall(*input, *params), "shortfall_down_payment"@),
            listed_if(va_is_joint(*input), "joint_loan_nonveteran_dp"@),
            va_tail_rules(*input),
        );
        lemma_six_parts(
            t0,
            va_head_trail(*input),
            va_entitlement_step(*input, *params),
            va_overlay_trail(*input, *params),
            va_shortfall_trail(*input, *params),
            va_joint_trail(*input, *params),
            va_tail_trail(*input, *params),
        );
    }

    let guaranty_pct_bps: u32 = if loan > 0 {
        #[verifier::truncate]
        (((guaranty as i128) * 10_000 / (loan as i128)) as u32)
    } else {
        0
    };
    d.value = VaGuarantyResult {
        guaranty_cents: guaranty,
        guaranty_pct_bps,
        zero_down_max_cents: effective_zero_down,
        required_down_payment_cents: required_dp,
        meets_25pct_guaranty: meets_25,
        funding_fee_exempt: input.disability_exempt,
        lender_capped,
        is_joint_nonveteran_loan: is_joint,
        guaranty_band_note: band_note,
        is_irrrl,
    };
    d
}

/// A lender's maximum-loan overlay only tightens: the effective zero-down
/// maximum is never above VA's own, and equals it without an overlay.
pub proof fn lemma_lender_cap_tightens_only(i: VaGuarantyInput, p: VaEntitlementParams)
    ensures
        va_effective_zero_down(i, p) <= va_zero_down(i, p),
        i.lender_max_va_loan_cents is None ==> va_effective_zero_down(i, p) == va_zero_down(i, p),
{
}

/// Under full entitlement VA sets no zero-down ceiling; under partial
/// entitlement the ceiling is four times the remaining entitlement.
pub proof fn lemma_zero_down_ceiling(i: VaGuarantyInput, p: VaEntitlementParams)
    ensures
        i.entitlement_status == EntitlementStatus::Full ==> va_zero_down(i, p) == i64::MAX,
        i.entitlement_status == EntitlementStatus::Partial ==> va_zero_down(i, p) == 4 * va_remaining(i, p),
        va_remaining(i, p) >= 0,
{
}

/// An IRRRL is guaranteed at the flat IRRRL percentage of its guaranteed
/// base whatever the entitlement status and whatever entitlement remains.
pub proof fn lemma_irrrl_guaranty_is_flat(i: VaGuarantyInput, p: VaEntitlementParams)
    requires
        i.loan_purpose == VaLoanPurpose::Irrrl,
    ensures
        va_guaranty(i, p) == trunc_div(va_base(i) * p.irrrl_guaranty_pct_bps, 10_000),
        va_band_note(i, p) == "IRRRL flat 25%"@,
{
}

/// A lender's maximum-loan overlay never lowers the required down payment,
/// never changes the guaranty, and sets the effective ceiling to the lesser
/// of the cap and VA's own ceiling: the input without the overlay is the
/// comparison.
pub proof fn lemma_lender_cap_never_lowers_down_payment(i: VaGuarantyInput, p: VaEntitlementParams)
    requires
        i.lender_max_va_loan_cents is Some,
    ensures
        ({
            let i0 = VaGuarantyInput { lender_max_va_loan_cents: None, ..i };
            let cap = i.lender_max_va_loan_cents->0 as int;
            &&& va_required_dp(i, p) >= va_required_dp(i0, p)
            &&& va_guaranty(i, p) == va_guaranty(i0, p)
            &&& va_effective_zero_down(i, p) == (if cap < va_effective_zero_down(i0, p) {
                cap
            } else {
                va_effective_zero_down(i0, p)
            })
        }),
{
    let i0 = VaGuarantyInput { lender_max_va_loan_cents: None, ..i };
    let loan = i.proposed_loan_amount.0 as int;
    let pct = p.guaranty_pct_bps as int;
    assert(va_zero_down(i, p) == va_zero_down(i0, p));
    assert(va_base(i) == va_base(i0));
    assert(va_joint_dp(i, p) == va_joint_dp(i0, p));
    if va_has_shortfall(i0, p) {
        let e0 = va_effective_zero_down(i0, p);
        let e = va_effective_zero_down(i, p);
        assert(e <= e0);
        assert(va_has_shortfall(i, p));
        if i.entitlement_status == EntitlementStatus::Partial {
            let g0 = loan - e0;
            let g = loan - e;
            assert(0 < g0 <= g);
            assert(g0 * pct <= g * pct) by (nonlinear_arith)
                requires
                    0 < g0 <= g,
                    pct >= 0,
            ;
            assert(0 <= g0 * pct) by (nonlinear_arith)
                requires
                    0 < g0,
                    pct >= 0,
            ;
            assert((g0 * pct) / 10_000 <= (g * pct) / 10_000) by (nonlinear_arith)
                requires
                    0 <= g0 * pct <= g * pct,
            ;
        }
    } else {
        assert(va_shortfall_dp(i0, p) == 0);
        if va_has_shortfall(i, p) {
            let g = loan - va_effective_zero_down(i, p);
            assert(g > 0);
            assert(0 <= g * pct) by (nonlinear_arith)
                requires
                    g > 0,
                    pct >= 0,
            ;
        }
    }
}

} // verus!
