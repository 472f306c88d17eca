//! Down Payment Assistance (DPA) program catalog for TX, CA and FL.
//!
//! DPA programs, run by state Housing Finance Agencies and local agencies,
//! supply part or all of the down payment and/or closing costs as a grant,
//! a deferred ("silent") second, a forgivable second or an amortizing
//! second. Eligibility is gated on loan type, essential-worker category,
//! first-time-homebuyer status (with veteran and targeted-area exemptions),
//! county income and purchase-price limits, credit score, DTI, use of the
//! agency's first mortgage, homebuyer education and borrower contribution.
//!
//! Every answer is a [`Derived`] value carrying the catalog record and the
//! ordered rules that produced it.

use vstd::prelude::*;
use vstd::string::*;
use crate::money::{trunc_div, Cents};
use crate::provenance::{prov_is, rule_names, step_texts, Derived, Provenance};
use crate::search::{
    first_where, lemma_first_where_hit, lemma_first_where_none, listed_if, push_msg,
    strings_view,
};
use crate::text::{
    dec_int, dec_nat, dollars_text, eq_ignore_case, push_dec_i64, push_dec_u64, push_dollars, str_eq,
    str_eq_ignore_ascii_case,
};

verus! {

/// How the assistance is structured.
#[derive(Clone, Copy, Debug, PartialEq, Eq, Structural)]
pub enum DpaAssistanceType {
    /// Never repaid.
    Grant,
    /// "Silent second": no monthly payment, repaid on sale/refi/payoff.
    DeferredLoan,
    /// Forgiven over a set number of years.
    ForgivableLoan,
    /// Repaid in monthly installments alongside the first mortgage.
    AmortizingLoan,
}

/// What the assistance amount is a function of.
#[derive(Clone, Copy, Debug, PartialEq, Eq, Structural)]
pub enum DpaAmountBasis {
    PercentOfPurchasePrice,
    PercentOfLoanAmount,
    FixedDollar,
}

/// Source of funds.
#[derive(Clone, Copy, Debug, PartialEq, Eq, Structural)]
pub enum DpaFundsSource {
    StateAgency,
    LocalAgency,
    Nonprofit,
    Employer,
}

/// Jurisdiction administering the program.
#[derive(Clone, Copy, Debug, PartialEq, Eq, Structural)]
pub enum JurisdictionLevel {
    State,
    County,
    City,
}

impl JurisdictionLevel {
    /// The variant's name.
    pub open spec fn spec_name(self) -> Seq<char> {
        match self {
            JurisdictionLevel::State => "State"@,
            JurisdictionLevel::County => "County"@,
            JurisdictionLevel::City => "City"@,
        }
    }

    /// The variant's name.
    pub fn name(self) -> (s: &'static str)
        ensures
            s@ == self.spec_name(),
    {
        match self {
            JurisdictionLevel::State => "State",
            JurisdictionLevel::County => "County",
            JurisdictionLevel::City => "City",
        }
    }
}

/// Essential-worker ("hero") categories for targeted programs.
#[derive(Clone, Copy, Debug, PartialEq, Eq, Structural)]
pub enum HeroCategory {
    Teacher,
    TeacherAide,
    Librarian,
    SchoolNurse,
    SchoolCounselor,
    PeaceOfficer,
    Firefighter,
    Ems,
    CorrectionsOfficer,
    CountyJailer,
    Veteran,
    ActiveMilitary,
    Healthcare,
    NursingFaculty,
    PublicSecurityOfficer,
}

impl HeroCategory {
    /// The variant's name.
    pub open spec fn spec_name(self) -> Seq<char> {
        match self {
            HeroCategory::Teacher => "Teacher"@,
            HeroCategory::TeacherAide => "TeacherAide"@,
            HeroCategory::Librarian => "Librarian"@,
            HeroCategory::SchoolNurse => "SchoolNurse"@,
            HeroCategory::SchoolCounselor => "SchoolCounselor"@,
            HeroCategory::PeaceOfficer => "PeaceOfficer"@,
            HeroCategory::Firefighter => "Firefighter"@,
            HeroCategory::Ems => "Ems"@,
            HeroCategory::CorrectionsOfficer => "CorrectionsOfficer"@,
            HeroCategory::CountyJailer => "CountyJailer"@,
            HeroCategory::Veteran => "Veteran"@,
            HeroCategory::ActiveMilitary => "ActiveMilitary"@,
            HeroCategory::Healthcare => "Healthcare"@,
            HeroCategory::NursingFaculty => "NursingFaculty"@,
            HeroCategory::PublicSecurityOfficer => "PublicSecurityOfficer"@,
        }
    }

    /// The variant's name.
    pub fn name(self) -> (s: &'static str)
        ensures
            s@ == self.spec_name(),
    {
        match self {
            HeroCategory::Teacher => "Teacher",
            HeroCategory::TeacherAide => "TeacherAide",
            HeroCategory::Librarian => "Librarian",
            HeroCategory::SchoolNurse => "SchoolNurse",
            HeroCategory::SchoolCounselor => "SchoolCounselor",
            HeroCategory::PeaceOfficer => "PeaceOfficer",
            HeroCategory::Firefighter => "Firefighter",
            HeroCategory::Ems => "Ems",
            HeroCategory::CorrectionsOfficer => "CorrectionsOfficer",
            HeroCategory::CountyJailer => "CountyJailer",
            HeroCategory::Veteran => "Veteran",
            HeroCategory::ActiveMilitary => "ActiveMilitary",
            HeroCategory::Healthcare => "Healthcare",
            HeroCategory::NursingFaculty => "NursingFaculty",
            HeroCategory::PublicSecurityOfficer => "PublicSecurityOfficer",
        }
    }
}

/// A county-level income and purchase-price limit entry.
#[derive(Clone, Debug, PartialEq, Eq)]
pub struct DpaCountyLimit {
    pub county_fips: String,
    pub county_name: String,
    /// Income limit (cents), 1–2 person household, non-targeted area.
    pub income_1_2_cents: i64,
    /// Income limit (cents), 3+ person household, non-targeted area.
    pub income_3plus_cents: i64,
    /// Income limit (cents), 1–2 person household, targeted area.
    pub income_targeted_1_2_cents: i64,
    /// Income limit (cents), 3+ person household, targeted area.
    pub income_targeted_3plus_cents: i64,
    pub price_limit_cents: i64,
    pub price_limit_targeted_cents: i64,
}

impl DpaCountyLimit {
    /// A copy of the limit entry.
    pub fn copy(&self) -> (r: DpaCountyLimit)
        ensures
            r == *self,
    {
        DpaCountyLimit {
            county_fips: self.county_fips.clone(),
            county_name: self.county_name.clone(),
            income_1_2_cents: self.income_1_2_cents,
            income_3plus_cents: self.income_3plus_cents,
            income_targeted_1_2_cents: self.income_targeted_1_2_cents,
            income_targeted_3plus_cents: self.income_targeted_3plus_cents,
            price_limit_cents: self.price_limit_cents,
            price_limit_targeted_cents: self.price_limit_targeted_cents,
        }
    }
}

/// A copy of a list of texts.
fn copy_strings(v: &Vec<String>) -> (r: Vec<String>)
    ensures
        r@ == v@,
{
    let mut r: Vec<String> = Vec::new();
    let mut i: usize = 0;
    while i < v.len()
        invariant
            0 <= i <= v@.len(),
            r@ == v@.take(i as int),
        decreases v@.len() - i,
    {
        r.push(v[i].clone());
        assert(r@ =~= v@.take(i + 1));
        i = i + 1;
    }
    assert(v@.take(i as int) =~= v@);
    r
}

/// A copy of a list of hero categories.
fn copy_heroes(v: &Vec<HeroCategory>) -> (r: Vec<HeroCategory>)
    ensures
        r@ == v@,
{
    let mut r: Vec<HeroCategory> = Vec::new();
    let mut i: usize = 0;
    while i < v.len()
        invariant
            0 <= i <= v@.len(),
            r@ == v@.take(i as int),
        decreases v@.len() - i,
    {
        r.push(v[i]);
        assert(r@ =~= v@.take(i + 1));
        i = i + 1;
    }
    assert(v@.take(i as int) =~= v@);
    r
}

/// A copy of a list of county limits.
fn copy_limits(v: &Vec<DpaCountyLimit>) -> (r: Vec<DpaCountyLimit>)
    ensures
        r@ == v@,
{
    let mut r: Vec<DpaCountyLimit> = Vec::new();
    let mut i: usize = 0;
    while i < v.len()
        invariant
            0 <= i <= v@.len(),
            r@ == v@.take(i as int),
        decreases v@.len() - i,
    {
        r.push(v[i].copy());
        assert(r@ =~= v@.take(i + 1));
        i = i + 1;
    }
    assert(v@.take(i as int) =~= v@);
    r
}

/// One DPA program.
#[derive(Clone, Debug, PartialEq, Eq)]
pub struct DpaProgram {
    pub program_id: String,
    pub state: String,
    pub administering_agency: String,
    pub program_name: String,
    pub jurisdiction_level: JurisdictionLevel,
    /// Set only for county/city programs; `None` for statewide.
    pub jurisdiction_fips: Option<String>,
    pub funds_source: DpaFundsSource,
    pub assistance_type: DpaAssistanceType,
    pub amount_basis: DpaAmountBasis,
    /// For percent bases: basis points (500 = 5%). For `FixedDollar`: ignored.
    pub amount_value_bps: u32,
    /// Hard dollar cap in cents. `0` = no cap. For `FixedDollar` this is the amount.
    pub max_amount_cents: i64,
    /// Interest rate on the assistance in bps.
    pub interest_rate_bps: u32,
    /// Repayment term in months for amortizing loans; `0` otherwise.
    pub term_months: u16,
    /// Years over which a forgivable loan is forgiven; `0` if not forgivable.
    pub forgivable_years: u8,
    pub fthb_required: bool,
    pub veteran_fthb_exempt: bool,
    pub targeted_area_fthb_exempt: bool,
    pub min_credit_score: u16,
    pub max_dti_bps: u32,
    /// True if the buyer must use this agency's first-mortgage program.
    pub requires_agency_first_mortgage: bool,
    pub homebuyer_education_required: bool,
    /// Minimum borrower's-own-funds contribution in bps of price (0 if none).
    pub min_borrower_contribution_bps: u32,
    /// Eligible first-mortgage loan types: any of "fha","va","usda","conventional".
    pub eligible_loan_types: Vec<String>,
    /// If non-empty, the program is restricted to these hero categories.
    pub hero_categories: Vec<HeroCategory>,
    pub county_limits: Vec<DpaCountyLimit>,
    /// Fallback limits for counties not explicitly listed.
    pub default_limit: DpaCountyLimit,
}

/// The county limit that governs `county`: the first explicit entry for it,
/// else the program default.
pub open spec fn county_limit_of(p: DpaProgram, county: Seq<char>) -> DpaCountyLimit {
    match first_where(p.county_limits@, |c: DpaCountyLimit| c.county_fips@ == county) {
        Some(c) => c,
        None => p.default_limit,
    }
}

/// Income ceiling (cents) for a household size and targeted-area status.
pub open spec fn dpa_income_limit(
    p: DpaProgram,
    county: Seq<char>,
    household_size: u8,
    targeted: bool,
) -> i64 {
    let l = county_limit_of(p, county);
    if targeted {
        if household_size <= 2 { l.income_targeted_1_2_cents } else { l.income_targeted_3plus_cents }
    } else {
        if household_size <= 2 { l.income_1_2_cents } else { l.income_3plus_cents }
    }
}

/// Purchase-price ceiling (cents) for targeted-area status.
pub open spec fn dpa_price_limit(p: DpaProgram, county: Seq<char>, targeted: bool) -> i64 {
    let l = county_limit_of(p, county);
    if targeted { l.price_limit_targeted_cents } else { l.price_limit_cents }
}

/// The program lists `loan_type` (ignoring ASCII case) among its loan types.
pub open spec fn dpa_serves(p: DpaProgram, loan_type: Seq<char>) -> bool {
    exists|i: int|
        0 <= i < p.eligible_loan_types@.len() && eq_ignore_case(
            #[trigger] p.eligible_loan_types@[i]@,
            loan_type,
        )
}

/// Two programs hold the same data: equal fields, and lists with the same
/// elements in the same order.
pub open spec fn same_program(a: DpaProgram, b: DpaProgram) -> bool {
    &&& a.program_id == b.program_id
    &&& a.state == b.state
    &&& a.administering_agency == b.administering_agency
    &&& a.program_name == b.program_name
    &&& a.jurisdiction_level == b.jurisdiction_level
    &&& a.jurisdiction_fips == b.jurisdiction_fips
    &&& a.funds_source == b.funds_source
    &&& a.assistance_type == b.assistance_type
    &&& a.amount_basis == b.amount_basis
    &&& a.amount_value_bps == b.amount_value_bps
    &&& a.max_amount_cents == b.max_amount_cents
    &&& a.interest_rate_bps == b.interest_rate_bps
    &&& a.term_months == b.term_months
    &&& a.forgivable_years == b.forgivable_years
    &&& a.fthb_required == b.fthb_required
    &&& a.veteran_fthb_exempt == b.veteran_fthb_exempt
    &&& a.targeted_area_fthb_exempt == b.targeted_area_fthb_exempt
    &&& a.min_credit_score == b.min_credit_score
    &&& a.max_dti_bps == b.max_dti_bps
    &&& a.requires_agency_first_mortgage == b.requires_agency_first_mortgage
    &&& a.homebuyer_education_required == b.homebuyer_education_required
    &&& a.min_borrower_contribution_bps == b.min_borrower_contribution_bps
    &&& a.eligible_loan_types@ == b.eligible_loan_types@
    &&& a.hero_categories@ == b.hero_categories@
    &&& a.county_limits@ == b.county_limits@
    &&& a.default_limit == b.default_limit
}

impl DpaProgram {
    /// A copy of the program.
    pub fn copy(&self) -> (r: DpaProgram)
        ensures
            same_program(r, *self),
    {
        let fips: Option<String> = match &self.jurisdiction_fips {
            Some(f) => Some(f.clone()),
            None => None,
        };
        DpaProgram {
            program_id: self.program_id.clone(),
            state: self.state.clone(),
            administering_agency: self.administering_agency.clone(),
            program_name: self.program_name.clone(),
            jurisdiction_level: self.jurisdiction_level,
            jurisdiction_fips: fips,
            funds_source: self.funds_source,
            assistance_type: self.assistance_type,
            amount_basis: self.amount_basis,
            amount_value_bps: self.amount_value_bps,
            max_amount_cents: self.max_amount_cents,
            interest_rate_bps: self.interest_rate_bps,
            term_months: self.term_months,
            forgivable_years: self.forgivable_years,
            fthb_required: self.fthb_required,
            veteran_fthb_exempt: self.veteran_fthb_exempt,
            targeted_area_fthb_exempt: self.targeted_area_fthb_exempt,
            min_credit_score: self.min_credit_score,
            max_dti_bps: self.max_dti_bps,
            requires_agency_first_mortgage: self.requires_agency_first_mortgage,
            homebuyer_education_required: self.homebuyer_education_required,
            min_borrower_contribution_bps: self.min_borrower_contribution_bps,
            eligible_loan_types: copy_strings(&self.eligible_loan_types),
            hero_categories: copy_heroes(&self.hero_categories),
            county_limits: copy_limits(&self.county_limits),
            default_limit: self.default_limit.copy(),
        }
    }

    /// The applicable county limit: the first explicit entry for the county,
    /// else the state default.
    pub fn limit_for(&self, county_fips: &str) -> (l: &DpaCountyLimit)
        ensures
            *l == county_limit_of(*self, county_fips@),
    {
        let ghost pred = |c: DpaCountyLimit| c.county_fips@ == county_fips@;
        let mut i: usize = 0;
        while i < self.county_limits.len()
            invariant
                0 <= i <= self.county_limits@.len(),
                pred == (|c: DpaCountyLimit| c.county_fips@ == county_fips@),
                forall|j: int| 0 <= j < i ==> !pred(#[trigger] self.county_limits@[j]),
            decreases self.county_limits@.len() - i,
        {
            if str_eq(self.county_limits[i].county_fips.as_str(), county_fips) {
                proof {
                    lemma_first_where_hit(self.county_limits@, pred, i as int);
                }
                return &self.county_limits[i];
            }
            i = i + 1;
        }
        proof {
            lemma_first_where_none(self.county_limits@, pred);
        }
        &self.default_limit
    }

    /// Income ceiling for a household size and targeted-area status, in cents.
    pub fn income_limit(&self, county_fips: &str, household_size: u8, targeted: bool) -> (c: Cents)
        ensures
            c.0 == dpa_income_limit(*self, county_fips@, household_size, targeted),
    {
        let l = self.limit_for(county_fips);
        let small = household_size <= 2;
        Cents(
            if targeted {
                if small { l.income_targeted_1_2_cents } else { l.income_targeted_3plus_cents }
            } else {
                if small { l.income_1_2_cents } else { l.income_3plus_cents }
            },
        )
    }

    /// Purchase-price ceiling for a county and targeted-area status, in cents.
    pub fn price_limit(&self, county_fips: &str, targeted: bool) -> (c: Cents)
        ensures
            c.0 == dpa_price_limit(*self, county_fips@, targeted),
    {
        let l = self.limit_for(county_fips);
        Cents(if targeted { l.price_limit_targeted_cents } else { l.price_limit_cents })
    }

    /// True if `loan_type` is one of the eligible first-mortgage types,
    /// compared without regard to ASCII case.
    fn serves_loan_type(&self, loan_type: &str) -> (b: bool)
        ensures
            b == dpa_serves(*self, loan_type@),
    {
        let mut i: usize = 0;
        while i < self.eligible_loan_types.len()
            invariant
                0 <= i <= self.eligible_loan_types@.len(),
                forall|j: int|
                    0 <= j < i ==> !eq_ignore_case(
                        #[trigger] self.eligible_loan_types@[j]@,
                        loan_type@,
                    ),
            decreases self.eligible_loan_types@.len() - i,
        {
            if str_eq_ignore_ascii_case(self.eligible_loan_types[i].as_str(), loan_type) {
                return true;
            }
            i = i + 1;
        }
        false
    }

    /// True if `h` is one of the program's hero categories.
    fn has_hero_category(&self, h: HeroCategory) -> (b: bool)
        ensures
            b == self.hero_categories@.contains(h),
    {
        let mut i: usize = 0;
        while i < self.hero_categories.len()
            invariant
                0 <= i <= self.hero_categories@.len(),
                forall|j: int| 0 <= j < i ==> #[trigger] self.hero_categories@[j] != h,
            decreases self.hero_categories@.len() - i,
        {
            if self.hero_categories[i] == h {
                return true;
            }
            i = i + 1;
        }
        false
    }
}

/// Borrower / transaction facts (from property data and the borrower file).
#[derive(Clone, Debug)]
pub struct DpaEligibilityInput {
    pub state: String,
    pub county_fips: String,
    pub is_first_time_homebuyer: bool,
    pub is_veteran: bool,
    pub in_targeted_area: bool,
    pub household_size: u8,
    pub annual_household_income: Cents,
    pub purchase_price: Cents,
    pub loan_type: String,
    pub credit_score: u16,
    pub dti_bps: u32,
    pub borrower_contribution_bps: u32,
    pub using_agency_first_mortgage: bool,
    pub completed_homebuyer_education: bool,
    /// Borrower's hero category, if any.
    pub hero_category: Option<HeroCategory>,
}

/// Eligibility outcome for one program.
#[derive(Clone, Debug, PartialEq, Eq)]
pub struct DpaOutcome {
    pub eligible: bool,
    pub program_id: String,
    pub disqualifiers: Vec<String>,
}

/// A DPA catalog: one dataset version of programs.
#[derive(Clone, Debug)]
pub struct DpaCatalogFile {
    pub effective_date: String,
    pub source_citation: String,
    pub programs: Vec<DpaProgram>,
}

/// The borrower is in one of the program's hero categories.
pub open spec fn dpa_hero_ok(p: DpaProgram, input: DpaEligibilityInput) -> bool {
    match input.hero_category {
        Some(h) => p.hero_categories@.contains(h),
        None => false,
    }
}

/// The first-time-homebuyer gate fails: required, not met, and no veteran
/// or targeted-area exemption applies.
pub open spec fn dpa_fthb_fails(p: DpaProgram, input: DpaEligibilityInput) -> bool {
    &&& p.fthb_required
    &&& !input.is_first_time_homebuyer
    &&& !(p.veteran_fthb_exempt && input.is_veteran)
    &&& !(p.targeted_area_fthb_exempt && input.in_targeted_area)
}

/// Household income is above the applicable limit.
pub open spec fn dpa_income_fails(p: DpaProgram, input: DpaEligibilityInput) -> bool {
    input.annual_household_income.0 > dpa_income_limit(
        p,
        input.county_fips@,
        input.household_size,
        input.in_targeted_area,
    )
}

/// Purchase price is above a non-zero price limit (a `0` limit means none).
pub open spec fn dpa_price_fails(p: DpaProgram, input: DpaEligibilityInput) -> bool {
    let lim = dpa_price_limit(p, input.county_fips@, input.in_targeted_area);
    lim > 0 && input.purchase_price.0 > lim
}

/// DTI is above a non-zero maximum.
pub open spec fn dpa_dti_fails(p: DpaProgram, input: DpaEligibilityInput) -> bool {
    p.max_dti_bps > 0 && input.dti_bps > p.max_dti_bps
}

/// The agency-first-mortgage requirement is not met.
pub open spec fn dpa_agency_fails(p: DpaProgram, input: DpaEligibilityInput) -> bool {
    p.requires_agency_first_mortgage && !input.using_agency_first_mortgage
}

/// The homebuyer-education requirement is not met.
pub open spec fn dpa_education_fails(p: DpaProgram, input: DpaEligibilityInput) -> bool {
    p.homebuyer_education_required && !input.completed_homebuyer_education
}

/// The borrower contributes less than a non-zero required minimum.
pub open spec fn dpa_contribution_fails(p: DpaProgram, input: DpaEligibilityInput) -> bool {
    p.min_borrower_contribution_bps > 0 && input.borrower_contribution_bps
        < p.min_borrower_contribution_bps
}

/// The reasons the borrower fails the program's gates, in gate order.
pub open spec fn dpa_disqualifiers(p: DpaProgram, input: DpaEligibilityInput) -> Seq<Seq<char>> {
    let inc = dpa_income_limit(p, input.county_fips@, input.household_size, input.in_targeted_area);
    let price = dpa_price_limit(p, input.county_fips@, input.in_targeted_area);
    listed_if(
        !dpa_serves(p, input.loan_type@),
        "loan type '"@ + input.loan_type@ + "' not eligible"@,
    ) + listed_if(
        p.hero_categories@.len() > 0 && !dpa_hero_ok(p, input),
        "borrower is not in an eligible hero/essential-worker category"@,
    ) + listed_if(dpa_fthb_fails(p, input), "not a first-time homebuyer; no exemption applies"@)
        + listed_if(
        dpa_income_fails(p, input),
        "income $"@ + dollars_text(input.annual_household_income.0 as int) + " exceeds limit $"@
            + dollars_text(inc as int),
    ) + listed_if(
        dpa_price_fails(p, input),
        "price $"@ + dollars_text(input.purchase_price.0 as int) + " exceeds limit $"@
            + dollars_text(price as int),
    ) + listed_if(
        input.credit_score < p.min_credit_score,
        "credit "@ + dec_int(input.credit_score as int) + " below minimum "@ + dec_int(
            p.min_credit_score as int,
        ),
    ) + listed_if(
        dpa_dti_fails(p, input),
        "DTI "@ + dec_int(input.dti_bps as int / 100) + "% exceeds max "@ + dec_int(
            p.max_dti_bps as int / 100,
        ) + "%"@,
    ) + listed_if(
        dpa_agency_fails(p, input),
        "program requires the agency's first-mortgage product"@,
    ) + listed_if(dpa_education_fails(p, input), "homebuyer education not completed"@)
        + listed_if(
        dpa_contribution_fails(p, input),
        "borrower contribution "@ + dec_int(input.borrower_contribution_bps as int)
            + "bps below required "@ + dec_int(p.min_borrower_contribution_bps as int) + "bps"@,
    )
}

/// The rules an evaluation records, in order.
pub open spec fn dpa_rules(p: DpaProgram, input: DpaEligibilityInput) -> Seq<Seq<char>> {
    seq!["lookup_program_by_id"@, "eligible_loan_type"@] + listed_if(
        p.hero_categories@.len() > 0,
        "hero_category"@,
    ) + seq![
        "first_time_homebuyer"@,
        "income_limit"@,
        "purchase_price_limit"@,
        "min_credit_score"@,
        "max_dti"@,
    ] + listed_if(dpa_agency_fails(p, input), "requires_agency_first_mortgage"@) + listed_if(
        dpa_education_fails(p, input),
        "homebuyer_education"@,
    ) + listed_if(dpa_contribution_fails(p, input), "min_borrower_contribution"@)
        + seq!["final_determination"@]
}

/// The step of a lookup by state.
pub open spec fn state_lookup_step(p: DpaProgram, state: Seq<char>) -> (Seq<char>, Seq<char>, Seq<char>) {
    (
        "lookup_program"@,
        "state="@ + state,
        "matched '"@ + p.program_name@ + "' ("@ + p.jurisdiction_level.spec_name() + ")"@,
    )
}

/// The step of a lookup by program id.
pub open spec fn id_lookup_step(p: DpaProgram, id: Seq<char>) -> (Seq<char>, Seq<char>, Seq<char>) {
    ("lookup_program_by_id"@, "program_id="@ + id, "matched '"@ + p.program_name@ + "'"@)
}

/// The first `n` loan types, quoted and separated by `, `.
pub open spec fn quoted_items(v: Seq<String>, n: nat) -> Seq<char>
    decreases n,
{
    if n == 0 {
        Seq::empty()
    } else {
        quoted_items(v, (n - 1) as nat) + (if n > 1 { ", "@ } else { Seq::empty() }) + "\""@ + v[n - 1]@
            + "\""@
    }
}

/// The names of the first `n` hero categories, separated by `, `.
pub open spec fn hero_items(v: Seq<HeroCategory>, n: nat) -> Seq<char>
    decreases n,
{
    if n == 0 {
        Seq::empty()
    } else {
        hero_items(v, (n - 1) as nat) + (if n > 1 { ", "@ } else { Seq::empty() }) + v[n - 1].spec_name()
    }
}

/// `true` or `false` as the gates write them.
pub open spec fn tf(b: bool) -> Seq<char> {
    if b { "true"@ } else { "false"@ }
}

/// The loan-type step.
pub open spec fn loan_type_step(p: DpaProgram, i: DpaEligibilityInput) -> (Seq<char>, Seq<char>, Seq<char>) {
    (
        "eligible_loan_type"@,
        "loan_type="@ + i.loan_type@,
        if dpa_serves(p, i.loan_type@) {
            "satisfied"@
        } else {
            "FAILED — program serves ["@ + quoted_items(p.eligible_loan_types@, p.eligible_loan_types@.len())
                + "]"@
        },
    )
}

/// The hero-category step, present only when the program restricts categories.
pub open spec fn hero_steps(p: DpaProgram, i: DpaEligibilityInput) -> Seq<(Seq<char>, Seq<char>, Seq<char>)> {
    listed_if(
        p.hero_categories@.len() > 0,
        (
            "hero_category"@,
            "borrower="@ + match i.hero_category {
                Some(h) => "Some("@ + h.spec_name() + ")"@,
                None => "None"@,
            },
            if dpa_hero_ok(p, i) {
                "satisfied"@
            } else {
                "FAILED — requires one of ["@ + hero_items(p.hero_categories@, p.hero_categories@.len()) + "]"@
            },
        ),
    )
}

/// The first-time-homebuyer step.
pub open spec fn dpa_fthb_step(p: DpaProgram, i: DpaEligibilityInput) -> (Seq<char>, Seq<char>, Seq<char>) {
    let rule = "first_time_homebuyer"@;
    if p.fthb_required && !i.is_first_time_homebuyer {
        if p.veteran_fthb_exempt && i.is_veteran {
            (rule, "is_fthb=false, veteran=true"@, "satisfied via veteran exemption"@)
        } else if p.targeted_area_fthb_exempt && i.in_targeted_area {
            (rule, "is_fthb=false, targeted=true"@, "satisfied via targeted-area exemption"@)
        } else {
            (
                rule,
                "is_fthb=false, veteran="@ + tf(i.is_veteran) + ", targeted="@ + tf(i.in_targeted_area),
                "FAILED — no exemption"@,
            )
        }
    } else {
        (
            rule,
            "fthb_required="@ + tf(p.fthb_required) + ", is_fthb="@ + tf(i.is_first_time_homebuyer),
            "satisfied"@,
        )
    }
}

/// The income step.
pub open spec fn dpa_income_step(p: DpaProgram, i: DpaEligibilityInput) -> (Seq<char>, Seq<char>, Seq<char>) {
    let lim = dpa_income_limit(p, i.county_fips@, i.household_size, i.in_targeted_area) as int;
    (
        "income_limit"@,
        "income=$"@ + dollars_text(i.annual_household_income.0 as int) + ", size="@ + dec_nat(
            i.household_size as nat,
        ) + ", targeted="@ + tf(i.in_targeted_area),
        if dpa_income_fails(p, i) {
            "FAILED — limit $"@ + dollars_text(lim)
        } else {
            "satisfied (limit $"@ + dollars_text(lim) + ")"@
        },
    )
}

/// The purchase-price step.
pub open spec fn dpa_price_step(p: DpaProgram, i: DpaEligibilityInput) -> (Seq<char>, Seq<char>, Seq<char>) {
    let lim = dpa_price_limit(p, i.county_fips@, i.in_targeted_area) as int;
    (
        "purchase_price_limit"@,
        "price=$"@ + dollars_text(i.purchase_price.0 as int) + ", targeted="@ + tf(i.in_targeted_area),
        if dpa_price_fails(p, i) {
            "FAILED — limit $"@ + dollars_text(lim)
        } else if lim == 0 {
            "satisfied (no price limit for this program)"@
        } else {
            "satisfied (limit $"@ + dollars_text(lim) + ")"@
        },
    )
}

/// The credit-score step.
pub open spec fn dpa_credit_step(p: DpaProgram, i: DpaEligibilityInput) -> (Seq<char>, Seq<char>, Seq<char>) {
    (
        "min_credit_score"@,
        "score="@ + dec_nat(i.credit_score as nat),
        if i.credit_score < p.min_credit_score {
            "FAILED — minimum "@ + dec_nat(p.min_credit_score as nat)
        } else {
            "satisfied (min "@ + dec_nat(p.min_credit_score as nat) + ")"@
        },
    )
}

/// The DTI step.
pub open spec fn dpa_dti_step(p: DpaProgram, i: DpaEligibilityInput) -> (Seq<char>, Seq<char>, Seq<char>) {
    (
        "max_dti"@,
        "dti="@ + dec_nat((i.dti_bps / 100) as nat) + "%"@,
        if dpa_dti_fails(p, i) {
            "FAILED — max "@ + dec_nat((p.max_dti_bps / 100) as nat) + "%"@
        } else {
            "satisfied"@
        },
    )
}

/// The steps of the agency, education and contribution gates, each present
/// only when it fails.
pub open spec fn dpa_tail_steps(p: DpaProgram, i: DpaEligibilityInput) -> Seq<(Seq<char>, Seq<char>, Seq<char>)> {
    listed_if(
        dpa_agency_fails(p, i),
        ("requires_agency_first_mortgage"@, "using_agency_first=false"@, "FAILED"@),
    ) + listed_if(dpa_education_fails(p, i), ("homebuyer_education"@, "completed=false"@, "FAILED"@))
        + listed_if(
        dpa_contribution_fails(p, i),
        (
            "min_borrower_contribution"@,
            "contribution="@ + dec_nat(i.borrower_contribution_bps as nat) + "bps"@,
            "FAILED — min "@ + dec_nat(p.min_borrower_contribution_bps as nat) + "bps"@,
        ),
    )
}

/// The steps an evaluation records, in order, with their texts.
pub open spec fn dpa_trail(p: DpaProgram, i: DpaEligibilityInput, id: Seq<char>) -> Seq<
    (Seq<char>, Seq<char>, Seq<char>),
> {
    let failed = dpa_disqualifiers(p, i).len();
    seq![id_lookup_step(p, id), loan_type_step(p, i)] + hero_steps(p, i) + seq![
        dpa_fthb_step(p, i),
        dpa_income_step(p, i),
        dpa_price_step(p, i),
        dpa_credit_step(p, i),
        dpa_dti_step(p, i),
    ] + dpa_tail_steps(p, i) + seq![
        (
            "final_determination"@,
            dec_nat(failed) + " gate(s) failed"@,
            if failed == 0 { "ELIGIBLE"@ } else { "INELIGIBLE"@ },
        ),
    ]
}

/// The first program with this id.
pub open spec fn program_with_id(programs: Seq<DpaProgram>, id: Seq<char>) -> Option<DpaProgram> {
    first_where(programs, |p: DpaProgram| p.program_id@ == id)
}

/// The provenance of a catalog answer about program `p`.
pub open spec fn dpa_prov(
    cat: DpaCatalogFile,
    p: DpaProgram,
    d: Provenance,
    file: Seq<char>,
    req: u16,
    res: u16,
) -> bool {
    prov_is(d, "dpa_catalog"@, file, cat.source_citation@, cat.effective_date@, p.program_id@, req, res)
}

/// The programs serving `state` (compared without regard to ASCII case),
/// in catalog order.
pub open spec fn programs_in_state(programs: Seq<DpaProgram>, state: Seq<char>) -> Seq<DpaProgram> {
    programs.filter(|p: DpaProgram| eq_ignore_case(p.state@, state))
}

/// `"…"` for one text.
fn quoted(s: &mut String, t: &str)
    ensures
        final(s)@ == old(s)@ + "\""@ + t@ + "\""@,
{
    s.append("\"");
    s.append(t);
    s.append("\"");
}

impl DpaCatalogFile {
    fn provenance_for(&self, p: &DpaProgram, file: &str, req: u16, res: u16) -> (r: Provenance)
        ensures
            dpa_prov(*self, *p, r, file@, req, res),
    {
        Provenance {
            dataset: "dpa_catalog".to_owned(),
            source_file: file.to_owned(),
            source_citation: self.source_citation.clone(),
            effective_date: self.effective_date.clone(),
            record_id: p.program_id.clone(),
            requested_version: req,
            resolved_version: res,
        }
    }

    /// Index of the first program with this id.
    fn find_program(&self, program_id: &str) -> (r: Option<usize>)
        ensures
            match r {
                Some(k) => k < self.programs@.len() && program_with_id(self.programs@, program_id@)
                    == Some(self.programs@[k as int]),
                None => program_with_id(self.programs@, program_id@) is None,
            },
    {
        let ghost pred = |p: DpaProgram| p.program_id@ == program_id@;
        let mut i: usize = 0;
        while i < self.programs.len()
            invariant
                0 <= i <= self.programs@.len(),
                pred == (|p: DpaProgram| p.program_id@ == program_id@),
                forall|j: int| 0 <= j < i ==> !pred(#[trigger] self.programs@[j]),
            decreases self.programs@.len() - i,
        {
            if str_eq(self.programs[i].program_id.as_str(), program_id) {
                proof {
                    lemma_first_where_hit(self.programs@, pred, i as int);
                }
                return Some(i);
            }
            i = i + 1;
        }
        proof {
            lemma_first_where_none(self.programs@, pred);
        }
        None
    }

    /// All programs serving a state (statewide and local, state compared
    /// without regard to ASCII case), in catalog order, each with provenance
    /// and a `lookup_program` step.
    pub fn programs_for_state(&self, state: &str, file: &str, req: u16, res: u16) -> (r: Vec<
        Derived<DpaProgram>,
    >)
        ensures
            r@.len() == programs_in_state(self.programs@, state@).len(),
            forall|k: int|
                0 <= k < r@.len() ==> {
                    let p = #[trigger] programs_in_state(self.programs@, state@)[k];
                    &&& same_program(r@[k].value, p)
                    &&& dpa_prov(*self, p, r@[k].provenance, file@, req, res)
                    &&& step_texts(r@[k].steps@) == seq![state_lookup_step(p, state@)]
                },
    {
        let ghost pred = |p: DpaProgram| eq_ignore_case(p.state@, state@);
        let mut out: Vec<Derived<DpaProgram>> = Vec::new();
        let mut i: usize = 0;
        while i < self.programs.len()
            invariant
                0 <= i <= self.programs@.len(),
                pred == (|p: DpaProgram| eq_ignore_case(p.state@, state@)),
                out@.len() == self.programs@.take(i as int).filter(pred).len(),
                forall|k: int|
                    0 <= k < out@.len() ==> {
                        let p = #[trigger] self.programs@.take(i as int).filter(pred)[k];
                        &&& same_program(out@[k].value, p)
                        &&& dpa_prov(*self, p, out@[k].provenance, file@, req, res)
                        &&& step_texts(out@[k].steps@) == seq![state_lookup_step(p, state@)]
                    },
            decreases self.programs@.len() - i,
        {
            let p = &self.programs[i];
            proof {
                reveal_with_fuel(Seq::<_>::filter, 1);
                assert(self.programs@.take(i + 1).drop_last() =~= self.programs@.take(i as int));
                assert(self.programs@.take(i + 1).last() == self.programs@[i as int]);
            }
            if str_eq_ignore_ascii_case(p.state.as_str(), state) {
                let prov = self.provenance_for(p, file, req, res);
                let mut inputs = String::new();
                inputs.append("state=");
                inputs.append(state);
                let mut outcome = String::new();
                outcome.append("matched '");
                outcome.append(p.program_name.as_str());
                outcome.append("' (");
                outcome.append(p.jurisdiction_level.name());
                outcome.append(")");
                let d = Derived::new(p.copy(), prov).with_step("lookup_program", inputs, outcome);
                assert(step_texts(d.steps@) =~= seq![state_lookup_step(*p, state@)]);
                out.push(d);
            }
            i = i + 1;
        }
        assert(self.programs@.take(i as int) =~= self.programs@);
        assert(programs_in_state(self.programs@, state@) =~= self.programs@.filter(pred));
        out
    }

    /// The first program with this id, with provenance and a
    /// `lookup_program_by_id` step; `None` when the catalog has no such id.
    pub fn program_by_id(&self, program_id: &str, file: &str, req: u16, res: u16) -> (r: Option<
        Derived<DpaProgram>,
    >)
        ensures
            r is Some <==> program_with_id(self.programs@, program_id@) is Some,
            r matches Some(d) ==> {
                let p = program_with_id(self.programs@, program_id@)->0;
                &&& same_program(d.value, p)
                &&& dpa_prov(*self, p, d.provenance, file@, req, res)
                &&& step_texts(d.steps@) == seq![id_lookup_step(p, program_id@)]
            },
    {
        match self.find_program(program_id) {
            None => None,
            Some(k) => {
                let p = &self.programs[k];
                let prov = self.provenance_for(p, file, req, res);
                let mut inputs = String::new();
                inputs.append("program_id=");
                inputs.append(program_id);
                let mut outcome = String::new();
                outcome.append("matched '");
                outcome.append(p.program_name.as_str());
                outcome.append("'");
                let d = Derived::new(p.copy(), prov).with_step(
                    "lookup_program_by_id",
                    inputs,
                    outcome,
                );
                assert(step_texts(d.steps@) =~= seq![id_lookup_step(*p, program_id@)]);
                Some(d)
            },
        }
    }

    /// Evaluates every eligibility gate of the first program with this id
    /// against the borrower, recording one step per gate. The outcome is
    /// eligible exactly when no gate fails; `None` when the catalog has no
    /// such id.
    #[verifier::rlimit(60)]
    #[verifier::spinoff_prover]
    pub fn evaluate(
        &self,
        program_id: &str,
        input: &DpaEligibilityInput,
        file: &str,
        req: u16,
        res: u16,
    ) -> (r: Option<Derived<DpaOutcome>>)
        ensures
            r is Some <==> program_with_id(self.programs@, program_id@) is Some,
            r matches Some(d) ==> {
                let p = program_with_id(self.programs@, program_id@)->0;
                &&& d.value.program_id@ == p.program_id@
                &&& strings_view(d.value.disqualifiers@) == dpa_disqualifiers(p, *input)
                &&& d.value.eligible == (dpa_disqualifiers(p, *input).len() == 0)
                &&& dpa_prov(*self, p, d.provenance, file@, req, res)
                &&& rule_names(d.steps@) == dpa_rules(p, *input)
                &&& step_texts(d.steps@) == dpa_trail(p, *input, program_id@)
            },
    {
        let k = match self.find_program(program_id) {
            None => return None,
            Some(k) => k,
        };
        let p = &self.programs[k];
        let mut dq: Vec<String> = Vec::new();
        let mut d = Derived::new(
            DpaOutcome {
                eligible: false,
                program_id: p.program_id.clone(),
                disqualifiers: Vec::new(),
            },
            self.provenance_for(p, file, req, res),
        );
        let mut inputs = String::new();
        inputs.append("program_id=");
        inputs.append(program_id);
        let mut outcome = String::new();
        outcome.append("matched '");
        outcome.append(p.program_name.as_str());
        outcome.append("'");
        d.push_step("lookup_program_by_id", inputs, outcome);
        assert(rule_names(d.steps@) =~= seq!["lookup_program_by_id"@]);
        assert(step_texts(d.steps@) =~= seq![id_lookup_step(*p, program_id@)]);
        assert(strings_view(dq@) =~= Seq::<Seq<char>>::empty());
        let ghost t0 = step_texts(d.steps@);
        gate_loan_type(p, input, &mut dq, &mut d);
        gate_hero(p, input, &mut dq, &mut d);
        let ghost t1 = step_texts(d.steps@);
        assert(t1 =~= seq![id_lookup_step(*p, program_id@), loan_type_step(*p, *input)] + hero_steps(*p, *input));
        gate_fthb(p, input, &mut dq, &mut d);
        gate_income(p, input, &mut dq, &mut d);
        gate_price(p, input, &mut dq, &mut d);
        gate_credit(p, input, &mut dq, &mut d);
        gate_dti(p, input, &mut dq, &mut d);
        let ghost t2 = step_texts(d.steps@);
        assert(t2 =~= t1 + seq![
            dpa_fthb_step(*p, *input),
            dpa_income_step(*p, *input),
            dpa_price_step(*p, *input),
            dpa_credit_step(*p, *input),
            dpa_dti_step(*p, *input),
        ]);
        gate_tail(p, input, &mut dq, &mut d);
        let ghost t3 = step_texts(d.steps@);
        let eligible = dq.len() == 0;
        let mut f_in = String::new();
        push_dec_u64(&mut f_in, dq.len() as u64);
        f_in.append(" gate(s) failed");
        d.push_step(
            "final_determination",
            f_in,
            if eligible { "ELIGIBLE".to_owned() } else { "INELIGIBLE".to_owned() },
        );
        proof {
            let sp = *p;
            let si = *input;
            assert(strings_view(dq@) =~= dpa_disqualifiers(sp, si));
            assert(rule_names(d.steps@) =~= dpa_rules(sp, si));
        }
        assert(step_texts(d.steps@) =~= dpa_trail(*p, *input, program_id@)) by {
            assert(step_texts(d.steps@) == t3.push(
                (
                    "final_determination"@,
                    dec_nat(dpa_disqualifiers(*p, *input).len()) + " gate(s) failed"@,
                    if dpa_disqualifiers(*p, *input).len() == 0 { "ELIGIBLE"@ } else { "INELIGIBLE"@ },
                ),
            ));
        }
        d.value.eligible = eligible;
        d.value.disqualifiers = dq;
        Some(d)
    }
}

/// Loan-type gate.
fn gate_loan_type(
    p: &DpaProgram,
    input: &DpaEligibilityInput,
    dq: &mut Vec<String>,
    d: &mut Derived<DpaOutcome>,
)
    ensures
        strings_view(final(dq)@) == strings_view(old(dq)@) + listed_if(
            !dpa_serves(*p, input.loan_type@),
            "loan type '"@ + input.loan_type@ + "' not eligible"@,
        ),
        rule_names(final(d).steps@) == rule_names(old(d).steps@).push("eligible_loan_type"@),
        step_texts(final(d).steps@) == step_texts(old(d).steps@).push(loan_type_step(*p, *input)),
        final(d).value == old(d).value,
        final(d).provenance == old(d).provenance,
{
    let mut lt_in = String::new();
    lt_in.append("loan_type=");
    lt_in.append(input.loan_type.as_str());
    if !p.serves_loan_type(input.loan_type.as_str()) {
        let mut m = String::new();
        m.append("loan type '");
        m.append(input.loan_type.as_str());
        m.append("' not eligible");
        push_msg(dq, m);
        let mut o = String::new();
        o.append("FAILED — program serves [");
        let ghost head = o@;
        let mut j: usize = 0;
        while j < p.eligible_loan_types.len()
            invariant
                0 <= j <= p.eligible_loan_types@.len(),
                o@ == head + quoted_items(p.eligible_loan_types@, j as nat),
            decreases p.eligible_loan_types@.len() - j,
        {
            let ghost before = o@;
            if j > 0 {
                o.append(", ");
            }
            quoted(&mut o, p.eligible_loan_types[j].as_str());
            assert(o@ =~= head + quoted_items(p.eligible_loan_types@, (j + 1) as nat));
            j = j + 1;
        }
        o.append("]");
        d.push_step("eligible_loan_type", lt_in, o);
    } else {
        d.push_step("eligible_loan_type", lt_in, "satisfied".to_owned());
        assert(strings_view(dq@) =~= strings_view(old(dq)@) + Seq::<Seq<char>>::empty());
    }
}

/// Hero-category gate, applied only when the program restricts categories.
fn gate_hero(p: &DpaProgram, input: &DpaEligibilityInput, dq: &mut Vec<String>, d: &mut Derived<DpaOutcome>)
    ensures
        strings_view(final(dq)@) == strings_view(old(dq)@) + listed_if(
            p.hero_categories@.len() > 0 && !dpa_hero_ok(*p, *input),
            "borrower is not in an eligible hero/essential-worker category"@,
        ),
        rule_names(final(d).steps@) == rule_names(old(d).steps@) + listed_if(
            p.hero_categories@.len() > 0,
            "hero_category"@,
        ),
        step_texts(final(d).steps@) == step_texts(old(d).steps@) + hero_steps(*p, *input),
        final(d).value == old(d).value,
        final(d).provenance == old(d).provenance,
{
    if p.hero_categories.len() > 0 {
        let ok = match input.hero_category {
            Some(h) => p.has_hero_category(h),
            None => false,
        };
        let mut h_in = String::new();
        h_in.append("borrower=");
        match input.hero_category {
            Some(h) => {
                h_in.append("Some(");
                h_in.append(h.name());
                h_in.append(")");
            },
            None => {
                h_in.append("None");
            },
        }
        assert(h_in@ == "borrower="@ + match input.hero_category {
            Some(h) => "Some("@ + h.spec_name() + ")"@,
            None => "None"@,
        });
        if ok {
            d.push_step("hero_category", h_in, "satisfied".to_owned());
            assert(strings_view(dq@) =~= strings_view(old(dq)@) + Seq::<Seq<char>>::empty());
            assert(step_texts(d.steps@) =~= step_texts(old(d).steps@) + hero_steps(*p, *input));
        } else {
            push_msg(dq, "borrower is not in an eligible hero/essential-worker category".to_owned());
            let mut o = String::new();
            o.append("FAILED — requires one of [");
            let ghost head = o@;
            let mut j: usize = 0;
            while j < p.hero_categories.len()
                invariant
                    0 <= j <= p.hero_categories@.len(),
                    o@ == head + hero_items(p.hero_categories@, j as nat),
                decreases p.hero_categories@.len() - j,
            {
                if j > 0 {
                    o.append(", ");
                }
                o.append(p.hero_categories[j].name());
                assert(o@ =~= head + hero_items(p.hero_categories@, (j + 1) as nat));
                j = j + 1;
            }
            o.append("]");
            d.push_step("hero_category", h_in, o);
            assert(step_texts(d.steps@) =~= step_texts(old(d).steps@) + hero_steps(*p, *input));
        }
    } else {
        assert(strings_view(dq@) =~= strings_view(old(dq)@) + Seq::<Seq<char>>::empty());
        assert(rule_names(d.steps@) =~= rule_names(old(d).steps@) + Seq::<Seq<char>>::empty());
        assert(step_texts(d.steps@) =~= step_texts(old(d).steps@) + hero_steps(*p, *input));
    }
}

/// First-time-homebuyer gate, with veteran and targeted-area exemptions.
fn gate_fthb(p: &DpaProgram, input: &DpaEligibilityInput, dq: &mut Vec<String>, d: &mut Derived<DpaOutcome>)
    ensures
        strings_view(final(dq)@) == strings_view(old(dq)@) + listed_if(
            dpa_fthb_fails(*p, *input),
            "not a first-time homebuyer; no exemption applies"@,
        ),
        rule_names(final(d).steps@) == rule_names(old(d).steps@).push("first_time_homebuyer"@),
        step_texts(final(d).steps@) == step_texts(old(d).steps@).push(dpa_fthb_step(*p, *input)),
        final(d).value == old(d).value,
        final(d).provenance == old(d).provenance,
{
    if p.fthb_required && !input.is_first_time_homebuyer {
        let vet = p.veteran_fthb_exempt && input.is_veteran;
        let tgt = p.targeted_area_fthb_exempt && input.in_targeted_area;
        if vet {
            d.push_step(
                "first_time_homebuyer",
                "is_fthb=false, veteran=true".to_owned(),
                "satisfied via veteran exemption".to_owned(),
            );
            assert(strings_view(dq@) =~= strings_view(old(dq)@) + Seq::<Seq<char>>::empty());
        } else if tgt {
            d.push_step(
                "first_time_homebuyer",
                "is_fthb=false, targeted=true".to_owned(),
                "satisfied via targeted-area exemption".to_owned(),
            );
            assert(strings_view(dq@) =~= strings_view(old(dq)@) + Seq::<Seq<char>>::empty());
        } else {
            push_msg(dq, "not a first-time homebuyer; no exemption applies".to_owned());
            let mut f_in = String::new();
            f_in.append("is_fthb=false, veteran=");
            f_in.append(if input.is_veteran { "true" } else { "false" });
            f_in.append(", targeted=");
            f_in.append(if input.in_targeted_area { "true" } else { "false" });
            d.push_step("first_time_homebuyer", f_in, "FAILED — no exemption".to_owned());
        }
    } else {
        let mut f_in = String::new();
        f_in.append("fthb_required=");
        f_in.append(if p.fthb_required { "true" } else { "false" });
        f_in.append(", is_fthb=");
        f_in.append(if input.is_first_time_homebuyer { "true" } else { "false" });
        d.push_step("first_time_homebuyer", f_in, "satisfied".to_owned());
        assert(strings_view(dq@) =~= strings_view(old(dq)@) + Seq::<Seq<char>>::empty());
    }
}

/// Household-income gate.
fn gate_income(p: &DpaProgram, input: &DpaEligibilityInput, dq: &mut Vec<String>, d: &mut Derived<DpaOutcome>)
    ensures
        strings_view(final(dq)@) == strings_view(old(dq)@) + listed_if(
            dpa_income_fails(*p, *input),
            "income $"@ + dollars_text(input.annual_household_income.0 as int) + " exceeds limit $"@
                + dollars_text(
                dpa_income_limit(*p, input.county_fips@, input.household_size, input.in_targeted_area)
                    as int,
            ),
        ),
        rule_names(final(d).steps@) == rule_names(old(d).steps@).push("income_limit"@),
        step_texts(final(d).steps@) == step_texts(old(d).steps@).push(dpa_income_step(*p, *input)),
        final(d).value == old(d).value,
        final(d).provenance == old(d).provenance,
{
    let inc_limit = p.income_limit(
        input.county_fips.as_str(),
        input.household_size,
        input.in_targeted_area,
    );
    let mut i_in = String::new();
    i_in.append("income=$");
    push_dollars(&mut i_in, input.annual_household_income.0);
    i_in.append(", size=");
    push_dec_u64(&mut i_in, input.household_size as u64);
    i_in.append(", targeted=");
    i_in.append(if input.in_targeted_area { "true" } else { "false" });
    if input.annual_household_income.0 > inc_limit.0 {
        let mut m = String::new();
        m.append("income $");
        push_dollars(&mut m, input.annual_household_income.0);
        m.append(" exceeds limit $");
        push_dollars(&mut m, inc_limit.0);
        push_msg(dq, m);
        let mut o = String::new();
        o.append("FAILED — limit $");
        push_dollars(&mut o, inc_limit.0);
        d.push_step("income_limit", i_in, o);
    } else {
        let mut o = String::new();
        o.append("satisfied (limit $");
        push_dollars(&mut o, inc_limit.0);
        o.append(")");
        d.push_step("income_limit", i_in, o);
        assert(strings_view(dq@) =~= strings_view(old(dq)@) + Seq::<Seq<char>>::empty());
    }
}

/// Purchase-price gate (a limit of `0` means no cap at this layer).
fn gate_price(p: &DpaProgram, input: &DpaEligibilityInput, dq: &mut Vec<String>, d: &mut Derived<DpaOutcome>)
    ensures
        strings_view(final(dq)@) == strings_view(old(dq)@) + listed_if(
            dpa_price_fails(*p, *input),
            "price $"@ + dollars_text(input.purchase_price.0 as int) + " exceeds limit $"@
                + dollars_text(dpa_price_limit(*p, input.county_fips@, input.in_targeted_area) as int),
        ),
        rule_names(final(d).steps@) == rule_names(old(d).steps@).push("purchase_price_limit"@),
        step_texts(final(d).steps@) == step_texts(old(d).steps@).push(dpa_price_step(*p, *input)),
        final(d).value == old(d).value,
        final(d).provenance == old(d).provenance,
{
    let price_limit = p.price_limit(input.county_fips.as_str(), input.in_targeted_area);
    let mut p_in = String::new();
    p_in.append("price=$");
    push_dollars(&mut p_in, input.purchase_price.0);
    p_in.append(", targeted=");
    p_in.append(if input.in_targeted_area { "true" } else { "false" });
    if price_limit.0 > 0 && input.purchase_price.0 > price_limit.0 {
        let mut m = String::new();
        m.append("price $");
        push_dollars(&mut m, input.purchase_price.0);
        m.append(" exceeds limit $");
        push_dollars(&mut m, price_limit.0);
        push_msg(dq, m);
        let mut o = String::new();
        o.append("FAILED — limit $");
        push_dollars(&mut o, price_limit.0);
        d.push_step("purchase_price_limit", p_in, o);
    } else {
        let mut o = String::new();
        if price_limit.0 == 0 {
            o.append("satisfied (no price limit for this program)");
        } else {
            o.append("satisfied (limit $");
            push_dollars(&mut o, price_limit.0);
            o.append(")");
        }
        d.push_step("purchase_price_limit", p_in, o);
        assert(strings_view(dq@) =~= strings_view(old(dq)@) + Seq::<Seq<char>>::empty());
    }
}

/// Minimum-credit-score gate.
fn gate_credit(p: &DpaProgram, input: &DpaEligibilityInput, dq: &mut Vec<String>, d: &mut Derived<DpaOutcome>)
    ensures
        strings_view(final(dq)@) == strings_view(old(dq)@) + listed_if(
            input.credit_score < p.min_credit_score,
            "credit "@ + dec_int(input.credit_score as int) + " below minimum "@ + dec_int(
                p.min_credit_score as int,
            ),
        ),
        rule_names(final(d).steps@) == rule_names(old(d).steps@).push("min_credit_score"@),
        step_texts(final(d).steps@) == step_texts(old(d).steps@).push(dpa_credit_step(*p, *input)),
        final(d).value == old(d).value,
        final(d).provenance == old(d).provenance,
{
    let mut c_in = String::new();
    c_in.append("score=");
    push_dec_u64(&mut c_in, input.credit_score as u64);
    if input.credit_score < p.min_credit_score {
        let mut m = String::new();
        m.append("credit ");
        push_dec_u64(&mut m, input.credit_score as u64);
        m.append(" below minimum ");
        push_dec_u64(&mut m, p.min_credit_score as u64);
        push_msg(dq, m);
        let mut o = String::new();
        o.append("FAILED — minimum ");
        push_dec_u64(&mut o, p.min_credit_score as u64);
        d.push_step("min_credit_score", c_in, o);
    } else {
        let mut o = String::new();
        o.append("satisfied (min ");
        push_dec_u64(&mut o, p.min_credit_score as u64);
        o.append(")");
        d.push_step("min_credit_score", c_in, o);
        assert(strings_view(dq@) =~= strings_view(old(dq)@) + Seq::<Seq<char>>::empty());
    }
}

/// Maximum-DTI gate (a maximum of `0` means none).
fn gate_dti(p: &DpaProgram, input: &DpaEligibilityInput, dq: &mut Vec<String>, d: &mut Derived<DpaOutcome>)
    ensures
        strings_view(final(dq)@) == strings_view(old(dq)@) + listed_if(
            dpa_dti_fails(*p, *input),
            "DTI "@ + dec_int(input.dti_bps as int / 100) + "% exceeds max "@ + dec_int(
                p.max_dti_bps as int / 100,
            ) + "%"@,
        ),
        rule_names(final(d).steps@) == rule_names(old(d).steps@).push("max_dti"@),
        step_texts(final(d).steps@) == step_texts(old(d).steps@).push(dpa_dti_step(*p, *input)),
        final(d).value == old(d).value,
        final(d).provenance == old(d).provenance,
{
    let mut t_in = String::new();
    t_in.append("dti=");
    push_dec_u64(&mut t_in, (input.dti_bps / 100) as u64);
    t_in.append("%");
    if p.max_dti_bps > 0 && input.dti_bps > p.max_dti_bps {
        let mut m = String::new();
        m.append("DTI ");
        push_dec_u64(&mut m, (input.dti_bps / 100) as u64);
        m.append("% exceeds max ");
        push_dec_u64(&mut m, (p.max_dti_bps / 100) as u64);
        m.append("%");
        push_msg(dq, m);
        let mut o = String::new();
        o.append("FAILED — max ");
        push_dec_u64(&mut o, (p.max_dti_bps / 100) as u64);
        o.append("%");
        d.push_step("max_dti", t_in, o);
    } else {
        d.push_step("max_dti", t_in, "satisfied".to_owned());
        assert(strings_view(dq@) =~= strings_view(old(dq)@) + Seq::<Seq<char>>::empty());
    }
}

/// Agency-first-mortgage, homebuyer-education and borrower-contribution
/// gates; each records a step only when it fails.
fn gate_tail(p: &DpaProgram, input: &DpaEligibilityInput, dq: &mut Vec<String>, d: &mut Derived<DpaOutcome>)
    ensures
        strings_view(final(dq)@) == strings_view(old(dq)@) + listed_if(
            dpa_agency_fails(*p, *input),
            "program requires the agency's first-mortgage product"@,
        ) + listed_if(dpa_education_fails(*p, *input), "homebuyer education not completed"@)
            + listed_if(
            dpa_contribution_fails(*p, *input),
            "borrower contribution "@ + dec_int(input.borrower_contribution_bps as int)
                + "bps below required "@ + dec_int(p.min_borrower_contribution_bps as int)
                + "bps"@,
        ),
        rule_names(final(d).steps@) == rule_names(old(d).steps@) + listed_if(
            dpa_agency_fails(*p, *input),
            "requires_agency_first_mortgage"@,
        ) + listed_if(dpa_education_fails(*p, *input), "homebuyer_education"@) + listed_if(
            dpa_contribution_fails(*p, *input),
            "min_borrower_contribution"@,
        ),
        step_texts(final(d).steps@) == step_texts(old(d).steps@) + dpa_tail_steps(*p, *input),
        final(d).value == old(d).value,
        final(d).provenance == old(d).provenance,
{
    let ghost dq0 = strings_view(dq@);
    let ghost st0 = rule_names(d.steps@);
    let ghost tx0 = step_texts(d.steps@);
    if p.requires_agency_first_mortgage && !input.using_agency_first_mortgage {
        push_msg(dq, "program requires the agency's first-mortgage product".to_owned());
        d.push_step(
            "requires_agency_first_mortgage",
            "using_agency_first=false".to_owned(),
            "FAILED".to_owned(),
        );
    }
    let ghost dq1 = strings_view(dq@);
    let ghost st1 = rule_names(d.steps@);
    assert(dq1 =~= dq0 + listed_if(
        dpa_agency_fails(*p, *input),
        "program requires the agency's first-mortgage product"@,
    ));
    assert(st1 =~= st0 + listed_if(dpa_agency_fails(*p, *input), "requires_agency_first_mortgage"@));
    let ghost tx1 = step_texts(d.steps@);
    assert(tx1 =~= tx0 + listed_if(
        dpa_agency_fails(*p, *input),
        ("requires_agency_first_mortgage"@, "using_agency_first=false"@, "FAILED"@),
    ));
    if p.homebuyer_education_required && !input.completed_homebuyer_education {
        push_msg(dq, "homebuyer education not completed".to_owned());
        d.push_step("homebuyer_education", "completed=false".to_owned(), "FAILED".to_owned());
    }
    let ghost dq2 = strings_view(dq@);
    let ghost st2 = rule_names(d.steps@);
    assert(dq2 =~= dq1 + listed_if(
        dpa_education_fails(*p, *input),
        "homebuyer education not completed"@,
    ));
    assert(st2 =~= st1 + listed_if(dpa_education_fails(*p, *input), "homebuyer_education"@));
    let ghost tx2 = step_texts(d.steps@);
    assert(tx2 =~= tx1 + listed_if(
        dpa_education_fails(*p, *input),
        ("homebuyer_education"@, "completed=false"@, "FAILED"@),
    ));
    if p.min_borrower_contribution_bps > 0 && input.borrower_contribution_bps
        < p.min_borrower_contribution_bps {
        let mut m = String::new();
        m.append("borrower contribution ");
        push_dec_u64(&mut m, input.borrower_contribution_bps as u64);
        m.append("bps below required ");
        push_dec_u64(&mut m, p.min_borrower_contribution_bps as u64);
        m.append("bps");
        push_msg(dq, m);
        let mut b_in = String::new();
        b_in.append("contribution=");
        push_dec_u64(&mut b_in, input.borrower_contribution_bps as u64);
        b_in.append("bps");
        let mut o = String::new();
        o.append("FAILED — min ");
        push_dec_u64(&mut o, p.min_borrower_contribution_bps as u64);
        o.append("bps");
        d.push_step("min_borrower_contribution", b_in, o);
    }
    let ghost dq3 = strings_view(dq@);
    let ghost st3 = rule_names(d.steps@);
    assert(dq3 =~= dq2 + listed_if(
        dpa_contribution_fails(*p, *input),
        "borrower contribution "@ + dec_int(input.borrower_contribution_bps as int)
            + "bps below required "@ + dec_int(p.min_borrower_contribution_bps as int) + "bps"@,
    ));
    assert(st3 =~= st2 + listed_if(
        dpa_contribution_fails(*p, *input),
        "min_borrower_contribution"@,
    ));
    assert(step_texts(d.steps@) =~= tx0 + dpa_tail_steps(*p, *input));
}

/// The assistance amount before the cap: the fixed dollar amount, or the
/// basis-point share of the price or of the loan (rounded toward zero).
pub open spec fn dpa_raw_amount(p: DpaProgram, price: int, loan: int) -> int {
    match p.amount_basis {
        DpaAmountBasis::FixedDollar => p.max_amount_cents as int,
        DpaAmountBasis::PercentOfPurchasePrice => trunc_div(price * p.amount_value_bps, 10_000),
        DpaAmountBasis::PercentOfLoanAmount => trunc_div(loan * p.amount_value_bps, 10_000),
    }
}

/// The assistance amount: a percentage basis is capped by a non-zero
/// `max_amount_cents`; a fixed-dollar amount is the cap itself.
pub open spec fn dpa_amount(p: DpaProgram, price: int, loan: int) -> int {
    let raw = dpa_raw_amount(p, price, loan);
    let cap = p.max_amount_cents as int;
    if p.amount_basis != DpaAmountBasis::FixedDollar && cap > 0 && raw > cap {
        cap
    } else {
        raw as i64 as int
    }
}

/// The two steps of an amount estimate: the base amount (whole dollars of
/// the raw amount as a 64-bit integer), then the cap.
pub open spec fn dpa_amount_trail(p: DpaProgram, price: int, loan: int) -> Seq<(Seq<char>, Seq<char>, Seq<char>)> {
    let raw = dpa_raw_amount(p, price, loan);
    let cap = p.max_amount_cents as int;
    let capped = p.amount_basis != DpaAmountBasis::FixedDollar && cap > 0 && raw > cap;
    seq![
        (
            "compute_base_amount"@,
            match p.amount_basis {
                DpaAmountBasis::FixedDollar => "fixed dollar"@,
                DpaAmountBasis::PercentOfPurchasePrice => dec_nat((p.amount_value_bps / 100) as nat)
                    + "% of price $"@ + dollars_text(price),
                DpaAmountBasis::PercentOfLoanAmount => dec_nat((p.amount_value_bps / 100) as nat)
                    + "% of loan $"@ + dollars_text(loan),
            },
            "raw=$"@ + dec_int(trunc_div(raw, 100) as i64 as int),
        ),
        (
            "apply_cap"@,
            "cap=$"@ + if cap > 0 { dollars_text(cap) } else { "none"@ },
            (if capped { "capped to $"@ } else { "amount=$"@ }) + dollars_text(dpa_amount(p, price, loan)),
        ),
    ]
}

/// Estimates the DPA dollar amount for a program given price and loan
/// amount, extending the program's trail with the base-amount and cap steps.
pub fn estimate_dpa_amount(program: Derived<DpaProgram>, purchase_price: Cents, loan_amount: Cents) -> (r: Derived<Cents>)
    ensures
        r.value.0 == dpa_amount(program.value, purchase_price.0 as int, loan_amount.0 as int),
        r.provenance == program.provenance,
        rule_names(r.steps@) == rule_names(program.steps@) + seq![
            "compute_base_amount"@,
            "apply_cap"@,
        ],
        step_texts(r.steps@) == step_texts(program.steps@) + dpa_amount_trail(
            program.value,
            purchase_price.0 as int,
            loan_amount.0 as int,
        ),
{
    let p = &program.value;
    let mut basis_desc = String::new();
    let raw: i128 = match p.amount_basis {
        DpaAmountBasis::FixedDollar => {
            basis_desc.append("fixed dollar");
            p.max_amount_cents as i128
        },
        DpaAmountBasis::PercentOfPurchasePrice => {
            push_dec_u64(&mut basis_desc, (p.amount_value_bps / 100) as u64);
            basis_desc.append("% of price $");
            push_dollars(&mut basis_desc, purchase_price.0);
            assert((purchase_price.0 as i128) * (p.amount_value_bps as i128) <= i64::MAX * u32::MAX) by (nonlinear_arith)
                requires 0 <= p.amount_value_bps <= u32::MAX, purchase_price.0 <= i64::MAX;
            assert((purchase_price.0 as i128) * (p.amount_value_bps as i128) >= i64::MIN * u32::MAX) by (nonlinear_arith)
                requires 0 <= p.amount_value_bps <= u32::MAX, purchase_price.0 >= i64::MIN;
            (purchase_price.0 as i128) * (p.amount_value_bps as i128) / 10_000
        },
        DpaAmountBasis::PercentOfLoanAmount => {
            push_dec_u64(&mut basis_desc, (p.amount_value_bps / 100) as u64);
            basis_desc.append("% of loan $");
            push_dollars(&mut basis_desc, loan_amount.0);
            assert((loan_amount.0 as i128) * (p.amount_value_bps as i128) <= i64::MAX * u32::MAX) by (nonlinear_arith)
                requires 0 <= p.amount_value_bps <= u32::MAX, loan_amount.0 <= i64::MAX;
            assert((loan_amount.0 as i128) * (p.amount_value_bps as i128) >= i64::MIN * u32::MAX) by (nonlinear_arith)
                requires 0 <= p.amount_value_bps <= u32::MAX, loan_amount.0 >= i64::MIN;
            (loan_amount.0 as i128) * (p.amount_value_bps as i128) / 10_000
        },
    };
    let cap = p.max_amount_cents;
    let capped = p.amount_basis != DpaAmountBasis::FixedDollar && cap > 0 && raw > cap as i128;
    let amount: i64 = if capped { cap } else { raw as i64 };
    proof {
        let ghost sp = program.value;
        assert(raw == dpa_raw_amount(sp, purchase_price.0 as int, loan_amount.0 as int));
    }
    let mut raw_text = String::new();
    raw_text.append("raw=$");
    push_dec_i64(&mut raw_text, (raw / 100) as i64);
    let mut cap_in = String::new();
    cap_in.append("cap=$");
    if cap > 0 {
        push_dollars(&mut cap_in, cap);
    } else {
        cap_in.append("none");
    }
    let mut cap_out = String::new();
    if capped {
        cap_out.append("capped to $");
    } else {
        cap_out.append("amount=$");
    }
    push_dollars(&mut cap_out, amount);
    let d = program.map(|_p: DpaProgram| -> (c: Cents)
        ensures
            c.0 == amount,
        { Cents(amount) });
    let d = d.with_step("compute_base_amount", basis_desc, raw_text);
    let d = d.with_step("apply_cap", cap_in, cap_out);
    proof {
        assert(rule_names(d.steps@) =~= rule_names(program.steps@) + seq![
            "compute_base_amount"@,
            "apply_cap"@,
        ]);
        assert(step_texts(d.steps@) =~= step_texts(program.steps@) + dpa_amount_trail(
            program.value,
            purchase_price.0 as int,
            loan_amount.0 as int,
        ));
    }
    d
}

/// The message each gate gives when it fails, in gate order: loan type,
/// hero category, first-time buyer, income, price, credit, DTI, agency
/// first mortgage, homebuyer education, borrower contribution.
pub open spec fn dpa_gate_messages(p: DpaProgram, input: DpaEligibilityInput) -> Seq<Seq<char>> {
    let inc = dpa_income_limit(p, input.county_fips@, input.household_size, input.in_targeted_area);
    let price = dpa_price_limit(p, input.county_fips@, input.in_targeted_area);
    seq![
        "loan type '"@ + input.loan_type@ + "' not eligible"@,
        "borrower is not in an eligible hero/essential-worker category"@,
        "not a first-time homebuyer; no exemption applies"@,
        "income $"@ + dollars_text(input.annual_household_income.0 as int) + " exceeds limit $"@
            + dollars_text(inc as int),
        "price $"@ + dollars_text(input.purchase_price.0 as int) + " exceeds limit $"@ + dollars_text(
            price as int,
        ),
        "credit "@ + dec_int(input.credit_score as int) + " below minimum "@ + dec_int(
            p.min_credit_score as int,
        ),
        "DTI "@ + dec_int(input.dti_bps as int / 100) + "% exceeds max "@ + dec_int(p.max_dti_bps as int / 100)
            + "%"@,
        "program requires the agency's first-mortgage product"@,
        "homebuyer education not completed"@,
        "borrower contribution "@ + dec_int(input.borrower_contribution_bps as int) + "bps below required "@
            + dec_int(p.min_borrower_contribution_bps as int) + "bps"@,
    ]
}

/// Whether each gate fails, in gate order: the loan type is not served;
/// the program names hero categories and the borrower is in none; the
/// first-time-buyer requirement is unmet with no exemption; income above
/// the limit; price above a non-zero limit; credit below the minimum; DTI
/// above a non-zero maximum; the agency first mortgage is not used; the
/// education is not completed; the contribution is below a non-zero
/// minimum.
pub open spec fn dpa_gate_failures(p: DpaProgram, input: DpaEligibilityInput) -> Seq<bool> {
    seq![
        !dpa_serves(p, input.loan_type@),
        p.hero_categories@.len() > 0 && !dpa_hero_ok(p, input),
        dpa_fthb_fails(p, input),
        dpa_income_fails(p, input),
        dpa_price_fails(p, input),
        input.credit_score < p.min_credit_score,
        dpa_dti_fails(p, input),
        dpa_agency_fails(p, input),
        dpa_education_fails(p, input),
        dpa_contribution_fails(p, input),
    ]
}

/// The messages of the failed gates among the first `n`, in order.
pub open spec fn gated_messages(msgs: Seq<Seq<char>>, fails: Seq<bool>, n: nat) -> Seq<Seq<char>>
    decreases n,
{
    if n == 0 {
        Seq::empty()
    } else {
        gated_messages(msgs, fails, (n - 1) as nat) + listed_if(fails[n - 1], msgs[n - 1])
    }
}

/// Every listed message belongs to a gate (below `n`) that fails, and when
/// no two messages coincide a gate's message is listed just in case that
/// gate fails.
#[verifier::spinoff_prover]
proof fn lemma_gated_messages(msgs: Seq<Seq<char>>, fails: Seq<bool>, n: nat)
    requires
        n <= msgs.len(),
        n <= fails.len(),
        forall|a: int, b: int| 0 <= a < b < msgs.len() ==> #[trigger] msgs[a] != #[trigger] msgs[b],
    ensures
        forall|j: int|
            0 <= j < gated_messages(msgs, fails, n).len() ==> exists|k: int|
                0 <= k < n && fails[k] && #[trigger] gated_messages(msgs, fails, n)[j] == msgs[k],
        forall|k: int| 0 <= k < n ==> (gated_messages(msgs, fails, n).contains(#[trigger] msgs[k]) <==> fails[k]),
    decreases n,
{
    if n > 0 {
        let m = (n - 1) as nat;
        lemma_gated_messages(msgs, fails, m);
        let prev = gated_messages(msgs, fails, m);
        let cur = gated_messages(msgs, fails, n);
        let tail = listed_if(fails[n - 1], msgs[n - 1]);
        assert(cur == prev + tail);
        assert forall|j: int| 0 <= j < cur.len() implies exists|k: int|
            0 <= k < n && fails[k] && #[trigger] cur[j] == msgs[k] by {
            if j < prev.len() {
                assert(cur[j] == prev[j]);
                let k = choose|k: int| 0 <= k < m && fails[k] && #[trigger] prev[j] == msgs[k];
                assert(0 <= k < n && fails[k] && cur[j] == msgs[k]);
            } else {
                assert(cur[j] == tail[j - prev.len()]);
                assert(fails[n - 1] && cur[j] == msgs[n - 1]);
                let k = n - 1;
                assert(0 <= k < n && fails[k] && cur[j] == msgs[k]);
            }
        }
        assert forall|k: int| 0 <= k < n implies (cur.contains(#[trigger] msgs[k]) <==> fails[k]) by {
            if fails[k] {
                if k < m {
                    assert(prev.contains(msgs[k]));
                    let j = choose|j: int| 0 <= j < prev.len() && prev[j] == msgs[k];
                    assert(cur[j] == prev[j]);
                } else {
                    assert(cur[prev.len() as int] == msgs[k]);
                }
            }
            if cur.contains(msgs[k]) {
                let j = choose|j: int| 0 <= j < cur.len() && cur[j] == msgs[k];
                let g = choose|g: int| 0 <= g < n && fails[g] && #[trigger] cur[j] == msgs[g];
                if g != k {
                    if g < k {
                        assert(msgs[g] != msgs[k]);
                    } else {
                        assert(msgs[k] != msgs[g]);
                    }
                }
            }
        }
    }
}

/// No two gate messages coincide: they differ at index 0, 2 or 9.
proof fn lemma_gate_messages_distinct(p: DpaProgram, input: DpaEligibilityInput)
    ensures
        forall|a: int, b: int|
            0 <= a < b < dpa_gate_messages(p, input).len() ==> #[trigger] dpa_gate_messages(p, input)[a]
                != #[trigger] dpa_gate_messages(p, input)[b],
{
    reveal_strlit("loan type '");
    reveal_strlit("borrower is not in an eligible hero/essential-worker category");
    reveal_strlit("not a first-time homebuyer; no exemption applies");
    reveal_strlit("income $");
    reveal_strlit("price $");
    reveal_strlit("credit ");
    reveal_strlit("DTI ");
    reveal_strlit("program requires the agency's first-mortgage product");
    reveal_strlit("homebuyer education not completed");
    reveal_strlit("borrower contribution ");
    let ms = dpa_gate_messages(p, input);
    let key = |m: Seq<char>| (m[0], m[2], m[9]);
    assert(ms[0][0] == 'l' && ms[0][2] == 'a');
    assert(ms[1][0] == 'b' && ms[1][2] == 'r' && ms[1][9] == 'i');
    assert(ms[2][0] == 'n' && ms[2][2] == 't');
    assert(ms[3][0] == 'i' && ms[3][2] == 'c');
    assert(ms[4][0] == 'p' && ms[4][2] == 'i');
    assert(ms[5][0] == 'c' && ms[5][2] == 'e');
    assert(ms[6][0] == 'D' && ms[6][2] == 'I');
    assert(ms[7][0] == 'p' && ms[7][2] == 'o');
    assert(ms[8][0] == 'h' && ms[8][2] == 'm');
    assert(ms[9][0] == 'b' && ms[9][2] == 'r' && ms[9][9] == 'c');
    assert forall|a: int, b: int| 0 <= a < b < ms.len() implies #[trigger] ms[a] != #[trigger] ms[b] by {
        if ms[a] == ms[b] {
            assert(key(ms[a]) == key(ms[b]));
        }
    }
}

/// Per gate, the evaluation's disqualifiers name a gate exactly when it
/// fails: each gate's message is listed if and only if that gate fails, and
/// every listed entry is the message of a failed gate (one entry per failed
/// gate, in gate order).
pub proof fn lemma_disqualifiers_by_gate(p: DpaProgram, input: DpaEligibilityInput)
    ensures
        dpa_disqualifiers(p, input) == gated_messages(
            dpa_gate_messages(p, input),
            dpa_gate_failures(p, input),
            10,
        ),
        forall|k: int|
            0 <= k < 10 ==> (dpa_disqualifiers(p, input).contains(#[trigger] dpa_gate_messages(p, input)[k])
                <==> dpa_gate_failures(p, input)[k]),
        forall|j: int|
            0 <= j < dpa_disqualifiers(p, input).len() ==> exists|k: int|
                0 <= k < 10 && dpa_gate_failures(p, input)[k] && #[trigger] dpa_disqualifiers(p, input)[j]
                    == dpa_gate_messages(p, input)[k],
{
    let ms = dpa_gate_messages(p, input);
    let fs = dpa_gate_failures(p, input);
    reveal_with_fuel(gated_messages, 11);
    assert(dpa_disqualifiers(p, input) =~= gated_messages(ms, fs, 10));
    lemma_gate_messages_distinct(p, input);
    lemma_gated_messages(ms, fs, 10);
}

} // verus!
