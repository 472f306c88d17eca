//! Geographic and program eligibility data.
//!
//! Data is keyed by county FIPS code (5 digits) and/or census tract GEOID
//! (11 digits); ZIP codes are never used for eligibility. Tract area shares
//! are held in hundredths of a percent.

use vstd::prelude::*;
use crate::error::{RefDataError, RefDataResult};
use crate::money::Cents;
use crate::versioning::CalendarDate;

verus! {

/// FHA maximum insurable loan amounts by county and unit count.
///
/// The UFMIP-financed adjusted loan amount (not the base) must fit the
/// limit for the property's unit count.
#[derive(Clone, Debug)]
pub struct FhaLoanLimits {
    pub fips_code: String,
    pub state_abbr: String,
    pub county_name: String,
    /// How the limit was determined.
    pub limit_type: FhaLimitType,
    pub limit_1_unit: Cents,
    pub limit_2_unit: Cents,
    pub limit_3_unit: Cents,
    pub limit_4_unit: Cents,
    pub effective_year: u16,
}

/// How the FHA limit was determined for a county.
#[derive(Clone, Copy, Debug, PartialEq, Eq, Structural)]
pub enum FhaLimitType {
    /// National floor: 65% of the national conforming limit.
    Floor,
    /// County-specific limit between floor and ceiling.
    Standard,
    /// National ceiling: 150% of the national conforming limit.
    HighCost,
}

/// The limit of four per-unit-count limits for a unit count (1–4).
pub open spec fn limit_by_units(l1: Cents, l2: Cents, l3: Cents, l4: Cents, units: u8) -> Cents {
    if units == 1 {
        l1
    } else if units == 2 {
        l2
    } else if units == 3 {
        l3
    } else {
        l4
    }
}

impl FhaLoanLimits {
    /// The limit for a unit count (1–4).
    pub fn limit_for(&self, unit_count: u8) -> (c: Cents)
        requires
            1 <= unit_count <= 4,
        ensures
            c == limit_by_units(
                self.limit_1_unit,
                self.limit_2_unit,
                self.limit_3_unit,
                self.limit_4_unit,
                unit_count,
            ),
    {
        match unit_count {
            1 => self.limit_1_unit,
            2 => self.limit_2_unit,
            3 => self.limit_3_unit,
            _ => self.limit_4_unit,
        }
    }
}

/// FNMA / FHLMC conforming loan limits by county and unit count.
///
/// A loan is high-balance when it exceeds the national standard limit but
/// not the county limit.
#[derive(Clone, Debug)]
pub struct GseLoanLimits {
    pub fips_code: String,
    pub state_abbr: String,
    pub county_name: String,
    pub cbsa_name: Option<String>,
    pub limit_1_unit: Cents,
    pub limit_2_unit: Cents,
    pub limit_3_unit: Cents,
    pub limit_4_unit: Cents,
    /// True when the 1-unit limit is above the standard national limit.
    pub is_high_cost: bool,
    pub effective_year: u16,
}

/// Standard national conforming limit for 2025 (1-unit), in cents: $806,500.
pub const STANDARD_1_UNIT_2025_CENTS: i64 = 80_650_000;

impl GseLoanLimits {
    /// The limit for a unit count (1–4).
    pub fn limit_for(&self, unit_count: u8) -> (c: Cents)
        requires
            1 <= unit_count <= 4,
        ensures
            c == limit_by_units(
                self.limit_1_unit,
                self.limit_2_unit,
                self.limit_3_unit,
                self.limit_4_unit,
                unit_count,
            ),
    {
        match unit_count {
            1 => self.limit_1_unit,
            2 => self.limit_2_unit,
            3 => self.limit_3_unit,
            _ => self.limit_4_unit,
        }
    }

    /// True when the amount is above the standard national limit and within
    /// the county's 1-unit limit.
    pub fn is_high_balance_amount(&self, loan_amount: Cents, year: u16) -> (b: bool)
        ensures
            b == (loan_amount.0 > STANDARD_1_UNIT_2025_CENTS && loan_amount.0 <= self.limit_1_unit.0),
    {
        loan_amount.0 > STANDARD_1_UNIT_2025_CENTS && loan_amount.0 <= self.limit_1_unit.0
    }
}

/// USDA Single Family Housing rural eligibility by census tract: a tract
/// is eligible when its centroid is not within any USDA ineligible polygon.
#[derive(Clone, Debug)]
pub struct UsdaruralEligibility {
    /// 11-digit census tract GEOID.
    pub geoid: String,
    /// 5-digit county FIPS code.
    pub fips_code: String,
    pub state_abbr: String,
    /// True if the tract centroid is not within any ineligible polygon.
    pub is_sfh_eligible: bool,
    /// True for Multi-Family Housing programs.
    pub is_mfh_eligible: bool,
    /// Share of tract area outside all ineligible polygons, in hundredths
    /// of a percent; `None` when not computed.
    pub pct_eligible_bps: Option<u32>,
    /// Source dataset version string.
    pub source_version: String,
}

/// USDA Section 502 Guaranteed (SFGH) household income limits by county,
/// final limits for household sizes 1–8.
#[derive(Clone, Debug)]
pub struct UsdaIncomeLimit {
    pub fips_code: String,
    pub state_abbr: String,
    pub county_name: String,
    pub msa_name: Option<String>,
    /// Program: "SFGH".
    pub program: String,
    pub limit_size_1: Cents,
    pub limit_size_2: Cents,
    pub limit_size_3: Cents,
    pub limit_size_4: Cents,
    pub limit_size_5: Cents,
    pub limit_size_6: Cents,
    pub limit_size_7: Cents,
    pub limit_size_8: Cents,
    pub effective_date: CalendarDate,
}

impl UsdaIncomeLimit {
    /// The eight limits, household size 1 first.
    pub open spec fn limits(self) -> Seq<Cents> {
        seq![
            self.limit_size_1,
            self.limit_size_2,
            self.limit_size_3,
            self.limit_size_4,
            self.limit_size_5,
            self.limit_size_6,
            self.limit_size_7,
            self.limit_size_8,
        ]
    }

    /// The income limit for a household of `size` persons (1–8); any other
    /// size is `InvalidHouseholdSize`.
    pub fn limit_for_size(&self, size: u8) -> (r: RefDataResult<Cents>)
        ensures
            1 <= size <= 8 ==> (r matches Ok(c) && c == self.limits()[size - 1]),
            !(1 <= size <= 8) ==> (r matches Err(RefDataError::InvalidHouseholdSize(n)) && n == size),
    {
        match size {
            1 => Ok(self.limit_size_1),
            2 => Ok(self.limit_size_2),
            3 => Ok(self.limit_size_3),
            4 => Ok(self.limit_size_4),
            5 => Ok(self.limit_size_5),
            6 => Ok(self.limit_size_6),
            7 => Ok(self.limit_size_7),
            8 => Ok(self.limit_size_8),
            n => Err(RefDataError::InvalidHouseholdSize(n)),
        }
    }
}

/// Area Median Income data by census tract.
///
/// HomeReady / Home Possible income must be at most 80% of the tract's AMI,
/// unless the tract is a low-income tract, where there is no income limit.
#[derive(Clone, Debug)]
pub struct AmiTractData {
    pub geoid: String,
    pub fips_code: String,
    pub state_abbr: String,
    pub county_name: String,
    pub tract_name: Option<String>,
    pub ami_100pct: Option<Cents>,
    pub ami_50pct: Option<Cents>,
    pub ami_80pct: Option<Cents>,
    pub ami_115pct: Option<Cents>,
    pub ami_120pct: Option<Cents>,
    pub ami_140pct: Option<Cents>,
    /// True when tract median income is at most 80% of MSA median.
    pub is_low_income_tract: bool,
    /// Low-income tract plus any Home Possible waiver checks.
    pub hp_income_limit_waived: bool,
    pub effective_year: u16,
}

/// USDA-financed multi-family housing projects by census tract.
#[derive(Clone, Debug)]
pub struct UsdaMfhByTract {
    pub geoid: String,
    pub fips_code: String,
    pub state_fips: String,
    pub county_fips: String,
    pub tract_number: String,
    pub tract_name: Option<String>,
    pub el_projects: u16,
    pub el_units: u16,
    pub fa_projects: u16,
    pub fa_units: u16,
    pub cg_projects: u16,
    pub cg_units: u16,
    pub gh_projects: u16,
    pub gh_units: u16,
    pub mx_projects: u16,
    pub mx_units: u16,
    pub total_projects: u16,
    pub total_units: u16,
}

impl UsdaMfhByTract {
    /// True if the tract has any active USDA housing projects.
    pub fn has_usda_projects(&self) -> (b: bool)
        ensures
            b == (self.total_projects > 0),
    {
        self.total_projects > 0
    }

    /// True if the tract has any elderly housing projects.
    pub fn has_elderly_housing(&self) -> (b: bool)
        ensures
            b == (self.el_projects > 0),
    {
        self.el_projects > 0
    }

    /// True if the tract has any family housing projects.
    pub fn has_family_housing(&self) -> (b: bool)
        ensures
            b == (self.fa_projects > 0),
    {
        self.fa_projects > 0
    }
}

/// All geographic and program eligibility data for one property.
#[derive(Clone, Debug)]
pub struct GeoEligibility {
    pub fips_code: String,
    /// 11-digit census tract GEOID, when resolved.
    pub tract_geoid: Option<String>,
    pub effective_year: u16,
    pub fha_limit_1_unit: Cents,
    pub fha_limit_2_unit: Cents,
    pub fha_limit_3_unit: Cents,
    pub fha_limit_4_unit: Cents,
    pub fha_limit_type: FhaLimitType,
    pub gse_limit_1_unit: Cents,
    pub gse_limit_2_unit: Cents,
    pub gse_limit_3_unit: Cents,
    pub gse_limit_4_unit: Cents,
    /// True if the county limit is above the standard national limit.
    pub gse_is_high_cost: bool,
    /// True if the property is not within a USDA ineligible polygon.
    pub usda_sfh_eligible: bool,
    pub usda_mfh_eligible: bool,
    /// Share of tract area outside ineligible zones, in hundredths of a
    /// percent (`None` = centroid check only).
    pub usda_pct_eligible_bps: Option<u32>,
    /// Max household income by household size; index 0 is size 1.
    pub usda_income_limits: [Cents; 8],
    pub ami_100pct: Option<Cents>,
    pub ami_50pct: Option<Cents>,
    pub ami_80pct: Option<Cents>,
    pub ami_115pct: Option<Cents>,
    /// True for an FFIEC low-income census tract.
    pub is_low_income_tract: bool,
    /// Low-income tract plus any Home Possible waiver.
    pub hp_income_limit_waived: bool,
}

impl GeoEligibility {
    /// True when the unit count is 1–4 and the adjusted loan (UFMIP
    /// financed) is within the county FHA limit for it.
    pub fn fha_loan_within_limit(&self, adjusted_loan: Cents, unit_count: u8) -> (b: bool)
        ensures
            b == (1 <= unit_count <= 4 && adjusted_loan.0 <= limit_by_units(
                self.fha_limit_1_unit,
                self.fha_limit_2_unit,
                self.fha_limit_3_unit,
                self.fha_limit_4_unit,
                unit_count,
            ).0),
    {
        let limit = match unit_count {
            1 => self.fha_limit_1_unit,
            2 => self.fha_limit_2_unit,
            3 => self.fha_limit_3_unit,
            4 => self.fha_limit_4_unit,
            _ => return false,
        };
        adjusted_loan.0 <= limit.0
    }

    /// `(is_eligible, is_high_balance)`: eligible when the unit count is 1–4
    /// and the loan is within the county limit; high-balance when eligible,
    /// in a high-cost county, and above the standard national limit.
    pub fn gse_loan_status(&self, loan_amount: Cents, unit_count: u8) -> (r: (bool, bool))
        ensures
            r.0 == (1 <= unit_count <= 4 && loan_amount.0 <= limit_by_units(
                self.gse_limit_1_unit,
                self.gse_limit_2_unit,
                self.gse_limit_3_unit,
                self.gse_limit_4_unit,
                unit_count,
            ).0),
            r.1 == (r.0 && self.gse_is_high_cost && loan_amount.0 > STANDARD_1_UNIT_2025_CENTS),
    {
        let county_limit = match unit_count {
            1 => self.gse_limit_1_unit,
            2 => self.gse_limit_2_unit,
            3 => self.gse_limit_3_unit,
            4 => self.gse_limit_4_unit,
            _ => return (false, false),
        };
        if loan_amount.0 > county_limit.0 {
            return (false, false);
        }
        let is_high_balance = self.gse_is_high_cost && loan_amount.0 > STANDARD_1_UNIT_2025_CENTS;
        (true, is_high_balance)
    }

    /// True when the household size is 1–8 and the household income (all
    /// adults in the home) is within the USDA limit for that size.
    pub fn usda_income_eligible(&self, annual_household_income: Cents, household_size: u8) -> (b:
        bool)
        ensures
            b == (1 <= household_size <= 8 && annual_household_income.0
                <= self.usda_income_limits@[household_size - 1].0),
    {
        if household_size == 0 || household_size > 8 {
            return false;
        }
        let limit = self.usda_income_limits[(household_size - 1) as usize];
        annual_household_income.0 <= limit.0
    }

    /// True when the HomeReady / Home Possible income limit is waived, or
    /// the income is within 80% of AMI; false without AMI data.
    pub fn hp_income_eligible(&self, annual_borrower_income: Cents) -> (b: bool)
        ensures
            b == (self.hp_income_limit_waived || match self.ami_80pct {
                Some(l) => annual_borrower_income.0 <= l.0,
                None => false,
            }),
    {
        if self.hp_income_limit_waived {
            return true;
        }
        match self.ami_80pct {
            Some(limit) => annual_borrower_income.0 <= limit.0,
            None => false,
        }
    }
}

} // verus!
