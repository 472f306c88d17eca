//! Records from the rows of the SQL backend.
//!
//! The SQL store keeps integers as 32- or 64-bit columns, booleans as
//! integers (non-zero is true) and dates as `%Y-%m-%d` text. These
//! functions turn a fetched row into the record the store answers with; a
//! narrowing of a column keeps its low bits, as Rust's `as` does.

use vstd::prelude::*;
use chrono::Datelike;
use crate::geo::{AmiTractData, FhaLoanLimits, GseLoanLimits, UsdaIncomeLimit};
use crate::hoi_rates::StateHoiRate;
use crate::text::{str_to_uppercase, uppercase_of};
use crate::zip_hoi::ZipHoiRate;
use crate::money::{Cents, ProgramCode};
use crate::program_rules::ProgramEligibilityRules;
use crate::store::{jan_1, parse_limit_type, limit_type_from};
use crate::versioning::{valid_ymd, version_text, CalendarDate, Versioned};

verus! {

/// What `chrono::NaiveDate::parse_from_str(s, "%Y-%m-%d")` reads from a
/// text, as year, month and day.
pub uninterp spec fn chrono_ymd_of(s: Seq<char>) -> Option<(i32, u32, u32)>;

/// `chrono::NaiveDate::parse_from_str(s, "%Y-%m-%d")`, as year, month and
/// day. The result is named, not spelled out (chrono's parser takes pages);
/// a parsed date is a real calendar day in chrono's range.
#[verifier::external_body]
fn parse_ymd(s: &str) -> (r: Option<(i32, u32, u32)>)
    ensures
        r == chrono_ymd_of(s@),
        r matches Some(t) ==> valid_ymd(t.0 as int, t.1 as int, t.2 as int),
{
    match chrono::NaiveDate::parse_from_str(s, "%Y-%m-%d") {
        Ok(d) => Some((d.year(), d.month(), d.day())),
        Err(_) => None,
    }
}

/// The date a stored text denotes, or 1970-01-01 (chrono's default date)
/// when it does not parse.
pub fn date_or_default(s: &str) -> (d: CalendarDate)
    ensures
        match chrono_ymd_of(s@) {
            Some(t) => d.spec_year() == t.0 && d.spec_month() == t.1 && d.spec_day() == t.2,
            None => d.spec_year() == 1970 && d.spec_month() == 1 && d.spec_day() == 1,
        },
{
    let fallback = jan_1(1970);
    match parse_ymd(s) {
        Some((y, m, day)) => match CalendarDate::from_ymd_opt(y, m, day) {
            Some(d) => d,
            None => fallback,
        },
        None => fallback,
    }
}

/// A stored FHA limits row.
#[derive(Clone, Debug)]
pub struct FhaLimitsRow {
    pub state_abbr: String,
    pub county_name: String,
    pub limit_type: String,
    pub limit_1_unit: i64,
    pub limit_2_unit: i64,
    pub limit_3_unit: i64,
    pub limit_4_unit: i64,
    pub effective_year: i32,
}

/// The FHA limits of a county from its latest stored row, dated January 1st
/// of the row's year.
pub fn fha_limits_from_row(fips_code: &str, row: FhaLimitsRow) -> (v: Versioned<FhaLoanLimits>)
    ensures
        v.data.fips_code@ == fips_code@,
        v.data.state_abbr@ == row.state_abbr@,
        v.data.county_name@ == row.county_name@,
        v.data.limit_type == limit_type_from(row.limit_type@),
        v.data.limit_1_unit == Cents(row.limit_1_unit),
        v.data.limit_2_unit == Cents(row.limit_2_unit),
        v.data.limit_3_unit == Cents(row.limit_3_unit),
        v.data.limit_4_unit == Cents(row.limit_4_unit),
        v.data.effective_year == row.effective_year as u16,
        v.effective_date.spec_year() == (row.effective_year as u16) as i32,
        v.effective_date.spec_month() == 1 && v.effective_date.spec_day() == 1,
        v.version_id.0@ == version_text("fha_loan_limits"@, v.effective_date),
{
    let year: u16 = #[verifier::truncate] (row.effective_year as u16);
    let limit_type = parse_limit_type(row.limit_type.as_str());
    let data = FhaLoanLimits {
        fips_code: fips_code.to_owned(),
        state_abbr: row.state_abbr,
        county_name: row.county_name,
        limit_type,
        limit_1_unit: Cents(row.limit_1_unit),
        limit_2_unit: Cents(row.limit_2_unit),
        limit_3_unit: Cents(row.limit_3_unit),
        limit_4_unit: Cents(row.limit_4_unit),
        effective_year: year,
    };
    Versioned::new("fha_loan_limits", jan_1(year), data)
}

/// A stored conforming-limits row.
#[derive(Clone, Debug)]
pub struct GseLimitsRow {
    pub state_abbr: String,
    pub county_name: String,
    pub cbsa_name: Option<String>,
    pub limit_1_unit: i64,
    pub limit_2_unit: i64,
    pub limit_3_unit: i64,
    pub limit_4_unit: i64,
    pub is_high_cost: i32,
    pub effective_year: i32,
}

/// The conforming limits of a county from its latest stored row, dated
/// January 1st of the row's year.
pub fn gse_limits_from_row(fips_code: &str, row: GseLimitsRow) -> (v: Versioned<GseLoanLimits>)
    ensures
        v.data.fips_code@ == fips_code@,
        v.data.state_abbr@ == row.state_abbr@,
        v.data.county_name@ == row.county_name@,
        v.data.cbsa_name == row.cbsa_name,
        v.data.limit_1_unit == Cents(row.limit_1_unit),
        v.data.limit_2_unit == Cents(row.limit_2_unit),
        v.data.limit_3_unit == Cents(row.limit_3_unit),
        v.data.limit_4_unit == Cents(row.limit_4_unit),
        v.data.is_high_cost == (row.is_high_cost != 0),
        v.data.effective_year == row.effective_year as u16,
        v.effective_date.spec_year() == (row.effective_year as u16) as i32,
        v.effective_date.spec_month() == 1 && v.effective_date.spec_day() == 1,
        v.version_id.0@ == version_text("gse_loan_limits"@, v.effective_date),
{
    let year: u16 = #[verifier::truncate] (row.effective_year as u16);
    let data = GseLoanLimits {
        fips_code: fips_code.to_owned(),
        state_abbr: row.state_abbr,
        county_name: row.county_name,
        cbsa_name: row.cbsa_name,
        limit_1_unit: Cents(row.limit_1_unit),
        limit_2_unit: Cents(row.limit_2_unit),
        limit_3_unit: Cents(row.limit_3_unit),
        limit_4_unit: Cents(row.limit_4_unit),
        is_high_cost: row.is_high_cost != 0,
        effective_year: year,
    };
    Versioned::new("gse_loan_limits", jan_1(year), data)
}

/// A stored USDA income-limit row.
#[derive(Clone, Debug)]
pub struct UsdaIncomeRow {
    pub state_abbr: String,
    pub county_name: String,
    pub msa_name: Option<String>,
    pub program: String,
    pub limits: [i64; 8],
    pub effective_date: String,
}

/// The USDA income limits of a county from its latest stored row, dated by
/// the row's date text (1970-01-01 when it does not parse).
pub fn usda_income_from_row(fips_code: &str, row: UsdaIncomeRow) -> (v: Versioned<UsdaIncomeLimit>)
    ensures
        v.data.fips_code@ == fips_code@,
        v.data.state_abbr@ == row.state_abbr@,
        v.data.county_name@ == row.county_name@,
        v.data.msa_name == row.msa_name,
        v.data.program@ == row.program@,
        v.data.limits() == row.limits@.map_values(|c: i64| Cents(c)),
        v.data.effective_date == v.effective_date,
        match chrono_ymd_of(row.effective_date@) {
            Some(t) => v.effective_date.spec_year() == t.0 && v.effective_date.spec_month() == t.1
                && v.effective_date.spec_day() == t.2,
            None => v.effective_date.spec_year() == 1970 && v.effective_date.spec_month() == 1
                && v.effective_date.spec_day() == 1,
        },
        v.version_id.0@ == version_text("usda_income_limits"@, v.effective_date),
{
    let eff = date_or_default(row.effective_date.as_str());
    let l = row.limits;
    let data = UsdaIncomeLimit {
        fips_code: fips_code.to_owned(),
        state_abbr: row.state_abbr,
        county_name: row.county_name,
        msa_name: row.msa_name,
        program: row.program,
        limit_size_1: Cents(l[0]),
        limit_size_2: Cents(l[1]),
        limit_size_3: Cents(l[2]),
        limit_size_4: Cents(l[3]),
        limit_size_5: Cents(l[4]),
        limit_size_6: Cents(l[5]),
        limit_size_7: Cents(l[6]),
        limit_size_8: Cents(l[7]),
        effective_date: eff,
    };
    assert(data.limits() =~= l@.map_values(|c: i64| Cents(c)));
    Versioned::new("usda_income_limits", eff, data)
}

/// A stored AMI row.
#[derive(Clone, Debug)]
pub struct AmiRow {
    pub fips_code: String,
    pub state_abbr: String,
    pub county_name: String,
    pub tract_name: Option<String>,
    pub ami_100pct: Option<i64>,
    pub ami_50pct: Option<i64>,
    pub ami_80pct: Option<i64>,
    pub ami_115pct: Option<i64>,
    pub ami_120pct: Option<i64>,
    pub ami_140pct: Option<i64>,
    pub is_low_income_tract: i32,
    pub hp_income_limit_waived: i32,
    pub effective_year: i32,
}

/// An optional amount in cents.
pub open spec fn opt_cents(o: Option<i64>) -> Option<Cents> {
    match o {
        Some(c) => Some(Cents(c)),
        None => None,
    }
}

fn to_cents(o: Option<i64>) -> (r: Option<Cents>)
    ensures
        r == opt_cents(o),
{
    match o {
        Some(c) => Some(Cents(c)),
        None => None,
    }
}

/// The AMI data of a tract from its latest stored row, dated January 1st of
/// the row's year.
pub fn ami_from_row(geoid: &str, row: AmiRow) -> (v: Versioned<AmiTractData>)
    ensures
        v.data.geoid@ == geoid@,
        v.data.fips_code@ == row.fips_code@,
        v.data.state_abbr@ == row.state_abbr@,
        v.data.county_name@ == row.county_name@,
        v.data.tract_name == row.tract_name,
        v.data.ami_100pct == opt_cents(row.ami_100pct),
        v.data.ami_50pct == opt_cents(row.ami_50pct),
        v.data.ami_80pct == opt_cents(row.ami_80pct),
        v.data.ami_115pct == opt_cents(row.ami_115pct),
        v.data.ami_120pct == opt_cents(row.ami_120pct),
        v.data.ami_140pct == opt_cents(row.ami_140pct),
        v.data.is_low_income_tract == (row.is_low_income_tract != 0),
        v.data.hp_income_limit_waived == (row.hp_income_limit_waived != 0),
        v.data.effective_year == row.effective_year as u16,
        v.effective_date.spec_year() == (row.effective_year as u16) as i32,
        v.effective_date.spec_month() == 1 && v.effective_date.spec_day() == 1,
        v.version_id.0@ == version_text("ami_tract_data"@, v.effective_date),
{
    let year: u16 = #[verifier::truncate] (row.effective_year as u16);
    let data = AmiTractData {
        geoid: geoid.to_owned(),
        fips_code: row.fips_code,
        state_abbr: row.state_abbr,
        county_name: row.county_name,
        tract_name: row.tract_name,
        ami_100pct: to_cents(row.ami_100pct),
        ami_50pct: to_cents(row.ami_50pct),
        ami_80pct: to_cents(row.ami_80pct),
        ami_115pct: to_cents(row.ami_115pct),
        ami_120pct: to_cents(row.ami_120pct),
        ami_140pct: to_cents(row.ami_140pct),
        is_low_income_tract: row.is_low_income_tract != 0,
        hp_income_limit_waived: row.hp_income_limit_waived != 0,
        effective_year: year,
    };
    Versioned::new("ami_tract_data", jan_1(year), data)
}

/// A stored program-rules row.
#[derive(Clone, Debug)]
pub struct ProgramRulesRow {
    pub min_credit_score: i32,
    pub min_credit_score_alt: Option<i32>,
    pub alt_credit_min_down_payment_bps: Option<i32>,
    pub max_ltv_bps: i32,
    pub max_ltv_bps_alt_credit: Option<i32>,
    pub max_ltv_bps_high_balance: Option<i32>,
    pub front_end_dti_max_bps: i32,
    pub requires_primary_residence: i32,
    pub requires_first_time_buyer: i32,
    pub requires_va_entitlement: i32,
    pub requires_usda_eligibility: i32,
    pub requires_ami_income_check: i32,
    pub effective_date: String,
}

/// An optional column narrowed to 16 bits.
pub open spec fn opt_u16(o: Option<i32>) -> Option<u16> {
    match o {
        Some(v) => Some(v as u16),
        None => None,
    }
}

/// An optional column narrowed to 32 unsigned bits.
pub open spec fn opt_u32(o: Option<i32>) -> Option<u32> {
    match o {
        Some(v) => Some(v as u32),
        None => None,
    }
}

fn narrow_u16(o: Option<i32>) -> (r: Option<u16>)
    ensures
        r == opt_u16(o),
{
    match o {
        Some(v) => Some(#[verifier::truncate] (v as u16)),
        None => None,
    }
}

fn narrow_u32(o: Option<i32>) -> (r: Option<u32>)
    ensures
        r == opt_u32(o),
{
    match o {
        Some(v) => Some(#[verifier::truncate] (v as u32)),
        None => None,
    }
}

/// A program's rules from its stored row.
pub fn program_rules_from_row(program: ProgramCode, row: &ProgramRulesRow) -> (r: ProgramEligibilityRules)
    ensures
        r.program == program,
        r.min_credit_score == row.min_credit_score as u16,
        r.min_credit_score_alt == opt_u16(row.min_credit_score_alt),
        r.alt_credit_min_down_payment_bps == opt_u16(row.alt_credit_min_down_payment_bps),
        r.max_ltv_bps == row.max_ltv_bps as u32,
        r.max_ltv_bps_alt_credit == opt_u32(row.max_ltv_bps_alt_credit),
        r.max_ltv_bps_high_balance == opt_u32(row.max_ltv_bps_high_balance),
        r.front_end_dti_max_bps == row.front_end_dti_max_bps as u32,
        r.requires_primary_residence == (row.requires_primary_residence != 0),
        r.requires_first_time_buyer == (row.requires_first_time_buyer != 0),
        r.requires_va_entitlement == (row.requires_va_entitlement != 0),
        r.requires_usda_eligibility == (row.requires_usda_eligibility != 0),
        r.requires_ami_income_check == (row.requires_ami_income_check != 0),
        match chrono_ymd_of(row.effective_date@) {
            Some(t) => r.effective_date.spec_year() == t.0 && r.effective_date.spec_month() == t.1
                && r.effective_date.spec_day() == t.2,
            None => r.effective_date.spec_year() == 1970 && r.effective_date.spec_month() == 1
                && r.effective_date.spec_day() == 1,
        },
{
    ProgramEligibilityRules {
        program,
        min_credit_score: #[verifier::truncate] (row.min_credit_score as u16),
        min_credit_score_alt: narrow_u16(row.min_credit_score_alt),
        alt_credit_min_down_payment_bps: narrow_u16(row.alt_credit_min_down_payment_bps),
        max_ltv_bps: #[verifier::truncate] (row.max_ltv_bps as u32),
        max_ltv_bps_alt_credit: narrow_u32(row.max_ltv_bps_alt_credit),
        max_ltv_bps_high_balance: narrow_u32(row.max_ltv_bps_high_balance),
        front_end_dti_max_bps: #[verifier::truncate] (row.front_end_dti_max_bps as u32),
        requires_primary_residence: row.requires_primary_residence != 0,
        requires_first_time_buyer: row.requires_first_time_buyer != 0,
        requires_va_entitlement: row.requires_va_entitlement != 0,
        requires_usda_eligibility: row.requires_usda_eligibility != 0,
        requires_ami_income_check: row.requires_ami_income_check != 0,
        effective_date: date_or_default(row.effective_date.as_str()),
    }
}

/// The state HOI rate from its latest stored row (rate and year): the
/// state as asked, uppercased, with the row's columns narrowed to 16 bits.
pub fn state_hoi_from_row(state_abbr: &str, annual_rate_bps: i32, effective_year: i32) -> (r: StateHoiRate)
    ensures
        r.state_abbr@ == uppercase_of(state_abbr@),
        r.annual_rate_bps == annual_rate_bps as u16,
        r.effective_year == effective_year as u16,
{
    StateHoiRate {
        state_abbr: str_to_uppercase(state_abbr),
        annual_rate_bps: #[verifier::truncate] (annual_rate_bps as u16),
        effective_year: #[verifier::truncate] (effective_year as u16),
    }
}

/// A stored ZIP HOI row.
#[derive(Clone, Debug)]
pub struct ZipHoiRow {
    pub state_abbr: String,
    pub annual_rate_bps: i32,
    pub median_annual_premium_cents: Option<i64>,
    pub sample_size: Option<i64>,
    pub effective_year: i32,
}

/// An optional count narrowed to 32 bits.
pub open spec fn opt_count(o: Option<i64>) -> Option<u32> {
    match o {
        Some(v) => Some(v as u32),
        None => None,
    }
}

/// The ZIP HOI rate from its latest stored row: the ZIP as asked, the
/// row's state, amounts and counts, narrowed where the record is narrower.
pub fn zip_hoi_from_row(zip5: &str, row: ZipHoiRow) -> (r: ZipHoiRate)
    ensures
        r.zip5@ == zip5@,
        r.state_abbr@ == row.state_abbr@,
        r.annual_rate_bps == row.annual_rate_bps as u16,
        r.median_annual_premium_cents == opt_cents(row.median_annual_premium_cents),
        r.sample_size == opt_count(row.sample_size),
        r.effective_year == row.effective_year as u16,
{
    let sample_size: Option<u32> = match row.sample_size {
        Some(v) => Some(#[verifier::truncate] (v as u32)),
        None => None,
    };
    ZipHoiRate {
        zip5: zip5.to_owned(),
        state_abbr: row.state_abbr,
        annual_rate_bps: #[verifier::truncate] (row.annual_rate_bps as u16),
        median_annual_premium_cents: to_cents(row.median_annual_premium_cents),
        sample_size,
        effective_year: #[verifier::truncate] (row.effective_year as u16),
    }
}

} // verus!
