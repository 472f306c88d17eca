//! Version identity of reference data, for auditable, reproducible analysis.
//!
//! Every reference data element is identified by its table and effective
//! date; a [`DataVersionManifest`] records which version of each element an
//! analysis used.

use vstd::prelude::*;
use crate::search::keys_distinct;
use vstd::string::*;
use crate::text::{dec_nat, push_dec_u64, two_digits};

verus! {

/// Earliest year of the proleptic Gregorian calendar range dates may take.
pub const MIN_DATE_YEAR: i32 = -262143;

/// Latest year of the proleptic Gregorian calendar range dates may take.
pub const MAX_DATE_YEAR: i32 = 262142;

/// A leap year of the proleptic Gregorian calendar.
pub open spec fn is_leap(y: int) -> bool {
    (y % 4 == 0 && y % 100 != 0) || y % 400 == 0
}

/// The number of days in a month (1–12) of a year.
pub open spec fn days_in_month(y: int, m: int) -> int {
    if m == 2 {
        if is_leap(y) { 29 } else { 28 }
    } else if m == 4 || m == 6 || m == 9 || m == 11 {
        30
    } else {
        31
    }
}

/// The year, month and day name a calendar date in the supported range.
pub open spec fn valid_ymd(y: int, m: int, d: int) -> bool {
    &&& MIN_DATE_YEAR <= y <= MAX_DATE_YEAR
    &&& 1 <= m <= 12
    &&& 1 <= d <= days_in_month(y, m)
}

/// A natural number zero-padded to at least four digits.
pub open spec fn pad4(n: nat) -> Seq<char> {
    if n < 10 {
        "000"@ + dec_nat(n)
    } else if n < 100 {
        "00"@ + dec_nat(n)
    } else if n < 1000 {
        "0"@ + dec_nat(n)
    } else {
        dec_nat(n)
    }
}

/// The `%Y` rendering of a year: four zero-padded digits for 0–9999, else a
/// sign and at least four digits.
pub open spec fn year_text(y: int) -> Seq<char> {
    if 0 <= y <= 9999 {
        pad4(y as nat)
    } else if y < 0 {
        "-"@ + pad4((-y) as nat)
    } else {
        "+"@ + pad4(y as nat)
    }
}

/// The `%Y-%m-%d` rendering of a date.
pub open spec fn ymd_text(y: int, m: nat, d: nat) -> Seq<char> {
    year_text(y) + "-"@ + two_digits(m) + "-"@ + two_digits(d)
}

/// A calendar date (proleptic Gregorian), always valid.
#[derive(Clone, Copy, Debug, PartialEq, Eq, Structural)]
pub struct CalendarDate {
    year: i32,
    month: u32,
    day: u32,
}

impl CalendarDate {
    /// The date is a real calendar day in the supported range.
    #[verifier::type_invariant]
    spec fn well_formed(self) -> bool {
        valid_ymd(self.year as int, self.month as int, self.day as int)
    }

    /// Year of the date.
    pub closed spec fn spec_year(self) -> i32 {
        self.year
    }

    /// Month of the date (1–12).
    pub closed spec fn spec_month(self) -> u32 {
        self.month
    }

    /// Day of the month.
    pub closed spec fn spec_day(self) -> u32 {
        self.day
    }

    /// The date for a year, month and day, or `None` when no such day exists
    /// in the supported range.
    pub fn from_ymd_opt(year: i32, month: u32, day: u32) -> (r: Option<CalendarDate>)
        ensures
            r is Some <==> valid_ymd(year as int, month as int, day as int),
            r matches Some(d) ==> d.spec_year() == year && d.spec_month() == month && d.spec_day()
                == day,
    {
        if year < MIN_DATE_YEAR || year > MAX_DATE_YEAR || month < 1 || month > 12 || day < 1 {
            return None;
        }
        let leap = (year % 4 == 0 && year % 100 != 0) || year % 400 == 0;
        assert(leap == is_leap(year as int)) by {
            assert(year % 4 == 0 <==> (year as int) % 4 == 0);
        }
        let dim: u32 = if month == 2 {
            if leap { 29 } else { 28 }
        } else if month == 4 || month == 6 || month == 9 || month == 11 {
            30
        } else {
            31
        };
        if day > dim {
            return None;
        }
        Some(CalendarDate { year, month, day })
    }

    /// Year of the date.
    pub fn year(&self) -> (y: i32)
        ensures
            y == self.spec_year(),
    {
        self.year
    }

    /// Month of the date (1–12).
    pub fn month(&self) -> (m: u32)
        ensures
            m == self.spec_month(),
    {
        self.month
    }

    /// Day of the month.
    pub fn day(&self) -> (d: u32)
        ensures
            d == self.spec_day(),
            valid_ymd(self.spec_year() as int, self.spec_month() as int, d as int),
    {
        proof {
            use_type_invariant(self);
        }
        self.day
    }

    /// The date as `%Y-%m-%d`, e.g. `2025-01-01`.
    pub fn format_ymd(&self) -> (s: String)
        ensures
            s@ == ymd_text(self.spec_year() as int, self.spec_month() as nat, self.spec_day() as nat),
    {
        proof {
            use_type_invariant(self);
        }
        let mut s = String::new();
        push_year(&mut s, self.year);
        s.append("-");
        crate::text::push_two_digits(&mut s, self.month as u64);
        s.append("-");
        crate::text::push_two_digits(&mut s, self.day as u64);
        assert(s@ =~= ymd_text(self.year as int, self.month as nat, self.day as nat));
        s
    }
}

/// Appends a number zero-padded to at least four digits.
fn push_pad4(s: &mut String, n: u64)
    ensures
        final(s)@ == old(s)@ + pad4(n as nat),
{
    if n < 10 {
        s.append("000");
    } else if n < 100 {
        s.append("00");
    } else if n < 1000 {
        s.append("0");
    }
    push_dec_u64(s, n);
    assert(s@ =~= old(s)@ + pad4(n as nat));
}

/// Appends the `%Y` rendering of a year.
fn push_year(s: &mut String, y: i32)
    ensures
        final(s)@ == old(s)@ + year_text(y as int),
{
    if 0 <= y && y <= 9999 {
        push_pad4(s, y as u64);
    } else if y < 0 {
        s.append("-");
        let m: u64 = ((-(y as i64)) as u64);
        push_pad4(s, m);
    } else {
        s.append("+");
        push_pad4(s, y as u64);
    }
    assert(s@ =~= old(s)@ + year_text(y as int));
}

/// Identifier of one version of a reference data element:
/// `"{table}:{effective_date}"`, e.g. `"fha_loan_limits:2025-01-01"`.
#[derive(Clone, Debug, PartialEq, Eq, Hash)]
pub struct VersionId(pub String);

/// The identifier text of a table at a date.
pub open spec fn version_text(table: Seq<char>, d: CalendarDate) -> Seq<char> {
    table + ":"@ + ymd_text(d.spec_year() as int, d.spec_month() as nat, d.spec_day() as nat)
}

impl VersionId {
    /// The version id of a table at an effective date.
    pub fn new(table: &str, effective_date: CalendarDate) -> (v: VersionId)
        ensures
            v.0@ == version_text(table@, effective_date),
    {
        let mut s = String::new();
        s.append(table);
        s.append(":");
        let d = effective_date.format_ymd();
        s.append(d.as_str());
        VersionId(s)
    }

    /// The raw string identifier.
    pub fn as_str(&self) -> (s: &str)
        ensures
            s@ == self.0@,
    {
        self.0.as_str()
    }
}

/// A piece of reference data paired with its version identity.
#[derive(Clone, Debug)]
pub struct Versioned<T> {
    pub version_id: VersionId,
    pub effective_date: CalendarDate,
    pub data: T,
}

impl<T> Versioned<T> {
    /// Wraps data with the version identity of a table at a date.
    pub fn new(table: &str, effective_date: CalendarDate, data: T) -> (v: Versioned<T>)
        ensures
            v.version_id.0@ == version_text(table@, effective_date),
            v.effective_date == effective_date,
            v.data == data,
    {
        Versioned { version_id: VersionId::new(table, effective_date), effective_date, data }
    }
}

/// An instant: whole seconds since the Unix epoch and the nanoseconds past
/// that second.
#[derive(Clone, Copy, Debug, PartialEq, Eq, Structural)]
pub struct Timestamp {
    pub seconds: i64,
    pub nanos: u32,
}

/// `chrono::Utc::now()`, as seconds since the epoch and nanoseconds past
/// the second. The clock's reading is not stated.
#[verifier::external_body]
fn utc_now() -> Timestamp {
    let now = chrono::Utc::now();
    Timestamp { seconds: now.timestamp(), nanos: now.timestamp_subsec_nanos() }
}

/// The exact version of every reference data element one loan analysis
/// used, stored with the analysis for audit and replay.
#[derive(Clone, Debug)]
pub struct DataVersionManifest {
    /// Engine git commit SHA at analysis time.
    pub engine_sha: Option<String>,
    pub fha_loan_limits: Option<VersionId>,
    pub gse_loan_limits: Option<VersionId>,
    pub usda_rural_eligibility: Option<VersionId>,
    pub usda_income_limits: Option<VersionId>,
    pub ami_tract_data: Option<VersionId>,
    pub fha_mip_rates: Option<VersionId>,
    pub va_funding_fees: Option<VersionId>,
    pub mi_coverage_reqs: Option<VersionId>,
    /// LLPA matrix versions, by lender id.
    pub llpa_matrices: Vec<(String, VersionId)>,
    /// MI provider rate card versions, by provider id.
    pub mi_rate_cards: Vec<(String, VersionId)>,
    /// Rate sheet versions, by lender id.
    pub rate_sheets: Vec<(String, VersionId)>,
    /// When the manifest was created (analysis run time).
    pub created_at: Option<Timestamp>,
}

/// Each keyed list of the manifest (LLPA matrices, MI rate cards, rate
/// sheets) holds a key at most once, as the maps they stand for.
pub open spec fn manifest_keys_distinct(m: DataVersionManifest) -> bool {
    &&& keys_distinct(m.llpa_matrices@)
    &&& keys_distinct(m.mi_rate_cards@)
    &&& keys_distinct(m.rate_sheets@)
}

/// The manifest records every version the program needs: the base tables
/// always, the USDA tables for USDA loans, the VA fee table for VA loans.
pub open spec fn complete_for(m: DataVersionManifest, is_usda: bool, is_va: bool) -> bool {
    &&& m.fha_loan_limits is Some
    &&& m.gse_loan_limits is Some
    &&& m.ami_tract_data is Some
    &&& m.fha_mip_rates is Some
    &&& m.mi_coverage_reqs is Some
    &&& (is_usda ==> m.usda_rural_eligibility is Some && m.usda_income_limits is Some)
    &&& (is_va ==> m.va_funding_fees is Some)
}

impl DataVersionManifest {
    /// An empty manifest stamped with the current time.
    pub fn new() -> (m: DataVersionManifest)
        ensures
            m.engine_sha is None,
            m.fha_loan_limits is None,
            m.gse_loan_limits is None,
            m.usda_rural_eligibility is None,
            m.usda_income_limits is None,
            m.ami_tract_data is None,
            m.fha_mip_rates is None,
            m.va_funding_fees is None,
            m.mi_coverage_reqs is None,
            m.llpa_matrices@.len() == 0,
            m.mi_rate_cards@.len() == 0,
            m.rate_sheets@.len() == 0,
            manifest_keys_distinct(m),
            m.created_at is Some,
    {
        DataVersionManifest {
            engine_sha: None,
            fha_loan_limits: None,
            gse_loan_limits: None,
            usda_rural_eligibility: None,
            usda_income_limits: None,
            ami_tract_data: None,
            fha_mip_rates: None,
            va_funding_fees: None,
            mi_coverage_reqs: None,
            llpa_matrices: Vec::new(),
            mi_rate_cards: Vec::new(),
            rate_sheets: Vec::new(),
            created_at: Some(utc_now()),
        }
    }

    /// True if every version the program needs is recorded.
    pub fn is_complete_for_program(&self, is_usda: bool, is_va: bool) -> (b: bool)
        ensures
            b == complete_for(*self, is_usda, is_va),
    {
        let base = self.fha_loan_limits.is_some() && self.gse_loan_limits.is_some()
            && self.ami_tract_data.is_some() && self.fha_mip_rates.is_some()
            && self.mi_coverage_reqs.is_some();
        let usda_ok = !is_usda || (self.usda_rural_eligibility.is_some()
            && self.usda_income_limits.is_some());
        let va_ok = !is_va || self.va_funding_fees.is_some();
        base && usda_ok && va_ok
    }
}

/// Asking for more programs only adds requirements: a manifest complete for
/// USDA or VA loans is complete for the base programs too.
pub proof fn lemma_completeness_monotone(m: DataVersionManifest, is_usda: bool, is_va: bool)
    ensures
        complete_for(m, is_usda, is_va) ==> complete_for(m, false, false),
        complete_for(m, true, true) ==> complete_for(m, is_usda, is_va),
{
}

} // verus!
