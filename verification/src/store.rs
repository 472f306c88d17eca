//! The decisions of the reference-data store: which versioned file serves a
//! requested year, and how the records read from it become answers.
//!
//! Versioned files are named `{prefix}_{year}.json`; a request for a year is
//! served by the latest file whose year is not after it. Reading directories
//! and files is left to the caller, which hands over file names and parsed
//! records.

use vstd::prelude::*;
use vstd::string::*;
use crate::cbsa::CbsaDesignation;
use crate::error::{RefDataError, RefDataResult};
use crate::geo::{
    AmiTractData, FhaLimitType, FhaLoanLimits, GeoEligibility, GseLoanLimits, UsdaIncomeLimit,
    UsdaruralEligibility,
};
use crate::conv_mi::{
    annual_bps_of, coverage_lookup_of, ConvMiCoverage, ConvMiCoverageTable, ConvMiInput,
    ConvMiProgram, MiMonthlyTable, MiRateInput,
};
use crate::fha_mip::{mip_lookup_of, FhaMipInput, FhaMipResult, FhaMipTable};
use crate::hoi_rates::StateHoiRate;
use crate::va_fee::{va_fee_of, VaFeeInput, VaFeeTable};
use crate::money::{Cents, ProgramCode};
use crate::search::{first_where, lemma_first_where_hit, lemma_first_where_none};
use crate::text::{bool_str, bool_text, dec_int, dec_nat, push_dec_i64, push_dec_u64, str_eq, str_eq_ignore_ascii_case, eq_ignore_case};
use crate::versioning::{version_text, CalendarDate, Versioned};

verus! {

/// `std::path::PathBuf`, the store's data directory.
#[verifier::external_type_specification]
#[verifier::external_body]
pub struct ExPathBuf(std::path::PathBuf);

/// JSON-file-backed store for development and CI.
#[derive(Debug)]
pub struct JsonFileStore {
    pub data_dir: std::path::PathBuf,
}

impl JsonFileStore {
    /// A store reading the files of a data directory.
    pub fn new(data_dir: std::path::PathBuf) -> (s: JsonFileStore)
        ensures
            s.data_dir == data_dir,
    {
        JsonFileStore { data_dir }
    }
}

// ── Numbers in file names ───────────────────────────────────────────────────

/// The character is an ASCII decimal digit.
pub open spec fn is_digit(c: char) -> bool {
    '0' <= c && c <= '9'
}

/// The value of a string of decimal digits.
pub open spec fn digits_value(s: Seq<char>) -> int
    decreases s.len(),
{
    if s.len() == 0 {
        0
    } else {
        digits_value(s.drop_last()) * 10 + (s.last() as int - '0' as int)
    }
}

/// The string is one or more decimal digits.
pub open spec fn all_digits(s: Seq<char>) -> bool {
    s.len() > 0 && forall|i: int| 0 <= i < s.len() ==> is_digit(#[trigger] s[i])
}

/// The `u16` a string parses to, the way `str::parse::<u16>` reads it: an
/// optional `+`, then one or more digits, of value at most 65535.
pub open spec fn parse_u16_spec(s: Seq<char>) -> Option<u16> {
    let digits = if s.len() > 0 && s[0] == '+' { s.drop_first() } else { s };
    if all_digits(digits) && digits_value(digits) <= 65535 {
        Some(digits_value(digits) as u16)
    } else {
        None
    }
}

/// Digit values never decrease as digits are appended.
proof fn lemma_digits_value_nonneg(s: Seq<char>)
    requires
        forall|i: int| 0 <= i < s.len() ==> is_digit(#[trigger] s[i]),
    ensures
        digits_value(s) >= 0,
    decreases s.len(),
{
    if s.len() > 0 {
        assert forall|i: int| 0 <= i < s.drop_last().len() implies is_digit(#[trigger] s.drop_last()[i]) by {
            assert(s.drop_last()[i] == s[i]);
        }
        lemma_digits_value_nonneg(s.drop_last());
        assert(is_digit(s[s.len() - 1]));
    }
}

/// Parses a `u16` the way `str::parse::<u16>` does.
pub fn parse_u16(s: &str) -> (r: Option<u16>)
    ensures
        r == parse_u16_spec(s@),
{
    let n = s.unicode_len();
    let mut start: usize = 0;
    if n > 0 && s.get_char(0) == '+' {
        start = 1;
    }
    let ghost digits = if s@.len() > 0 && s@[0] == '+' { s@.drop_first() } else { s@ };
    assert(digits =~= s@.subrange(start as int, n as int));
    assert(parse_u16_spec(s@) == (if all_digits(digits) && digits_value(digits) <= 65535 {
        Some(digits_value(digits) as u16)
    } else {
        None
    }));
    if start >= n {
        return None;
    }
    let mut value: u32 = 0;
    let mut i: usize = start;
    while i < n
        invariant
            start <= i <= n,
            n == s@.len(),
            start < n,
            digits == s@.subrange(start as int, n as int),
            forall|j: int| start <= j < i ==> is_digit(#[trigger] s@[j]),
            value == digits_value(s@.subrange(start as int, i as int)),
            value <= 65535,
            parse_u16_spec(s@) == (if all_digits(digits) && digits_value(digits) <= 65535 {
                Some(digits_value(digits) as u16)
            } else {
                None
            }),
        decreases n - i,
    {
        let c = s.get_char(i);
        proof {
            assert(digits[i - start] == s@[i as int]);
        }
        if !('0' <= c && c <= '9') {
            proof {
                assert(!all_digits(digits));
            }
            return None;
        }
        proof {
            assert(s@.subrange(start as int, i + 1).drop_last() =~= s@.subrange(start as int, i as int));
        }
        let d: u32 = (c as u32) - ('0' as u32);
        assert(s@.subrange(start as int, i + 1).last() == c);
        let next: u32 = value * 10 + d;
        if next > 65535 {
            proof {
                let k = i - start + 1;
                assert(digits.take(k) =~= s@.subrange(start as int, i + 1));
                assert(s@.subrange(start as int, i + 1).last() == c);
                assert forall|j: int| 0 <= j < k implies is_digit(#[trigger] digits[j]) by {
                    assert(digits[j] == s@[start + j]);
                }
                lemma_digits_prefix_bound(digits, k);
                assert(parse_u16_spec(s@) is None);
            }
            return None;
        }
        value = next;
        i = i + 1;
    }
    proof {
        assert(s@.subrange(start as int, n as int) =~= digits);
        assert forall|j: int| 0 <= j < digits.len() implies is_digit(#[trigger] digits[j]) by {
            assert(digits[j] == s@[start + j]);
        }
    }
    Some(value as u16)
}

/// When a prefix of a digit string already exceeds 65535, so does the
/// whole string, or the string is not all digits.
proof fn lemma_digits_prefix_bound(s: Seq<char>, k: int)
    requires
        0 < k <= s.len(),
        digits_value(s.take(k)) > 65535,
        forall|i: int| 0 <= i < k ==> is_digit(#[trigger] s[i]),
    ensures
        !(all_digits(s) && digits_value(s) <= 65535),
    decreases s.len() - k,
{
    if k == s.len() {
        assert(s.take(k) =~= s);
    } else if all_digits(s) {
        assert(s.take(k + 1).drop_last() =~= s.take(k));
        assert(is_digit(s[k]));
        assert(s.take(k + 1).last() == s[k]);
        assert(digits_value(s.take(k + 1)) >= digits_value(s.take(k)) * 10);
        lemma_digits_prefix_bound(s, k + 1);
    }
}

// ── Versioned file names ────────────────────────────────────────────────────

/// The year of a versioned file name `{prefix}_{year}.json`, if it is one.
pub open spec fn file_year(name: Seq<char>, prefix: Seq<char>) -> Option<u16> {
    let head = prefix + "_"@;
    if name.len() >= head.len() + 5 && name.subrange(0, head.len() as int) == head && name.subrange(
        name.len() - 5,
        name.len() as int,
    ) == ".json"@ {
        parse_u16_spec(name.subrange(head.len() as int, name.len() - 5))
    } else {
        None
    }
}

/// The years of the versioned files among `names`, in order.
pub open spec fn years_of(names: Seq<String>, prefix: Seq<char>) -> Seq<u16>
    decreases names.len(),
{
    if names.len() == 0 {
        Seq::empty()
    } else {
        let prev = years_of(names.drop_last(), prefix);
        match file_year(names.last()@, prefix) {
            Some(y) => prev.push(y),
            None => prev,
        }
    }
}

/// The largest of `years` that is at most `bound`, if any.
pub open spec fn best_year_of(years: Seq<u16>, bound: int) -> Option<u16>
    decreases years.len(),
{
    if years.len() == 0 {
        None
    } else {
        let prev = best_year_of(years.drop_last(), bound);
        let y = years.last();
        if y <= bound && (prev is None || y > prev->0) {
            Some(y)
        } else {
            prev
        }
    }
}

/// The best year is one of the years, within the bound, and no year within
/// the bound exceeds it; there is none only when no year is within it.
pub proof fn lemma_best_year(years: Seq<u16>, bound: int)
    ensures
        best_year_of(years, bound) matches Some(b) ==> years.contains(b) && b <= bound && forall|i: int|
            0 <= i < years.len() && years[i] <= bound ==> years[i] <= b,
        best_year_of(years, bound) is None ==> forall|i: int| 0 <= i < years.len() ==> years[i] > bound,
    decreases years.len(),
{
    if years.len() > 0 {
        let p = years.drop_last();
        lemma_best_year(p, bound);
        assert forall|i: int| 0 <= i < p.len() implies p[i] == years[i] by {}
        if best_year_of(years, bound) != best_year_of(p, bound) {
            assert(years[years.len() - 1] == years.last());
        } else {
            match best_year_of(p, bound) {
                Some(b) => {
                    let k = choose|k: int| 0 <= k < p.len() && p[k] == b;
                    assert(years[k] == b);
                },
                None => {},
            }
        }
    }
}

/// The name of the `i`-th character test: a prefix match.
fn has_prefix(name: &str, head: &str) -> (b: bool)
    ensures
        b == (name@.len() >= head@.len() && name@.subrange(0, head@.len() as int) == head@),
{
    let n = name.unicode_len();
    let h = head.unicode_len();
    if n < h {
        return false;
    }
    let mut i: usize = 0;
    while i < h
        invariant
            0 <= i <= h,
            h <= n,
            n == name@.len(),
            h == head@.len(),
            forall|j: int| 0 <= j < i ==> name@[j] == head@[j],
        decreases h - i,
    {
        if name.get_char(i) != head.get_char(i) {
            assert(name@.subrange(0, h as int)[i as int] != head@[i as int]);
            return false;
        }
        i = i + 1;
    }
    assert(name@.subrange(0, h as int) =~= head@);
    true
}

/// The year of a versioned file name `{prefix}_{year}.json`, if it is one.
pub fn versioned_file_year(name: &str, prefix: &str) -> (r: Option<u16>)
    ensures
        r == file_year(name@, prefix@),
{
    let mut head = String::new();
    head.append(prefix);
    head.append("_");
    let n = name.unicode_len();
    let h = head.as_str().unicode_len();
    if n < 5 || n - 5 < h {
        return None;
    }
    if !has_prefix(name, head.as_str()) {
        return None;
    }
    let tail = name.substring_char(n - 5, n);
    if !str_eq(tail, ".json") {
        return None;
    }
    let middle = name.substring_char(h, n - 5);
    parse_u16(middle)
}

/// The years of the versioned files among `names`, in order.
pub fn find_years(names: &Vec<String>, prefix: &str) -> (v: Vec<u16>)
    ensures
        v@ == years_of(names@, prefix@),
{
    let mut v: Vec<u16> = Vec::new();
    let mut i: usize = 0;
    while i < names.len()
        invariant
            0 <= i <= names@.len(),
            v@ == years_of(names@.take(i as int), prefix@),
        decreases names@.len() - i,
    {
        proof {
            assert(names@.take(i + 1).drop_last() =~= names@.take(i as int));
        }
        match versioned_file_year(names[i].as_str(), prefix) {
            Some(y) => v.push(y),
            None => {},
        }
        i = i + 1;
    }
    assert(names@.take(i as int) =~= names@);
    v
}

/// The largest of `years` that is at most `bound`.
fn best_of(years: &Vec<u16>, bound: u32) -> (r: Option<u16>)
    ensures
        r == best_year_of(years@, bound as int),
{
    let mut best: Option<u16> = None;
    let mut i: usize = 0;
    while i < years.len()
        invariant
            0 <= i <= years@.len(),
            best == best_year_of(years@.take(i as int), bound as int),
        decreases years@.len() - i,
    {
        proof {
            assert(years@.take(i + 1).drop_last() =~= years@.take(i as int));
        }
        let y = years[i];
        if (y as u32) <= bound {
            match best {
                None => {
                    best = Some(y);
                },
                Some(b) => {
                    if y > b {
                        best = Some(y);
                    }
                },
            }
        }
        i = i + 1;
    }
    assert(years@.take(i as int) =~= years@);
    best
}

/// The year of the latest versioned file not after `year`.
pub fn resolve_year(names: &Vec<String>, prefix: &str, year: u16) -> (r: Option<u16>)
    ensures
        r == best_year_of(years_of(names@, prefix@), year as int),
{
    let years = find_years(names, prefix);
    best_of(&years, year as u32)
}

/// The year of the latest versioned file.
pub fn latest_year(names: &Vec<String>, prefix: &str) -> (r: Option<u16>)
    ensures
        r == best_year_of(years_of(names@, prefix@), 65535),
{
    let years = find_years(names, prefix);
    best_of(&years, 65535)
}

/// The versioned file name for a year: `{prefix}_{year}.json`.
pub fn versioned_file_name(prefix: &str, year: u16) -> (s: String)
    ensures
        s@ == prefix@ + "_"@ + dec_nat(year as nat) + ".json"@,
{
    let mut s = String::new();
    s.append(prefix);
    s.append("_");
    push_dec_u64(&mut s, year as u64);
    s.append(".json");
    s
}

/// The error when no versioned file serves a year.
pub fn no_file_error(prefix: &str, year: u16) -> (e: RefDataError)
    ensures
        e matches RefDataError::Storage(m) && m@ == "no "@ + prefix@ + " file found for year ≤ "@
            + dec_nat(year as nat),
{
    let mut m = String::new();
    m.append("no ");
    m.append(prefix);
    m.append(" file found for year ≤ ");
    push_dec_u64(&mut m, year as u64);
    RefDataError::Storage(m)
}

/// The year of the latest versioned file not after `year`, or the storage
/// error naming the prefix and year.
pub fn resolve_year_or_error(names: &Vec<String>, prefix: &str, year: u16) -> (r: RefDataResult<u16>)
    ensures
        match r {
            Ok(y) => best_year_of(years_of(names@, prefix@), year as int) == Some(y),
            Err(e) => best_year_of(years_of(names@, prefix@), year as int) is None && (e matches RefDataError::Storage(
                m,
            ) && m@ == "no "@ + prefix@ + " file found for year ≤ "@ + dec_nat(year as nat)),
        },
{
    match resolve_year(names, prefix, year) {
        Some(y) => Ok(y),
        None => Err(no_file_error(prefix, year)),
    }
}

/// The year of a ZIP HOI file name: a name starting `zip_hoi_rates_` and
/// ending `.json`, with every trailing `.json` removed, read after its last
/// `_`.
pub open spec fn zip_file_year(name: Seq<char>) -> Option<u16> {
    if name.len() >= 14 && name.subrange(0, 14) == "zip_hoi_rates_"@ && name.len() >= 5
        && name.subrange(name.len() - 5, name.len() as int) == ".json"@ {
        parse_u16_spec(after_last_underscore(trim_json(name)))
    } else {
        None
    }
}

/// The string with every trailing `.json` removed.
pub open spec fn trim_json(s: Seq<char>) -> Seq<char>
    decreases s.len(),
{
    if s.len() >= 5 && s.subrange(s.len() - 5, s.len() as int) == ".json"@ {
        trim_json(s.subrange(0, s.len() - 5))
    } else {
        s
    }
}

/// The part of the string after its last `_` (all of it when it has none).
pub open spec fn after_last_underscore(s: Seq<char>) -> Seq<char>
    decreases s.len(),
{
    if s.len() == 0 {
        s
    } else if s.last() == '_' {
        Seq::empty()
    } else {
        after_last_underscore(s.drop_last()).push(s.last())
    }
}

/// The year of a ZIP HOI file name, if it is one.
pub fn zip_hoi_file_year(name: &str) -> (r: Option<u16>)
    ensures
        r == zip_file_year(name@),
{
    let n = name.unicode_len();
    if n < 14 || !has_prefix(name, "zip_hoi_rates_") {
        proof {
            reveal_strlit("zip_hoi_rates_");
        }
        return None;
    }
    proof {
        reveal_strlit("zip_hoi_rates_");
    }
    if !str_eq(name.substring_char(n - 5, n), ".json") {
        return None;
    }
    let mut end: usize = n;
    assert(name@.subrange(0, n as int) =~= name@);
    while end >= 5 && str_eq(name.substring_char(end - 5, end), ".json")
        invariant
            end <= n,
            n == name@.len(),
            trim_json(name@.subrange(0, end as int)) == trim_json(name@),
        decreases end,
    {
        proof {
            assert(name@.subrange(0, end as int).subrange(end - 5, end as int) =~= name@.subrange(
                end - 5,
                end as int,
            ));
            assert(name@.subrange(0, end as int).subrange(0, end - 5) =~= name@.subrange(0, end - 5));
        }
        end = end - 5;
    }
    proof {
        assert(name@.subrange(0, n as int) =~= name@);
        if end >= 5 {
            assert(name@.subrange(0, end as int).subrange(end - 5, end as int) =~= name@.subrange(
                end - 5,
                end as int,
            ));
        }
    }
    let mut start: usize = end;
    while start > 0 && name.get_char(start - 1) != '_'
        invariant
            start <= end <= n,
            n == name@.len(),
            after_last_underscore(name@.subrange(0, end as int)) == after_last_underscore(
                name@.subrange(0, start as int),
            ) + name@.subrange(start as int, end as int),
        decreases start,
    {
        proof {
            let p = name@.subrange(0, start as int);
            assert(p.drop_last() =~= name@.subrange(0, start - 1));
            assert(p.last() == name@[start - 1]);
            assert(name@.subrange(start - 1, end as int) =~= seq![name@[start - 1]] + name@.subrange(
                start as int,
                end as int,
            ));
        }
        start = start - 1;
    }
    proof {
        let p = name@.subrange(0, start as int);
        if start > 0 {
            assert(p.last() == name@[start - 1]);
        }
        assert(after_last_underscore(p) + name@.subrange(start as int, end as int) =~= name@.subrange(
            start as int,
            end as int,
        ));
    }
    parse_u16(name.substring_char(start, end))
}

/// A rate-sheet file: a name starting `rate_sheet_` and ending `.json`.
pub fn is_rate_sheet_file(name: &str) -> (b: bool)
    ensures
        b == (name@.len() >= 11 && name@.subrange(0, 11) == "rate_sheet_"@ && name@.len() >= 5
            && name@.subrange(name@.len() - 5, name@.len() as int) == ".json"@),
{
    proof {
        reveal_strlit("rate_sheet_");
    }
    let n = name.unicode_len();
    if !has_prefix(name, "rate_sheet_") || n < 5 {
        return false;
    }
    str_eq(name.substring_char(n - 5, n), ".json")
}

/// Whether a ZIP HOI file should replace the best one seen so far while
/// scanning a directory: it is one, its year is not after the requested
/// year, and it is strictly later than the best so far. Gives that year.
pub fn zip_hoi_candidate(name: &str, year: u16, best: Option<u16>) -> (r: Option<u16>)
    ensures
        r == (match zip_file_year(name@) {
            Some(y) => if y <= year && (match best { Some(b) => y > b, None => true }) {
                Some(y)
            } else {
                None
            },
            None => None,
        }),
{
    match zip_hoi_file_year(name) {
        Some(y) => {
            if y <= year {
                match best {
                    Some(b) => if y > b { Some(y) } else { None },
                    None => Some(y),
                }
            } else {
                None
            }
        },
        None => None,
    }
}

// ── Records to answers ──────────────────────────────────────────────────────

/// January 1st of a year.
pub fn jan_1(year: u16) -> (d: CalendarDate)
    ensures
        d.spec_year() == year as i32,
        d.spec_month() == 1,
        d.spec_day() == 1,
{
    match CalendarDate::from_ymd_opt(year as i32, 1, 1) {
        Some(d) => d,
        None => {
            assert(false);
            CalendarDate::from_ymd_opt(1970, 1, 1).unwrap()
        },
    }
}

/// October 1st of a year.
pub fn oct_1(year: u16) -> (d: CalendarDate)
    ensures
        d.spec_year() == year as i32,
        d.spec_month() == 10,
        d.spec_day() == 1,
{
    match CalendarDate::from_ymd_opt(year as i32, 10, 1) {
        Some(d) => d,
        None => {
            assert(false);
            CalendarDate::from_ymd_opt(1970, 1, 1).unwrap()
        },
    }
}

/// The record's FIPS code is the one asked for.
pub open spec fn fips_is_fha(r: FhaLoanLimits, fips: Seq<char>) -> bool {
    r.fips_code@ == fips
}

/// The FHA limits of a county from the records of the year's file, dated
/// January 1st of that year; `NotFound` when the county is missing.
pub fn select_fha_limits(records: Vec<FhaLoanLimits>, fips_code: &str, found_year: u16) -> (r: RefDataResult<
    Versioned<FhaLoanLimits>,
>)
    ensures
        match r {
            Ok(v) => first_where(records@, |x: FhaLoanLimits| x.fips_code@ == fips_code@) == Some(v.data)
                && v.version_id.0@ == version_text("fha_loan_limits"@, v.effective_date)
                && v.effective_date.spec_year() == found_year as i32 && v.effective_date.spec_month() == 1
                && v.effective_date.spec_day() == 1,
            Err(e) => first_where(records@, |x: FhaLoanLimits| x.fips_code@ == fips_code@) is None && (e matches RefDataError::NotFound {
                data_type,
                fips,
                year,
            } && data_type@ == "FhaLoanLimits"@ && fips@ == fips_code@ && year == found_year),
        },
{
    let ghost pred = |x: FhaLoanLimits| x.fips_code@ == fips_code@;
    let mut recs = records;
    let mut i: usize = 0;
    while i < recs.len()
        invariant
            0 <= i <= recs@.len(),
            recs@ == records@,
            pred == (|x: FhaLoanLimits| x.fips_code@ == fips_code@),
            forall|j: int| 0 <= j < i ==> !pred(#[trigger] recs@[j]),
        decreases recs@.len() - i,
    {
        if str_eq(recs[i].fips_code.as_str(), fips_code) {
            proof {
                lemma_first_where_hit(recs@, pred, i as int);
            }
            let data = recs.remove(i);
            return Ok(Versioned::new("fha_loan_limits", jan_1(found_year), data));
        }
        i = i + 1;
    }
    proof {
        lemma_first_where_none(recs@, pred);
    }
    Err(
        RefDataError::NotFound {
            data_type: "FhaLoanLimits",
            fips: fips_code.to_owned(),
            year: found_year,
        },
    )
}

/// The conforming (GSE) limits of a county from the records of the year's file, dated
/// January 1st of that year; `NotFound` when the county is missing.
pub fn select_gse_limits(records: Vec<GseLoanLimits>, fips_code: &str, found_year: u16) -> (r: RefDataResult<
    Versioned<GseLoanLimits>,
>)
    ensures
        match r {
            Ok(v) => first_where(records@, |x: GseLoanLimits| x.fips_code@ == fips_code@) == Some(v.data)
                && v.version_id.0@ == version_text("gse_loan_limits"@, v.effective_date)
                && v.effective_date.spec_year() == found_year as i32 && v.effective_date.spec_month() == 1
                && v.effective_date.spec_day() == 1,
            Err(e) => first_where(records@, |x: GseLoanLimits| x.fips_code@ == fips_code@) is None && (e matches RefDataError::NotFound {
                data_type,
                fips,
                year,
            } && data_type@ == "GseLoanLimits"@ && fips@ == fips_code@ && year == found_year),
        },
{
    let ghost pred = |x: GseLoanLimits| x.fips_code@ == fips_code@;
    let mut recs = records;
    let mut i: usize = 0;
    while i < recs.len()
        invariant
            0 <= i <= recs@.len(),
            recs@ == records@,
            pred == (|x: GseLoanLimits| x.fips_code@ == fips_code@),
            forall|j: int| 0 <= j < i ==> !pred(#[trigger] recs@[j]),
        decreases recs@.len() - i,
    {
        if str_eq(recs[i].fips_code.as_str(), fips_code) {
            proof {
                lemma_first_where_hit(recs@, pred, i as int);
            }
            let data = recs.remove(i);
            return Ok(Versioned::new("gse_loan_limits", jan_1(found_year), data));
        }
        i = i + 1;
    }
    proof {
        lemma_first_where_none(recs@, pred);
    }
    Err(
        RefDataError::NotFound {
            data_type: "GseLoanLimits",
            fips: fips_code.to_owned(),
            year: found_year,
        },
    )
}

/// The USDA income limits of a county from the records of the year's file, dated
/// October 1st of that year; `NotFound` when the county is missing.
pub fn select_usda_income_limit(records: Vec<UsdaIncomeLimit>, fips_code: &str, found_year: u16) -> (r: RefDataResult<
    Versioned<UsdaIncomeLimit>,
>)
    ensures
        match r {
            Ok(v) => first_where(records@, |x: UsdaIncomeLimit| x.fips_code@ == fips_code@) == Some(v.data)
                && v.version_id.0@ == version_text("usda_income_limits"@, v.effective_date)
                && v.effective_date.spec_year() == found_year as i32 && v.effective_date.spec_month() == 10
                && v.effective_date.spec_day() == 1,
            Err(e) => first_where(records@, |x: UsdaIncomeLimit| x.fips_code@ == fips_code@) is None && (e matches RefDataError::NotFound {
                data_type,
                fips,
                year,
            } && data_type@ == "UsdaIncomeLimit"@ && fips@ == fips_code@ && year == found_year),
        },
{
    let ghost pred = |x: UsdaIncomeLimit| x.fips_code@ == fips_code@;
    let mut recs = records;
    let mut i: usize = 0;
    while i < recs.len()
        invariant
            0 <= i <= recs@.len(),
            recs@ == records@,
            pred == (|x: UsdaIncomeLimit| x.fips_code@ == fips_code@),
            forall|j: int| 0 <= j < i ==> !pred(#[trigger] recs@[j]),
        decreases recs@.len() - i,
    {
        if str_eq(recs[i].fips_code.as_str(), fips_code) {
            proof {
                lemma_first_where_hit(recs@, pred, i as int);
            }
            let data = recs.remove(i);
            return Ok(Versioned::new("usda_income_limits", oct_1(found_year), data));
        }
        i = i + 1;
    }
    proof {
        lemma_first_where_none(recs@, pred);
    }
    Err(
        RefDataError::NotFound {
            data_type: "UsdaIncomeLimit",
            fips: fips_code.to_owned(),
            year: found_year,
        },
    )
}

/// The AMI data of a tract from the records of the year's file, dated
/// January 1st of that year; `None` when the tract is missing.
pub fn select_ami_data(records: Vec<AmiTractData>, geoid: &str, found_year: u16) -> (r: Option<
    Versioned<AmiTractData>,
>)
    ensures
        match r {
            Some(v) => first_where(records@, |x: AmiTractData| x.geoid@ == geoid@) == Some(v.data)
                && v.version_id.0@ == version_text("ami_tract_data"@, v.effective_date)
                && v.effective_date.spec_year() == found_year as i32 && v.effective_date.spec_month() == 1
                && v.effective_date.spec_day() == 1,
            None => first_where(records@, |x: AmiTractData| x.geoid@ == geoid@) is None,
        },
{
    let ghost pred = |x: AmiTractData| x.geoid@ == geoid@;
    let mut recs = records;
    let mut i: usize = 0;
    while i < recs.len()
        invariant
            0 <= i <= recs@.len(),
            recs@ == records@,
            pred == (|x: AmiTractData| x.geoid@ == geoid@),
            forall|j: int| 0 <= j < i ==> !pred(#[trigger] recs@[j]),
        decreases recs@.len() - i,
    {
        if str_eq(recs[i].geoid.as_str(), geoid) {
            proof {
                lemma_first_where_hit(recs@, pred, i as int);
            }
            let data = recs.remove(i);
            return Some(Versioned::new("ami_tract_data", jan_1(found_year), data));
        }
        i = i + 1;
    }
    proof {
        lemma_first_where_none(recs@, pred);
    }
    None
}

/// The first state rate whose abbreviation matches up to ASCII case, or
/// `NotFound` naming the state and the requested year.
pub fn select_state_hoi(records: Vec<StateHoiRate>, state_abbr: &str, year: u16) -> (r: RefDataResult<
    StateHoiRate,
>)
    ensures
        match r {
            Ok(v) => first_where(records@, |x: StateHoiRate| eq_ignore_case(x.state_abbr@, state_abbr@))
                == Some(v),
            Err(e) => first_where(records@, |x: StateHoiRate| eq_ignore_case(x.state_abbr@, state_abbr@))
                is None && (e matches RefDataError::NotFound { data_type, fips, year: y }
                && data_type@ == "StateHoiRate"@ && fips@ == state_abbr@ && y == year),
        },
{
    let ghost pred = |x: StateHoiRate| eq_ignore_case(x.state_abbr@, state_abbr@);
    let mut recs = records;
    let mut i: usize = 0;
    while i < recs.len()
        invariant
            0 <= i <= recs@.len(),
            recs@ == records@,
            pred == (|x: StateHoiRate| eq_ignore_case(x.state_abbr@, state_abbr@)),
            forall|j: int| 0 <= j < i ==> !pred(#[trigger] recs@[j]),
        decreases recs@.len() - i,
    {
        if str_eq_ignore_ascii_case(recs[i].state_abbr.as_str(), state_abbr) {
            proof {
                lemma_first_where_hit(recs@, pred, i as int);
            }
            return Ok(recs.remove(i));
        }
        i = i + 1;
    }
    proof {
        lemma_first_where_none(recs@, pred);
    }
    Err(RefDataError::NotFound { data_type: "StateHoiRate", fips: state_abbr.to_owned(), year })
}

/// The USDA rural eligibility of a tract, if known: SFH, MFH and the share
/// of area (hundredths of a percent).
pub open spec fn usda_parts(r: Option<UsdaruralEligibility>) -> (bool, bool, Option<u32>) {
    match r {
        Some(e) => (e.is_sfh_eligible, e.is_mfh_eligible, e.pct_eligible_bps),
        None => (false, false, None),
    }
}

/// The eight USDA income limits of the year's record, or zeros without one.
pub open spec fn income_limits_of(u: Option<UsdaIncomeLimit>) -> Seq<Cents> {
    match u {
        Some(l) => l.limits(),
        None => Seq::new(8, |i: int| Cents(0)),
    }
}

/// The assembled eligibility record is the county's limits, the tract's
/// USDA and AMI data (or their absence), and the year.
pub open spec fn geo_assembled(
    g: GeoEligibility,
    fips_code: Seq<char>,
    tract: Option<Seq<char>>,
    year: u16,
    fha: FhaLoanLimits,
    gse: GseLoanLimits,
    usda: Option<UsdaruralEligibility>,
    income: Option<UsdaIncomeLimit>,
    ami: Option<AmiTractData>,
) -> bool {
    &&& g.fips_code@ == fips_code
    &&& (match g.tract_geoid { Some(t) => tract == Some(t@), None => tract is None })
    &&& g.effective_year == year
    &&& g.fha_limit_1_unit == fha.limit_1_unit && g.fha_limit_2_unit == fha.limit_2_unit
    &&& g.fha_limit_3_unit == fha.limit_3_unit && g.fha_limit_4_unit == fha.limit_4_unit
    &&& g.fha_limit_type == fha.limit_type
    &&& g.gse_limit_1_unit == gse.limit_1_unit && g.gse_limit_2_unit == gse.limit_2_unit
    &&& g.gse_limit_3_unit == gse.limit_3_unit && g.gse_limit_4_unit == gse.limit_4_unit
    &&& g.gse_is_high_cost == gse.is_high_cost
    &&& (g.usda_sfh_eligible, g.usda_mfh_eligible, g.usda_pct_eligible_bps) == usda_parts(usda)
    &&& g.usda_income_limits@ == income_limits_of(income)
    &&& g.ami_100pct == (match ami { Some(a) => a.ami_100pct, None => None })
    &&& g.ami_50pct == (match ami { Some(a) => a.ami_50pct, None => None })
    &&& g.ami_80pct == (match ami { Some(a) => a.ami_80pct, None => None })
    &&& g.ami_115pct == (match ami { Some(a) => a.ami_115pct, None => None })
    &&& g.is_low_income_tract == (match ami { Some(a) => a.is_low_income_tract, None => false })
    &&& g.hp_income_limit_waived == (match ami { Some(a) => a.hp_income_limit_waived, None => false })
}

/// Tract-level data counts only for a known tract: without a tract the
/// record is treated as absent.
pub open spec fn for_tract<T>(tract: Option<Seq<char>>, v: Option<T>) -> Option<T> {
    if tract is Some { v } else { None }
}

/// One eligibility record for a property from its county's FHA and GSE
/// limits and, when known, the tract's USDA rural status, the county's USDA
/// income limits and the tract's AMI data. Without a tract the property is
/// conservatively USDA-ineligible and has no AMI data, whatever records are
/// passed in.
pub fn assemble_geo_eligibility(
    fips_code: &str,
    tract_geoid: Option<&str>,
    year: u16,
    fha: &FhaLoanLimits,
    gse: &GseLoanLimits,
    usda: Option<&UsdaruralEligibility>,
    income: Option<&UsdaIncomeLimit>,
    ami: Option<&AmiTractData>,
) -> (g: GeoEligibility)
    ensures
        geo_assembled(
            g,
            fips_code@,
            match tract_geoid { Some(t) => Some(t@), None => None },
            year,
            *fha,
            *gse,
            for_tract(
                match tract_geoid { Some(t) => Some(t@), None => None },
                match usda { Some(u) => Some(*u), None => None },
            ),
            match income { Some(u) => Some(*u), None => None },
            for_tract(
                match tract_geoid { Some(t) => Some(t@), None => None },
                match ami { Some(a) => Some(*a), None => None },
            ),
        ),
        tract_geoid is None ==> {
            &&& g.tract_geoid is None
            &&& !g.usda_sfh_eligible && !g.usda_mfh_eligible && g.usda_pct_eligible_bps is None
            &&& g.ami_100pct is None && g.ami_50pct is None && g.ami_80pct is None && g.ami_115pct is None
            &&& !g.is_low_income_tract && !g.hp_income_limit_waived
        },
{
    let usda = if tract_geoid.is_some() { usda } else { None };
    let ami = if tract_geoid.is_some() { ami } else { None };
    let (usda_sfh, usda_mfh, usda_pct) = match usda {
        Some(r) => (r.is_sfh_eligible, r.is_mfh_eligible, r.pct_eligible_bps),
        None => (false, false, None),
    };
    let usda_income_limits: [Cents; 8] = match income {
        Some(v) => [
            v.limit_size_1,
            v.limit_size_2,
            v.limit_size_3,
            v.limit_size_4,
            v.limit_size_5,
            v.limit_size_6,
            v.limit_size_7,
            v.limit_size_8,
        ],
        None => [Cents(0), Cents(0), Cents(0), Cents(0), Cents(0), Cents(0), Cents(0), Cents(0)],
    };
    assert(usda_income_limits@ =~= income_limits_of(match income { Some(u) => Some(*u), None => None }));
    let tract: Option<String> = match tract_geoid {
        Some(t) => Some(t.to_owned()),
        None => None,
    };
    let (a100, a50, a80, a115, low, waived) = match ami {
        Some(a) => (a.ami_100pct, a.ami_50pct, a.ami_80pct, a.ami_115pct, a.is_low_income_tract, a.hp_income_limit_waived),
        None => (None, None, None, None, false, false),
    };
    GeoEligibility {
        fips_code: fips_code.to_owned(),
        tract_geoid: tract,
        effective_year: year,
        fha_limit_1_unit: fha.limit_1_unit,
        fha_limit_2_unit: fha.limit_2_unit,
        fha_limit_3_unit: fha.limit_3_unit,
        fha_limit_4_unit: fha.limit_4_unit,
        fha_limit_type: fha.limit_type,
        gse_limit_1_unit: gse.limit_1_unit,
        gse_limit_2_unit: gse.limit_2_unit,
        gse_limit_3_unit: gse.limit_3_unit,
        gse_limit_4_unit: gse.limit_4_unit,
        gse_is_high_cost: gse.is_high_cost,
        usda_sfh_eligible: usda_sfh,
        usda_mfh_eligible: usda_mfh,
        usda_pct_eligible_bps: usda_pct,
        usda_income_limits,
        ami_100pct: a100,
        ami_50pct: a50,
        ami_80pct: a80,
        ami_115pct: a115,
        is_low_income_tract: low,
        hp_income_limit_waived: waived,
    }
}

// ── Names stored in the SQL backend ─────────────────────────────────────────

/// The stored name of an FHA limit type.
pub open spec fn limit_type_name(lt: FhaLimitType) -> Seq<char> {
    match lt {
        FhaLimitType::Floor => "Floor"@,
        FhaLimitType::Standard => "Standard"@,
        FhaLimitType::HighCost => "HighCost"@,
    }
}

/// The stored name of an FHA limit type.
pub fn limit_type_str(lt: FhaLimitType) -> (s: &'static str)
    ensures
        s@ == limit_type_name(lt),
{
    match lt {
        FhaLimitType::Floor => "Floor",
        FhaLimitType::Standard => "Standard",
        FhaLimitType::HighCost => "HighCost",
    }
}

/// The limit type a stored name denotes; any unknown name is `Standard`.
pub open spec fn limit_type_from(s: Seq<char>) -> FhaLimitType {
    if s == "Floor"@ {
        FhaLimitType::Floor
    } else if s == "HighCost"@ {
        FhaLimitType::HighCost
    } else {
        FhaLimitType::Standard
    }
}

/// The limit type a stored name denotes; any unknown name is `Standard`.
pub fn parse_limit_type(s: &str) -> (lt: FhaLimitType)
    ensures
        lt == limit_type_from(s@),
{
    if str_eq(s, "Floor") {
        FhaLimitType::Floor
    } else if str_eq(s, "HighCost") {
        FhaLimitType::HighCost
    } else {
        FhaLimitType::Standard
    }
}

/// Storing a limit type by name and reading it back gives it unchanged.
pub proof fn lemma_limit_type_round_trip(lt: FhaLimitType)
    ensures
        limit_type_from(limit_type_name(lt)) == lt,
{
    reveal_strlit("Floor");
    reveal_strlit("HighCost");
    reveal_strlit("Standard");
    assert("Standard"@.len() != "Floor"@.len());
    assert("Standard"@[0] != "HighCost"@[0]);
    assert("HighCost"@.len() != "Floor"@.len());
}

/// The stored name of a CBSA designation.
pub open spec fn designation_name(d: CbsaDesignation) -> Seq<char> {
    match d {
        CbsaDesignation::Metropolitan => "metropolitan"@,
        CbsaDesignation::Micropolitan => "micropolitan"@,
        CbsaDesignation::Rural => "rural"@,
    }
}

/// The stored name of a CBSA designation.
pub fn designation_str(d: CbsaDesignation) -> (s: &'static str)
    ensures
        s@ == designation_name(d),
{
    match d {
        CbsaDesignation::Metropolitan => "metropolitan",
        CbsaDesignation::Micropolitan => "micropolitan",
        CbsaDesignation::Rural => "rural",
    }
}

/// The designation a stored name denotes; any unknown name is `Rural`.
pub open spec fn designation_from(s: Seq<char>) -> CbsaDesignation {
    if s == "metropolitan"@ {
        CbsaDesignation::Metropolitan
    } else if s == "micropolitan"@ {
        CbsaDesignation::Micropolitan
    } else {
        CbsaDesignation::Rural
    }
}

/// The designation a stored name denotes; any unknown name is `Rural`.
pub fn parse_designation(s: &str) -> (d: CbsaDesignation)
    ensures
        d == designation_from(s@),
{
    if str_eq(s, "metropolitan") {
        CbsaDesignation::Metropolitan
    } else if str_eq(s, "micropolitan") {
        CbsaDesignation::Micropolitan
    } else {
        CbsaDesignation::Rural
    }
}

/// Storing a designation by name and reading it back gives it unchanged.
pub proof fn lemma_designation_round_trip(d: CbsaDesignation)
    ensures
        designation_from(designation_name(d)) == d,
{
    reveal_strlit("metropolitan");
    reveal_strlit("micropolitan");
    reveal_strlit("rural");
    assert("metropolitan"@[1] != "micropolitan"@[1]);
    assert("rural"@.len() != "metropolitan"@.len());
    assert("rural"@.len() != "micropolitan"@.len());
}

/// The stored key of a program.
pub open spec fn program_key(p: ProgramCode) -> Seq<char> {
    match p {
        ProgramCode::Conventional => "conventional"@,
        ProgramCode::HomeReady => "home_ready"@,
        ProgramCode::HomePossible => "home_possible"@,
        ProgramCode::HomeOne => "home_one"@,
        ProgramCode::Fha => "fha"@,
        ProgramCode::FhaDpa => "fha_dpa"@,
        ProgramCode::Va => "va"@,
        ProgramCode::VaJumbo => "va_jumbo"@,
        ProgramCode::Usda => "usda"@,
        ProgramCode::Bond => "bond"@,
        ProgramCode::Jumbo => "jumbo"@,
        ProgramCode::NonQm => "non_qm"@,
    }
}

/// The stored key of a program.
pub fn program_code_str(p: ProgramCode) -> (s: &'static str)
    ensures
        s@ == program_key(p),
{
    match p {
        ProgramCode::Conventional => "conventional",
        ProgramCode::HomeReady => "home_ready",
        ProgramCode::HomePossible => "home_possible",
        ProgramCode::HomeOne => "home_one",
        ProgramCode::Fha => "fha",
        ProgramCode::FhaDpa => "fha_dpa",
        ProgramCode::Va => "va",
        ProgramCode::VaJumbo => "va_jumbo",
        ProgramCode::Usda => "usda",
        ProgramCode::Bond => "bond",
        ProgramCode::Jumbo => "jumbo",
        ProgramCode::NonQm => "non_qm",
    }
}

/// Distinct programs are stored under distinct keys.
pub proof fn lemma_program_keys_distinct(p: ProgramCode, q: ProgramCode)
    requires
        p != q,
    ensures
        program_key(p) != program_key(q),
{
    reveal_strlit("conventional");
    reveal_strlit("home_ready");
    reveal_strlit("home_possible");
    reveal_strlit("home_one");
    reveal_strlit("fha");
    reveal_strlit("fha_dpa");
    reveal_strlit("va");
    reveal_strlit("va_jumbo");
    reveal_strlit("usda");
    reveal_strlit("bond");
    reveal_strlit("jumbo");
    reveal_strlit("non_qm");
    assert(program_key(p).len() != program_key(q).len() || program_key(p) != program_key(q)) by {
        if program_key(p).len() == program_key(q).len() {
            assert(program_key(p)[0] != program_key(q)[0] || program_key(p)[1] != program_key(q)[1]
                || program_key(p)[2] != program_key(q)[2] || program_key(p)[3] != program_key(q)[3]
                || program_key(p)[4] != program_key(q)[4] || program_key(p)[5] != program_key(q)[5]);
        }
    }
}

// ── Table lookups answered as store results ─────────────────────────────────


/// The FHA MIP rates for the input, or the storage error describing it.
pub fn fha_mip_or_error(table: &FhaMipTable, input: &FhaMipInput) -> (r: RefDataResult<FhaMipResult>)
    ensures
        match r {
            Ok(m) => mip_lookup_of(*table, *input) == Some(m),
            Err(e) => mip_lookup_of(*table, *input) is None && (e matches RefDataError::Storage(m) && m@
                == "no FHA MIP row matched ltv="@ + dec_nat(input.ltv_bps as nat) + ", term="@ + dec_nat(
                input.term_months as nat,
            ) + ", high_bal="@ + dec_int(input.base_loan_cents as int) + ", streamline="@ + bool_text(
                input.is_streamline_pre_2009,
            )),
        },
{
    match table.lookup(input) {
        Some(m) => Ok(m),
        None => {
            let mut m = String::new();
            m.append("no FHA MIP row matched ltv=");
            push_dec_u64(&mut m, input.ltv_bps as u64);
            m.append(", term=");
            push_dec_u64(&mut m, input.term_months as u64);
            m.append(", high_bal=");
            push_dec_i64(&mut m, input.base_loan_cents);
            m.append(", streamline=");
            m.append(bool_str(input.is_streamline_pre_2009));
            Err(RefDataError::Storage(m))
        },
    }
}

/// The VA funding fee for the input, or the storage error saying no row
/// matched.
pub fn va_fee_or_error(table: &VaFeeTable, input: &VaFeeInput) -> (r: RefDataResult<u32>)
    ensures
        match r {
            Ok(f) => va_fee_of(*table, *input) == Some(f),
            Err(e) => va_fee_of(*table, *input) is None && (e matches RefDataError::Storage(m) && m@
                == "no VA funding fee row matched input parameters"@),
        },
{
    match table.lookup(input) {
        Some(f) => Ok(f),
        None => Err(RefDataError::Storage("no VA funding fee row matched input parameters".to_owned())),
    }
}

/// The program's name as Rust's `Debug` prints it.
pub open spec fn conv_program_name(p: ConvMiProgram) -> Seq<char> {
    match p {
        ConvMiProgram::Standard => "Standard"@,
        ConvMiProgram::HomeReady => "HomeReady"@,
        ConvMiProgram::HomePossible => "HomePossible"@,
    }
}

fn conv_program_str(p: ConvMiProgram) -> (s: &'static str)
    ensures
        s@ == conv_program_name(p),
{
    match p {
        ConvMiProgram::Standard => "Standard",
        ConvMiProgram::HomeReady => "HomeReady",
        ConvMiProgram::HomePossible => "HomePossible",
    }
}

/// The required MI coverage for the input, or the storage error describing
/// it.
pub fn conv_mi_coverage_or_error(table: &ConvMiCoverageTable, input: &ConvMiInput) -> (r: RefDataResult<
    ConvMiCoverage,
>)
    ensures
        match r {
            Ok(c) => coverage_lookup_of(*table, *input) == Some(c),
            Err(e) => coverage_lookup_of(*table, *input) is None && (e matches RefDataError::Storage(m) && m@ == "no conv MI coverage row matched ltv="@
                + dec_nat(input.ltv_bps as nat) + ", term="@ + dec_nat(input.term_months as nat)
                + ", program="@ + conv_program_name(input.program)),
        },
{
    match table.lookup(input) {
        Some(c) => Ok(c),
        None => {
            let mut m = String::new();
            m.append("no conv MI coverage row matched ltv=");
            push_dec_u64(&mut m, input.ltv_bps as u64);
            m.append(", term=");
            push_dec_u64(&mut m, input.term_months as u64);
            m.append(", program=");
            m.append(conv_program_str(input.program));
            Err(RefDataError::Storage(m))
        },
    }
}

/// The provider's annual MI rate for the input, or the storage error
/// describing it (`kind` names the rate table: "MI rate" or "SP").
fn mi_rate_or_error(table: &MiMonthlyTable, provider: &str, input: &MiRateInput, monthly: bool) -> (r:
    RefDataResult<u16>)
    ensures
        match r {
            Ok(b) => annual_bps_of(*table, *input) == Some(b),
            Err(e) => annual_bps_of(*table, *input) is None && (e matches RefDataError::Storage(m) && m@
                == mi_rate_error_text(provider@, *input, monthly)),
        },
{
    match table.lookup_annual_bps(input) {
        Some(b) => Ok(b),
        None => {
            let mut m = String::new();
            if monthly {
                m.append("no MI rate row matched provider=");
            } else {
                m.append("no SP row: provider=");
            }
            m.append(provider);
            m.append(", ltv=");
            push_dec_u64(&mut m, input.ltv_bps as u64);
            if monthly {
                m.append(", coverage=");
            } else {
                m.append(", cov=");
            }
            push_dec_u64(&mut m, input.coverage_pct as u64);
            m.append("%, fico=");
            push_dec_u64(&mut m, input.fico as u64);
            Err(RefDataError::Storage(m))
        },
    }
}

/// The message when no provider rate row matches.
pub open spec fn mi_rate_error_text(provider: Seq<char>, i: MiRateInput, monthly: bool) -> Seq<char> {
    (if monthly { "no MI rate row matched provider="@ } else { "no SP row: provider="@ }) + provider
        + ", ltv="@ + dec_nat(i.ltv_bps as nat) + (if monthly { ", coverage="@ } else { ", cov="@ })
        + dec_nat(i.coverage_pct as nat) + "%, fico="@ + dec_nat(i.fico as nat)
}

/// The provider's monthly-plan annual rate, or the storage error.
pub fn mi_monthly_rate_or_error(table: &MiMonthlyTable, provider: &str, input: &MiRateInput) -> (r:
    RefDataResult<u16>)
    ensures
        match r {
            Ok(b) => annual_bps_of(*table, *input) == Some(b),
            Err(e) => annual_bps_of(*table, *input) is None && (e matches RefDataError::Storage(m) && m@
                == mi_rate_error_text(provider@, *input, true)),
        },
{
    mi_rate_or_error(table, provider, input, true)
}

/// The provider's single-premium annual rate, or the storage error.
pub fn mi_single_premium_or_error(table: &MiMonthlyTable, provider: &str, input: &MiRateInput) -> (r:
    RefDataResult<u16>)
    ensures
        match r {
            Ok(b) => annual_bps_of(*table, *input) == Some(b),
            Err(e) => annual_bps_of(*table, *input) is None && (e matches RefDataError::Storage(m) && m@
                == mi_rate_error_text(provider@, *input, false)),
        },
{
    mi_rate_or_error(table, provider, input, false)
}

/// A file prefix built from parts: `{head}{middle}{tail}`, e.g.
/// `mi_rates_{provider}_monthly` or `llpa_matrix_{agency}`.
pub fn file_prefix(head: &str, middle: &str, tail: &str) -> (s: String)
    ensures
        s@ == head@ + middle@ + tail@,
{
    let mut s = String::new();
    s.append(head);
    s.append(middle);
    s.append(tail);
    s
}

/// The year of a date as `%Y` reads back as a `u16`: the year itself when
/// it is 0–65535, else `default` (2025 for the JSON store's income-limit
/// requests, 0 in the SQL store's not-found errors).
pub fn date_year_or(d: CalendarDate, default: u16) -> (y: u16)
    ensures
        y == if 0 <= d.spec_year() <= 65535 { d.spec_year() as u16 } else { default },
{
    let year = d.year();
    if 0 <= year && year <= 65535 {
        year as u16
    } else {
        default
    }
}

} // verus!
