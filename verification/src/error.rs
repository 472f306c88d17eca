//! The error type of every reference-data operation.

use vstd::prelude::*;
use vstd::string::*;
use crate::text::{dec_nat, push_dec_u64};

verus! {

/// `serde_json::Error`, carried through unchanged in [`RefDataError::Json`].
#[verifier::external_type_specification]
#[verifier::external_body]
pub struct ExJsonError(serde_json::Error);

/// Unified error type for reference data operations.
#[derive(Debug)]
pub enum RefDataError {
    /// No record found for this FIPS code and year combination.
    NotFound { data_type: &'static str, fips: String, year: u16 },
    /// No USDA income limit found for this FIPS and household size.
    UsdaIncomeLimitNotFound { fips: String, household_size: u8 },
    /// Household size out of the USDA-supported range (1–8).
    InvalidHouseholdSize(u8),
    /// Census tract GEOID is not 11 digits.
    InvalidGeoid(String),
    /// Storage backend returned an error.
    Storage(String),
    /// Data integrity violation — unexpected null or type mismatch.
    DataIntegrity { table: &'static str, detail: String },
    /// JSON deserialization from the file store failed.
    Json { file: String, source: serde_json::Error },
    /// A version manifest references a data version no longer in the store.
    StaleManifest(String),
}

/// `Result<T, RefDataError>`.
pub type RefDataResult<T> = Result<T, RefDataError>;

/// `<serde_json::Error as Display>::to_string`: the parser's own message.
/// Nothing is stated of the text.
#[verifier::external_body]
fn json_error_text(e: &serde_json::Error) -> String {
    e.to_string()
}

/// The message of every variant but `Json`, whose text ends with the
/// parser's own message.
pub open spec fn error_text(e: RefDataError) -> Seq<char> {
    match e {
        RefDataError::NotFound { data_type, fips, year } => "no "@ + data_type@ + " found for FIPS '"@
            + fips@ + "' year "@ + dec_nat(year as nat),
        RefDataError::UsdaIncomeLimitNotFound { fips, household_size } => "no USDA income limit for FIPS '"@
            + fips@ + "', size "@ + dec_nat(household_size as nat),
        RefDataError::InvalidHouseholdSize(n) => "household size "@ + dec_nat(n as nat)
            + " is outside the valid USDA range of 1–8"@,
        RefDataError::InvalidGeoid(g) => "census tract GEOID '"@ + g@
            + "' must be 11 digits (state2+county3+tract6)"@,
        RefDataError::Storage(m) => "storage error: "@ + m@,
        RefDataError::DataIntegrity { table, detail } => "data integrity error in "@ + table@ + ": "@
            + detail@,
        RefDataError::Json { file, .. } => "JSON error in "@ + file@ + ": "@,
        RefDataError::StaleManifest(v) => "version '"@ + v@
            + "' referenced in manifest is not present in the store"@,
    }
}

impl RefDataError {
    /// The human-readable message of the error.
    pub fn message(&self) -> (m: String)
        ensures
            !(self is Json) ==> m@ == error_text(*self),
            self is Json ==> m@.len() >= error_text(*self).len() && m@.subrange(
                0,
                error_text(*self).len() as int,
            ) == error_text(*self),
    {
        let mut m = String::new();
        match self {
            RefDataError::NotFound { data_type, fips, year } => {
                m.append("no ");
                m.append(data_type);
                m.append(" found for FIPS '");
                m.append(fips.as_str());
                m.append("' year ");
                push_dec_u64(&mut m, *year as u64);
            },
            RefDataError::UsdaIncomeLimitNotFound { fips, household_size } => {
                m.append("no USDA income limit for FIPS '");
                m.append(fips.as_str());
                m.append("', size ");
                push_dec_u64(&mut m, *household_size as u64);
            },
            RefDataError::InvalidHouseholdSize(n) => {
                m.append("household size ");
                push_dec_u64(&mut m, *n as u64);
                m.append(" is outside the valid USDA range of 1–8");
            },
            RefDataError::InvalidGeoid(g) => {
                m.append("census tract GEOID '");
                m.append(g.as_str());
                m.append("' must be 11 digits (state2+county3+tract6)");
            },
            RefDataError::Storage(s) => {
                m.append("storage error: ");
                m.append(s.as_str());
            },
            RefDataError::DataIntegrity { table, detail } => {
                m.append("data integrity error in ");
                m.append(table);
                m.append(": ");
                m.append(detail.as_str());
            },
            RefDataError::Json { file, source } => {
                m.append("JSON error in ");
                m.append(file.as_str());
                m.append(": ");
                let ghost head = m@;
                let t = json_error_text(source);
                m.append(t.as_str());
                assert(m@.subrange(0, head.len() as int) =~= head);
            },
            RefDataError::StaleManifest(v) => {
                m.append("version '");
                m.append(v.as_str());
                m.append("' referenced in manifest is not present in the store");
            },
        }
        proof {
            if !(self is Json) {
                assert(m@ =~= error_text(*self));
            }
        }
        m
    }
}

} // verus!
