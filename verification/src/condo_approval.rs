//! FHA condominium project approval.
//!
//! FHA financing of a condo unit requires the project to be on HUD's
//! approved list; a unit in a non-approved project is ineligible for FHA.

use vstd::prelude::*;
use crate::versioning::CalendarDate;

verus! {

/// Approval status of an FHA condo project.
#[derive(Clone, Copy, Debug, PartialEq, Eq, Structural)]
pub enum CondoApprovalStatus {
    Approved,
    Expired,
    Withdrawn,
    Rejected,
}

impl CondoApprovalStatus {
    /// True only for currently approved projects.
    pub fn is_currently_approved(self) -> (b: bool)
        ensures
            b == (self == CondoApprovalStatus::Approved),
    {
        self == CondoApprovalStatus::Approved
    }
}

/// One condominium project on HUD's list.
#[derive(Clone, Debug)]
pub struct FhaCondoProject {
    /// HUD-assigned project ID (e.g. "A000123").
    pub fha_project_id: String,
    pub project_name: String,
    pub address: String,
    pub city: String,
    pub state: String,
    pub zip5: String,
    pub county_fips: String,
    pub status: CondoApprovalStatus,
    /// Date approval expires; `None` for rejected or non-expiring projects.
    pub approval_expiry: Option<CalendarDate>,
    pub units_in_project: Option<u16>,
}

/// HUD's approved-project list as of a source date.
#[derive(Clone, Debug)]
pub struct FhaCondoApprovedFile {
    pub source_date: String,
    pub projects: Vec<FhaCondoProject>,
}

} // verus!
