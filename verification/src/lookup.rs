//! Keyed lookups of the reference-data store: the first record of a file
//! whose key is the one asked for.

use vstd::prelude::*;
use crate::cbsa::CbsaEntry;
use crate::condo_approval::FhaCondoProject;
use crate::geo::{UsdaMfhByTract, UsdaruralEligibility};
use crate::lender::{LenderOverlays, LenderProfile};
use crate::money::ProgramCode;
use crate::rate_sheet::RateSheet;
use crate::search::{first_where, lemma_first_where_hit, lemma_first_where_none};
use crate::text::str_eq;
use crate::zip_hoi::ZipHoiRate;

verus! {

/// The USDA rural-eligibility record of a tract, if the file lists it.
pub fn select_rural_eligibility(records: Vec<UsdaruralEligibility>, geoid: &str) -> (r: Option<UsdaruralEligibility>)
    ensures
        r == first_where(records@, |x: UsdaruralEligibility| x.geoid@ == geoid@),
{
    let ghost pred = |x: UsdaruralEligibility| x.geoid@ == geoid@;
    let mut recs = records;
    let mut i: usize = 0;
    while i < recs.len()
        invariant
            0 <= i <= recs@.len(),
            recs@ == records@,
            pred == (|x: UsdaruralEligibility| x.geoid@ == geoid@),
            forall|j: int| 0 <= j < i ==> !pred(#[trigger] recs@[j]),
        decreases recs@.len() - i,
    {
        if str_eq(recs[i].geoid.as_str(), geoid) {
            proof {
                lemma_first_where_hit(recs@, pred, i as int);
            }
            return Some(recs.remove(i));
        }
        i = i + 1;
    }
    proof {
        lemma_first_where_none(recs@, pred);
    }
    None
}

/// The USDA multifamily-housing record of a tract, if the file lists it.
pub fn select_mfh_by_tract(records: Vec<UsdaMfhByTract>, geoid: &str) -> (r: Option<UsdaMfhByTract>)
    ensures
        r == first_where(records@, |x: UsdaMfhByTract| x.geoid@ == geoid@),
{
    let ghost pred = |x: UsdaMfhByTract| x.geoid@ == geoid@;
    let mut recs = records;
    let mut i: usize = 0;
    while i < recs.len()
        invariant
            0 <= i <= recs@.len(),
            recs@ == records@,
            pred == (|x: UsdaMfhByTract| x.geoid@ == geoid@),
            forall|j: int| 0 <= j < i ==> !pred(#[trigger] recs@[j]),
        decreases recs@.len() - i,
    {
        if str_eq(recs[i].geoid.as_str(), geoid) {
            proof {
                lemma_first_where_hit(recs@, pred, i as int);
            }
            return Some(recs.remove(i));
        }
        i = i + 1;
    }
    proof {
        lemma_first_where_none(recs@, pred);
    }
    None
}

/// The CBSA crosswalk entry of a county, if the file lists it.
pub fn select_cbsa(records: Vec<CbsaEntry>, fips_code: &str) -> (r: Option<CbsaEntry>)
    ensures
        r == first_where(records@, |x: CbsaEntry| x.fips_code@ == fips_code@),
{
    let ghost pred = |x: CbsaEntry| x.fips_code@ == fips_code@;
    let mut recs = records;
    let mut i: usize = 0;
    while i < recs.len()
        invariant
            0 <= i <= recs@.len(),
            recs@ == records@,
            pred == (|x: CbsaEntry| x.fips_code@ == fips_code@),
            forall|j: int| 0 <= j < i ==> !pred(#[trigger] recs@[j]),
        decreases recs@.len() - i,
    {
        if str_eq(recs[i].fips_code.as_str(), fips_code) {
            proof {
                lemma_first_where_hit(recs@, pred, i as int);
            }
            return Some(recs.remove(i));
        }
        i = i + 1;
    }
    proof {
        lemma_first_where_none(recs@, pred);
    }
    None
}

/// The profile of a lender, if the file lists it.
pub fn select_lender_profile(records: Vec<LenderProfile>, lender_id: &str) -> (r: Option<LenderProfile>)
    ensures
        r == first_where(records@, |x: LenderProfile| x.lender_id@ == lender_id@),
{
    let ghost pred = |x: LenderProfile| x.lender_id@ == lender_id@;
    let mut recs = records;
    let mut i: usize = 0;
    while i < recs.len()
        invariant
            0 <= i <= recs@.len(),
            recs@ == records@,
            pred == (|x: LenderProfile| x.lender_id@ == lender_id@),
            forall|j: int| 0 <= j < i ==> !pred(#[trigger] recs@[j]),
        decreases recs@.len() - i,
    {
        if str_eq(recs[i].lender_id.as_str(), lender_id) {
            proof {
                lemma_first_where_hit(recs@, pred, i as int);
            }
            return Some(recs.remove(i));
        }
        i = i + 1;
    }
    proof {
        lemma_first_where_none(recs@, pred);
    }
    None
}

/// An FHA condominium project by its identifier, if the file lists it.
pub fn select_condo_project(records: Vec<FhaCondoProject>, fha_project_id: &str) -> (r: Option<FhaCondoProject>)
    ensures
        r == first_where(records@, |x: FhaCondoProject| x.fha_project_id@ == fha_project_id@),
{
    let ghost pred = |x: FhaCondoProject| x.fha_project_id@ == fha_project_id@;
    let mut recs = records;
    let mut i: usize = 0;
    while i < recs.len()
        invariant
            0 <= i <= recs@.len(),
            recs@ == records@,
            pred == (|x: FhaCondoProject| x.fha_project_id@ == fha_project_id@),
            forall|j: int| 0 <= j < i ==> !pred(#[trigger] recs@[j]),
        decreases recs@.len() - i,
    {
        if str_eq(recs[i].fha_project_id.as_str(), fha_project_id) {
            proof {
                lemma_first_where_hit(recs@, pred, i as int);
            }
            return Some(recs.remove(i));
        }
        i = i + 1;
    }
    proof {
        lemma_first_where_none(recs@, pred);
    }
    None
}

/// The homeowners-insurance rate of a ZIP code, if the file lists it.
pub fn select_zip_hoi(records: Vec<ZipHoiRate>, zip5: &str) -> (r: Option<ZipHoiRate>)
    ensures
        r == first_where(records@, |x: ZipHoiRate| x.zip5@ == zip5@),
{
    let ghost pred = |x: ZipHoiRate| x.zip5@ == zip5@;
    let mut recs = records;
    let mut i: usize = 0;
    while i < recs.len()
        invariant
            0 <= i <= recs@.len(),
            recs@ == records@,
            pred == (|x: ZipHoiRate| x.zip5@ == zip5@),
            forall|j: int| 0 <= j < i ==> !pred(#[trigger] recs@[j]),
        decreases recs@.len() - i,
    {
        if str_eq(recs[i].zip5.as_str(), zip5) {
            proof {
                lemma_first_where_hit(recs@, pred, i as int);
            }
            return Some(recs.remove(i));
        }
        i = i + 1;
    }
    proof {
        lemma_first_where_none(recs@, pred);
    }
    None
}

/// The rate sheet of a lender, if the file holds one.
pub fn select_rate_sheet(records: Vec<RateSheet>, lender_id: &str) -> (r: Option<RateSheet>)
    ensures
        r == first_where(records@, |x: RateSheet| x.lender_id@ == lender_id@),
{
    let ghost pred = |x: RateSheet| x.lender_id@ == lender_id@;
    let mut recs = records;
    let mut i: usize = 0;
    while i < recs.len()
        invariant
            0 <= i <= recs@.len(),
            recs@ == records@,
            pred == (|x: RateSheet| x.lender_id@ == lender_id@),
            forall|j: int| 0 <= j < i ==> !pred(#[trigger] recs@[j]),
        decreases recs@.len() - i,
    {
        if str_eq(recs[i].lender_id.as_str(), lender_id) {
            proof {
                lemma_first_where_hit(recs@, pred, i as int);
            }
            return Some(recs.remove(i));
        }
        i = i + 1;
    }
    proof {
        lemma_first_where_none(recs@, pred);
    }
    None
}

/// The overlays a lender sets on one program, if the file holds them.
pub fn select_lender_overlays(records: Vec<LenderOverlays>, lender_id: &str, program: ProgramCode) -> (r:
    Option<LenderOverlays>)
    ensures
        r == first_where(records@, |x: LenderOverlays| x.lender_id@ == lender_id@ && x.program == program),
{
    let ghost pred = |x: LenderOverlays| x.lender_id@ == lender_id@ && x.program == program;
    let mut recs = records;
    let mut i: usize = 0;
    while i < recs.len()
        invariant
            0 <= i <= recs@.len(),
            recs@ == records@,
            pred == (|x: LenderOverlays| x.lender_id@ == lender_id@ && x.program == program),
            forall|j: int| 0 <= j < i ==> !pred(#[trigger] recs@[j]),
        decreases recs@.len() - i,
    {
        if str_eq(recs[i].lender_id.as_str(), lender_id) && recs[i].program == program {
            proof {
                lemma_first_where_hit(recs@, pred, i as int);
            }
            return Some(recs.remove(i));
        }
        i = i + 1;
    }
    proof {
        lemma_first_where_none(recs@, pred);
    }
    None
}

} // verus!
