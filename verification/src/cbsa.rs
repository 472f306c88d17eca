//! CBSA (Core Based Statistical Area) crosswalk: county FIPS to
//! Metropolitan / Micropolitan / Rural designation.

use vstd::prelude::*;

verus! {

/// Metropolitan / Micropolitan / Rural classification.
#[derive(Clone, Copy, Debug, PartialEq, Eq, Hash, Structural)]
pub enum CbsaDesignation {
    /// Metropolitan Statistical Area.
    Metropolitan,
    /// Micropolitan Statistical Area.
    Micropolitan,
    /// Outside any metropolitan or micropolitan area.
    Rural,
}

impl CbsaDesignation {
    /// True for Metropolitan areas only.
    pub fn is_metro(self) -> (b: bool)
        ensures
            b == (self == CbsaDesignation::Metropolitan),
    {
        match self {
            CbsaDesignation::Metropolitan => true,
            _ => false,
        }
    }

    /// True for any urban designation (Metro or Micro).
    pub fn is_urban(self) -> (b: bool)
        ensures
            b == (self == CbsaDesignation::Metropolitan || self == CbsaDesignation::Micropolitan),
    {
        match self {
            CbsaDesignation::Metropolitan | CbsaDesignation::Micropolitan => true,
            _ => false,
        }
    }
}

/// CBSA assignment for one county.
#[derive(Clone, Debug)]
pub struct CbsaEntry {
    /// 5-digit county FIPS code.
    pub fips_code: String,
    /// 5-digit CBSA code; `None` for rural counties.
    pub cbsa_code: Option<String>,
    /// CBSA name.
    pub cbsa_name: Option<String>,
    pub designation: CbsaDesignation,
    /// True for Metropolitan counties only.
    pub is_metro: bool,
}

impl CbsaEntry {
    /// True if the county is Micropolitan.
    pub fn is_micro(&self) -> (b: bool)
        ensures
            b == (self.designation == CbsaDesignation::Micropolitan),
    {
        self.designation == CbsaDesignation::Micropolitan
    }

    /// True if the county has no CBSA at all.
    pub fn is_rural(&self) -> (b: bool)
        ensures
            b == (self.designation == CbsaDesignation::Rural),
    {
        self.designation == CbsaDesignation::Rural
    }
}

/// Every designation is exactly one of metropolitan, micropolitan (urban
/// but not metro) and rural (neither).
pub proof fn lemma_designations_partition(d: CbsaDesignation)
    ensures
        (d == CbsaDesignation::Metropolitan) ==> (d == CbsaDesignation::Metropolitan
            || d == CbsaDesignation::Micropolitan),
        (d == CbsaDesignation::Rural) <==> !(d == CbsaDesignation::Metropolitan
            || d == CbsaDesignation::Micropolitan),
{
}

} // verus!
