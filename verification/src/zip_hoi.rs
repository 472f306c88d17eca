//! ZIP-level homeowner's insurance rates, more precise than the state
//! average where available. Lookup falls through ZIP, then state, then the
//! national fallback rate.

use vstd::prelude::*;
use crate::hoi_rates::{monthly_hoi, monthly_hoi_estimate};
use crate::money::Cents;

verus! {

/// Annual HOI rate for one ZIP code, in basis points of property value.
#[derive(Clone, Debug)]
pub struct ZipHoiRate {
    /// 5-digit ZIP code.
    pub zip5: String,
    /// 2-letter state abbreviation.
    pub state_abbr: String,
    /// Annual premium as basis points of property value.
    pub annual_rate_bps: u16,
    /// Median annual premium from the source data (a cross-check).
    pub median_annual_premium_cents: Option<Cents>,
    /// Number of policies in the sample.
    pub sample_size: Option<u32>,
    pub effective_year: u16,
}

impl ZipHoiRate {
    /// Monthly HOI estimate for a property value, rounded up; `None` when
    /// the value is not positive.
    pub fn monthly_estimate(&self, property_value: Cents) -> (r: Option<Cents>)
        ensures
            r == monthly_hoi(property_value.0, self.annual_rate_bps),
    {
        monthly_hoi_estimate(property_value, self.annual_rate_bps)
    }
}

} // verus!
