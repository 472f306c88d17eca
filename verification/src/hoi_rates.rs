//! Homeowner's insurance (HOI) estimation rates by state.
//!
//! `monthly_hoi = property_value × annual_rate_bps / 10_000 / 12`, rounded up
//! (conservative). Texas at 56 bps: a $459,000 property is about $214 a month.

use vstd::prelude::*;
use crate::money::{lemma_monthly_fits, monthly_ceil, monthly_ceil_cents, Cents};

verus! {

/// Annual HOI rate for one state, in basis points of property value.
#[derive(Clone, Debug)]
pub struct StateHoiRate {
    /// 2-letter state abbreviation.
    pub state_abbr: String,
    /// Annual rate in basis points of property value.
    pub annual_rate_bps: u16,
    pub effective_year: u16,
}

/// The monthly HOI estimate for a property value: `None` for a
/// non-positive value, else the annual rate's monthly part rounded up.
pub open spec fn monthly_hoi(value: i64, bps: u16) -> Option<Cents> {
    if value <= 0 {
        None
    } else {
        Some(Cents(monthly_ceil(value as int, bps as int) as i64))
    }
}

/// The monthly estimate, computed without loss.
pub fn monthly_hoi_estimate(property_value: Cents, annual_rate_bps: u16) -> (r: Option<Cents>)
    ensures
        r == monthly_hoi(property_value.0, annual_rate_bps),
        r matches Some(c) ==> 0 <= c.0 <= property_value.0 && c.0 == monthly_ceil(
            property_value.0 as int,
            annual_rate_bps as int,
        ),
{
    if property_value.0 <= 0 {
        return None;
    }
    proof {
        lemma_monthly_fits(property_value.0 as int, annual_rate_bps as int);
    }
    Some(Cents(monthly_ceil_cents(property_value.0, annual_rate_bps as u32)))
}

impl StateHoiRate {
    /// Monthly HOI estimate for a property value; `None` when the value is
    /// not positive.
    pub fn monthly_estimate(&self, property_value: Cents) -> (r: Option<Cents>)
        ensures
            r == monthly_hoi(property_value.0, self.annual_rate_bps),
    {
        monthly_hoi_estimate(property_value, self.annual_rate_bps)
    }
}

/// National fallback rate when no state-specific rate is available: 85 bps.
pub const NATIONAL_FALLBACK_RATE_BPS: u16 = 85;

} // verus!
