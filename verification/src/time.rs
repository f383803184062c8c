//! The clock source of a profiling run: the core clock frequency and the
//! cycle counter peripheral, each configured once during bring-up and read
//! by the measurements afterwards.

use crate::error::ProfilingError;
use cortex_m::peripheral::DWT;
use vstd::prelude::*;

verus! {

/// `cortex_m::peripheral::DWT`, opaque to the verifier: the library only
/// carries the reference, it never reads the peripheral.
#[verifier::external_type_specification]
#[verifier::external_body]
pub struct ExDwt(DWT);

/// What a clock source holds.
pub struct ClockState {
    /// The core clock frequency in MHz; 0 until it is set.
    pub hclk_mhz: u32,
    /// The cycle counter peripheral, once it is attached.
    pub dwt_ref: Option<&'static DWT>,
}

/// The configuration that the measurements read their clock from.
pub struct ClockSource {
    hclk_mhz: u32,
    dwt_ref: Option<&'static DWT>,
}

impl View for ClockSource {
    type V = ClockState;

    closed spec fn view(&self) -> ClockState {
        ClockState { hclk_mhz: self.hclk_mhz, dwt_ref: self.dwt_ref }
    }
}

impl ClockSource {
    /// A source with nothing configured.
    pub fn new() -> (source: Self)
        ensures
            source@ == (ClockState { hclk_mhz: 0, dwt_ref: None }),
    {
        ClockSource { hclk_mhz: 0, dwt_ref: None }
    }
}

/// Sets the core clock frequency, in MHz.
pub fn set_hclk_mhz(source: &mut ClockSource, hclk_mhz: u32)
    ensures
        final(source)@ == (ClockState { hclk_mhz, ..old(source)@ }),
{
    source.hclk_mhz = hclk_mhz;
}

/// The core clock frequency in MHz, or 0 if it was never set.
pub fn get_hclk_mhz(source: &ClockSource) -> (hclk_mhz: u32)
    ensures
        hclk_mhz == source@.hclk_mhz,
{
    source.hclk_mhz
}

/// Attaches the cycle counter peripheral.
pub fn set_dwt_ref(source: &mut ClockSource, dwt_ref: &'static DWT)
    ensures
        final(source)@ == (ClockState { dwt_ref: Some(dwt_ref), ..old(source)@ }),
{
    source.dwt_ref = Some(dwt_ref);
}

/// The cycle counter peripheral, or `UnavailableResource` if none was
/// attached.
pub fn get_dwt_ref(source: &ClockSource) -> (dwt_ref: Result<&'static DWT, ProfilingError>)
    ensures
        match source@.dwt_ref {
            Some(attached) => dwt_ref == Ok::<&'static DWT, ProfilingError>(attached),
            None => dwt_ref == Err::<&'static DWT, ProfilingError>(
                ProfilingError::UnavailableResource,
            ),
        },
{
    match source.dwt_ref {
        Some(attached) => Ok(attached),
        None => Err(ProfilingError::UnavailableResource),
    }
}

} // verus!
