//! Data-only types consumed and produced around the communication core:
//! GPIO interrupt configuration choices and the per-step records of the
//! sensor's internal ranging sequence.

use vstd::prelude::*;

verus! {

/// Which event is routed to the GPIO pin.
#[derive(Copy, Clone, Debug, PartialEq, Eq, Structural)]
pub enum GpioFunctionality {
    /// Interrupt on new sample ready (default after init)
    NewSampleReady,
    /// Interrupt on range below low threshold
    LevelLow,
    /// Interrupt on range above high threshold
    LevelHigh,
    /// Interrupt on range outside window (below low OR above high)
    OutOfWindow,
}

/// Active level of the interrupt pin.
#[derive(Copy, Clone, Debug, PartialEq, Eq, Structural)]
pub enum GpioPolarity {
    /// GPIO pulls low when interrupt occurs (default after init)
    ActiveLow,
    /// GPIO pulls high when interrupt occurs
    ActiveHigh,
}

/// Which of the two VCSEL periods a period codec value refers to.
#[derive(Copy, Clone, Debug, PartialEq, Eq, Structural)]
pub enum VcselPeriodType {
    VcselPeriodPreRange,
    VcselPeriodFinalRange,
}

/// Enable flags for the five sub-steps of the ranging sequence.
#[derive(Copy, Clone, Debug, PartialEq, Eq, Structural)]
pub struct SeqStepEnables {
    pub tcc: bool,
    pub dss: bool,
    pub msrc: bool,
    pub pre_range: bool,
    pub final_range: bool,
}

/// Per-step timing values in three unit domains at once: VCSEL pulse-width
/// counts, macro-clock counts, and microseconds.  The higher-level ranging
/// logic fills this record using the codecs of this crate.
#[derive(Copy, Clone, Debug, PartialEq, Eq, Structural)]
pub struct SeqStepTimeouts {
    pub pre_range_vcselperiod_pclks: u8,
    pub final_range_vcsel_period_pclks: u8,
    pub msrc_dss_tcc_mclks: u8,
    pub pre_range_mclks: u16,
    pub final_range_mclks: u16,
    pub msrc_dss_tcc_microseconds: u32,
    pub pre_range_microseconds: u32,
    pub final_range_microseconds: u32,
}

} // verus!
