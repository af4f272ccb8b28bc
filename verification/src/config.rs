//! Per-module radio configuration.

use vstd::prelude::*;

verus! {

/// The tuning of one signal path: carrier frequency in hertz, sample rate
/// and bandwidth in hertz, and the three gain stages in decibels.
#[derive(Clone, Debug)]
pub struct BladeRFModuleConfig {
    pub frequency: u64,
    pub sample_rate: u32,
    pub bandwidth: u32,
    pub lna_gain: i32,
    pub vga1: i32,
    pub vga2: i32,
}

/// The tuning of both signal paths of the radio.
pub struct BladeRFConfig {
    pub tx: BladeRFModuleConfig,
    pub rx: BladeRFModuleConfig,
}

} // verus!
