//! What the engine needs of a probe, and the probe's SWD settings.

use vstd::prelude::*;

use crate::error::{DebugProbeError, WireProtocol};
use crate::sequence::IoSequenceItem;

verus! {

/// Timing and retry settings of an SWD probe.
#[derive(Clone, Copy, Debug, PartialEq, Eq, Structural)]
pub struct SwdSettings {
    /// Idle cycles after each write.
    pub num_idle_cycles_between_writes: usize,
    /// How often a batch is tried again after a WAIT.
    pub num_retries_after_wait: usize,
    /// The most idle cycles added to writes after a WAIT.
    pub max_retry_idle_cycles_after_wait: usize,
    /// Idle cycles before the read that checks a buffered write.
    pub idle_cycles_before_write_verify: usize,
    /// Idle cycles at the end of a batch.
    pub idle_cycles_after_transfer: usize,
}

impl Default for SwdSettings {
    fn default() -> (r: SwdSettings)
        ensures
            r.num_idle_cycles_between_writes == 2,
            r.num_retries_after_wait == 1000,
            r.max_retry_idle_cycles_after_wait == 128,
            r.idle_cycles_before_write_verify == 8,
            r.idle_cycles_after_transfer == 8,
    {
        SwdSettings {
            num_idle_cycles_between_writes: 2,
            num_retries_after_wait: 1000,
            max_retry_idle_cycles_after_wait: 128,
            idle_cycles_before_write_verify: 8,
            idle_cycles_after_transfer: 8,
        }
    }
}

/// A sequence of TCK clocks with a fixed TMS value.
#[derive(Clone, Debug, PartialEq, Eq)]
pub struct JtagSequence {
    /// Whether TDO is captured.
    pub tdo_capture: bool,
    /// The TMS value held during the clocks.
    pub tms: bool,
    /// The TDI bits, one per clock.
    pub data: Vec<bool>,
}

/// The control side of a debug probe.
pub trait DebugProbe {
    /// The selected wire protocol, if any.
    fn active_protocol(&self) -> Option<WireProtocol>;
}

/// A probe that drives and samples SWDIO clock by clock.
pub trait RawSwdIo {
    /// Clocks out the sequence; returns one bit per clock, the sampled
    /// value for an input and anything for an output.
    fn swd_io(&mut self, swdio: &[IoSequenceItem]) -> Result<Vec<bool>, DebugProbeError>;

    /// Sets and reads the SWJ pins.
    fn swj_pins(&mut self, pin_out: u32, pin_select: u32, pin_wait: u32) -> Result<
        u32,
        DebugProbeError,
    >;

    /// The probe's SWD timing and retry settings.
    fn swd_settings(&self) -> SwdSettings;
}

/// A probe that shifts JTAG instruction and data registers.
pub trait JtagAccess {
    /// Shifts `len` bits of `data` through the data register selected by
    /// instruction `address`; returns the bits shifted out.
    fn write_register(&mut self, address: u32, data: &[u8], len: u32) -> Result<
        Vec<bool>,
        DebugProbeError,
    >;

    /// Reads `len` bits of the data register selected by instruction `address`.
    fn read_register(&mut self, address: u32, len: u32) -> Result<Vec<bool>, DebugProbeError>;

    /// Sets the idle clocks after each data register shift.
    fn set_idle_cycles(&mut self, idle_cycles: u8) -> Result<(), DebugProbeError>;

    /// The idle clocks after each data register shift.
    fn idle_cycles(&self) -> u8;

    /// Clocks out a raw sequence.
    fn shift_raw_sequence(&mut self, sequence: JtagSequence) -> Result<Vec<bool>, DebugProbeError>;
}

} // verus!
