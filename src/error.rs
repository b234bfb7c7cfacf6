//! Wire protocols and the errors of transfers and of the probe transport.

use vstd::prelude::*;

use crate::wlink::WchLinkError;

verus! {

/// The wire protocol over which the debug port is reached.
#[derive(Clone, Copy, Debug, PartialEq, Eq, Structural)]
pub enum WireProtocol {
    Swd,
    Jtag,
}

/// A failure reported by the debug port itself for one transfer.
#[derive(Clone, Copy, Debug, PartialEq, Eq, Structural)]
pub enum DapError {
    /// The target answered WAIT.
    WaitResponse,
    /// The target answered FAULT.
    FaultResponse,
    /// The target did not answer.
    NoAcknowledge,
    /// The data parity bit of a read did not match the data.
    IncorrectParity,
    /// The acknowledge did not conform to the wire protocol.
    Protocol(WireProtocol),
}

/// An error of the probe transport.
#[derive(Clone, Debug, PartialEq, Eq)]
pub enum DebugProbeError {
    /// The probe answered an I/O sequence with fewer bits than it holds.
    IncompleteResponse { expected: usize, received: usize },
    /// No wire protocol has been selected on the probe.
    NoProtocolSelected,
    /// The probe does not support this wire protocol.
    UnsupportedProtocol(WireProtocol),
    /// The probe does not support the named command.
    CommandNotSupportedByProbe { command_name: String },
    /// The named function is not implemented for this probe.
    NotImplemented { function_name: String },
    /// An error of the WCH-Link probe.
    WchLink(WchLinkError),
    /// Any other transport failure, described.
    Transport(String),
}

/// An error of the ARM debug interface: a failed transfer or a transport error.
#[derive(Clone, Debug, PartialEq, Eq)]
pub enum ArmError {
    Dap(DapError),
    Probe(DebugProbeError),
    /// The probe's settings allowed no attempt at the transfer.
    NotPerformed,
}

} // verus!
