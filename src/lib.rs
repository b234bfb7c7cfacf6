//! ARM debug interface (ADIv5) transfer engine for bit-banging SWD and JTAG
//! probes, and the DMI shim of the WCH-Link RISC-V probe.

pub mod access;
pub mod bits;
pub mod error;
pub mod jtag;
pub mod planner;
pub mod probe;
pub mod registers;
pub mod retry;
pub mod sequence;
pub mod swd;
pub mod transfer;
pub mod wlink;
