//! Debug access port register addresses, and the ABORT and CTRL/STAT bits.

use vstd::prelude::*;

verus! {

/// The address of a debug port register: its offset, and the bank that
/// SELECT must hold for it, if any.
#[derive(Clone, Copy, Debug, PartialEq, Eq, Structural)]
pub struct DpRegisterAddress {
    pub address: u8,
    pub bank: Option<u8>,
}

/// The address of an access port register.
#[derive(Clone, Copy, Debug, PartialEq, Eq, Structural)]
pub enum ApAddress {
    /// An ADIv5 register offset.
    V1(u8),
    /// An ADIv6 register address.
    V2(u64),
}

/// The address of a register of the debug access port.
#[derive(Clone, Copy, Debug, PartialEq, Eq, Structural)]
pub enum RegisterAddress {
    DpRegister(DpRegisterAddress),
    ApRegister(u64),
}

/// Offset of ABORT; a read at the same offset reads DPIDR.
pub const ABORT_OFFSET: u8 = 0x0;

/// Offset of CTRL/STAT.
pub const CTRL_OFFSET: u8 = 0x4;

/// Offset of RDBUFF.
pub const RDBUFF_OFFSET: u8 = 0xC;

/// ABORT.DAPABORT: aborts the current access port transaction.
pub const ABORT_DAPABORT: u32 = 0x01;

/// ABORT.STKCMPCLR: clears CTRL/STAT.STICKYCMP.
pub const ABORT_STKCMPCLR: u32 = 0x02;

/// ABORT.STKERRCLR: clears CTRL/STAT.STICKYERR.
pub const ABORT_STKERRCLR: u32 = 0x04;

/// ABORT.WDERRCLR: clears CTRL/STAT.WDATAERR.
pub const ABORT_WDERRCLR: u32 = 0x08;

/// ABORT.ORUNERRCLR: clears CTRL/STAT.STICKYORUN.
pub const ABORT_ORUNERRCLR: u32 = 0x10;

/// CTRL/STAT.STICKYORUN: an overrun was detected.
pub const CTRL_STICKYORUN: u32 = 0x02;

/// CTRL/STAT.STICKYCMP: a match occurred in a pushed operation.
pub const CTRL_STICKYCMP: u32 = 0x10;

/// CTRL/STAT.STICKYERR: an access port transaction failed.
pub const CTRL_STICKYERR: u32 = 0x20;

/// CTRL/STAT.WDATAERR: a write data parity or framing error.
pub const CTRL_WDATAERR: u32 = 0x80;

/// The ABORT value that clears the sticky overrun and sticky error flags.
pub const ABORT_CLEAR_STICKY: u32 = 0x14;

impl DpRegisterAddress {
    pub open spec fn spec_abort() -> DpRegisterAddress {
        DpRegisterAddress { address: ABORT_OFFSET, bank: None }
    }

    pub open spec fn spec_dpidr() -> DpRegisterAddress {
        DpRegisterAddress { address: ABORT_OFFSET, bank: None }
    }

    pub open spec fn spec_ctrl() -> DpRegisterAddress {
        DpRegisterAddress { address: CTRL_OFFSET, bank: Some(0) }
    }

    pub open spec fn spec_rdbuff() -> DpRegisterAddress {
        DpRegisterAddress { address: RDBUFF_OFFSET, bank: None }
    }

    /// ABORT, written to clear sticky flags or abort a transaction.
    #[verifier::when_used_as_spec(spec_abort)]
    pub fn abort() -> (r: DpRegisterAddress)
        ensures
            r == Self::spec_abort(),
    {
        DpRegisterAddress { address: ABORT_OFFSET, bank: None }
    }

    /// DPIDR, the identification register, read at the offset of ABORT.
    #[verifier::when_used_as_spec(spec_dpidr)]
    pub fn dpidr() -> (r: DpRegisterAddress)
        ensures
            r == Self::spec_dpidr(),
    {
        DpRegisterAddress { address: ABORT_OFFSET, bank: None }
    }

    /// CTRL/STAT, which holds the sticky error flags.
    #[verifier::when_used_as_spec(spec_ctrl)]
    pub fn ctrl() -> (r: DpRegisterAddress)
        ensures
            r == Self::spec_ctrl(),
    {
        DpRegisterAddress { address: CTRL_OFFSET, bank: Some(0) }
    }

    /// RDBUFF, whose read returns the result of the previous access port read.
    #[verifier::when_used_as_spec(spec_rdbuff)]
    pub fn rdbuff() -> (r: DpRegisterAddress)
        ensures
            r == Self::spec_rdbuff(),
    {
        DpRegisterAddress { address: RDBUFF_OFFSET, bank: None }
    }
}

impl RegisterAddress {
    /// The low byte of the register address.
    pub open spec fn spec_lsb(&self) -> u8 {
        match self {
            RegisterAddress::DpRegister(d) => d.address,
            RegisterAddress::ApRegister(a) => (a & 0xff) as u8,
        }
    }

    pub open spec fn spec_is_ap(&self) -> bool {
        self is ApRegister
    }

    pub open spec fn spec_a2(&self) -> bool {
        (self.spec_lsb() >> 2u8) & 1 == 1
    }

    pub open spec fn spec_a3(&self) -> bool {
        (self.spec_lsb() >> 3u8) & 1 == 1
    }

    pub open spec fn spec_a2_and_3(&self) -> u8 {
        self.spec_lsb() & 0x0c
    }

    #[verifier::when_used_as_spec(spec_lsb)]
    pub fn lsb(&self) -> (r: u8)
        ensures
            r == self.spec_lsb(),
    {
        match self {
            RegisterAddress::DpRegister(d) => d.address,
            RegisterAddress::ApRegister(a) => (*a & 0xff) as u8,
        }
    }

    /// Whether the register belongs to an access port.
    #[verifier::when_used_as_spec(spec_is_ap)]
    pub fn is_ap(&self) -> (r: bool)
        ensures
            r == self.spec_is_ap(),
    {
        match self {
            RegisterAddress::DpRegister(_) => false,
            RegisterAddress::ApRegister(_) => true,
        }
    }

    /// Address bit 2.
    #[verifier::when_used_as_spec(spec_a2)]
    pub fn a2(&self) -> (r: bool)
        ensures
            r == self.spec_a2(),
    {
        (self.lsb() >> 2u8) & 1 == 1
    }

    /// Address bit 3.
    #[verifier::when_used_as_spec(spec_a3)]
    pub fn a3(&self) -> (r: bool)
        ensures
            r == self.spec_a3(),
    {
        (self.lsb() >> 3u8) & 1 == 1
    }

    /// Address bits 2 and 3, in place.
    #[verifier::when_used_as_spec(spec_a2_and_3)]
    pub fn a2_and_3(&self) -> (r: u8)
        ensures
            r == self.spec_a2_and_3(),
    {
        self.lsb() & 0x0c
    }
}

impl From<DpRegisterAddress> for RegisterAddress {
    fn from(address: DpRegisterAddress) -> (r: RegisterAddress) {
        RegisterAddress::DpRegister(address)
    }
}

impl vstd::std_specs::convert::FromSpecImpl<DpRegisterAddress> for RegisterAddress {
    open spec fn obeys_from_spec() -> bool {
        true
    }

    open spec fn from_spec(v: DpRegisterAddress) -> RegisterAddress {
        RegisterAddress::DpRegister(v)
    }
}

impl From<ApAddress> for RegisterAddress {
    fn from(address: ApAddress) -> (r: RegisterAddress) {
        match address {
            ApAddress::V1(a) => RegisterAddress::ApRegister(a as u64),
            ApAddress::V2(a) => RegisterAddress::ApRegister(a),
        }
    }
}

impl vstd::std_specs::convert::FromSpecImpl<ApAddress> for RegisterAddress {
    open spec fn obeys_from_spec() -> bool {
        true
    }

    open spec fn from_spec(v: ApAddress) -> RegisterAddress {
        match v {
            ApAddress::V1(a) => RegisterAddress::ApRegister(a as u64),
            ApAddress::V2(a) => RegisterAddress::ApRegister(a),
        }
    }
}

/// The CTRL/STAT flags that an ABORT write of value `abort` clears.
pub open spec fn flags_cleared_by(abort: u32) -> u32 {
    (if abort & ABORT_STKCMPCLR != 0 { CTRL_STICKYCMP } else { 0u32 })
        | (if abort & ABORT_STKERRCLR != 0 { CTRL_STICKYERR } else { 0u32 })
        | (if abort & ABORT_WDERRCLR != 0 { CTRL_WDATAERR } else { 0u32 })
        | (if abort & ABORT_ORUNERRCLR != 0 { CTRL_STICKYORUN } else { 0u32 })
}

/// CTRL/STAT after an ABORT write of value `abort`.
pub open spec fn ctrl_after_abort(ctrl: u32, abort: u32) -> u32 {
    ctrl & !flags_cleared_by(abort)
}

/// Whether a CTRL/STAT value has the sticky error flag set.
pub fn sticky_err(ctrl: u32) -> (r: bool)
    ensures
        r == (ctrl & CTRL_STICKYERR != 0),
{
    ctrl & CTRL_STICKYERR != 0
}

/// Whether a CTRL/STAT value has the sticky overrun flag set.
pub fn sticky_orun(ctrl: u32) -> (r: bool)
    ensures
        r == (ctrl & CTRL_STICKYORUN != 0),
{
    ctrl & CTRL_STICKYORUN != 0
}

} // verus!
