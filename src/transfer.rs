//! The record of one transfer, and its JTAG encoding.

use vstd::prelude::*;

use crate::bits::{le_u64, load_le_u64, u64_le_bytes};
use crate::error::DapError;
use crate::registers::{DpRegisterAddress, RegisterAddress};
use crate::sequence::{build_swd_transfer, swd_frame, IoSequence, IoSequenceItem};

verus! {

/// The payload of a JTAG ABORT write.
pub const JTAG_ABORT_VALUE: u64 = 0x8;

/// The JTAG instruction that selects ABORT.
pub const JTAG_ABORT_IR_VALUE: u32 = 0x8;

/// The JTAG instruction that selects DPACC.
pub const JTAG_DEBUG_PORT_IR_VALUE: u32 = 0xA;

/// The JTAG instruction that selects APACC.
pub const JTAG_ACCESS_PORT_IR_VALUE: u32 = 0xB;

/// The JTAG acknowledge for WAIT.
pub const JTAG_STATUS_WAIT: u64 = 0x1;

/// The JTAG acknowledge for OK/FAULT.
pub const JTAG_STATUS_OK: u64 = 0x2;

/// The width of the DPACC and APACC data registers.
pub const JTAG_DR_BIT_LENGTH: u32 = 35;

/// The direction of a transfer.
#[derive(Clone, Copy, Debug, PartialEq, Eq, Structural)]
pub enum TransferDirection {
    Read,
    Write,
}

/// The direction of a transfer, with the value of a write.
#[derive(Clone, Copy, Debug, PartialEq, Eq, Structural)]
pub enum TransferType {
    Read,
    Write(u32),
}

/// The state of a transfer: not yet performed, acknowledged, or failed.
#[derive(Clone, Copy, Debug, PartialEq, Eq, Structural)]
pub enum TransferStatus {
    Pending,
    /// Acknowledged with OK (which, on JTAG, also stands for FAULT).
    Okay,
    Failed(DapError),
}

/// One operation on a register of the debug access port.
#[derive(Clone, Copy, Debug, PartialEq, Eq, Structural)]
pub struct DapTransfer {
    pub address: RegisterAddress,
    pub direction: TransferDirection,
    /// The value to write, or the value read once the status is `Ok`.
    pub value: u32,
    pub status: TransferStatus,
    /// Idle cycles to clock after the transfer.
    pub idle_cycles_after: usize,
}

/// A result taken from the response of one JTAG data register shift.
#[derive(Clone, Copy, Debug, PartialEq, Eq, Structural)]
pub enum CommandResult {
    Empty,
    U32(u32),
}

/// One JTAG data register shift: the instruction to select, and the bits
/// to shift in, least significant bit of the first byte first.
#[derive(Clone, Debug, PartialEq, Eq)]
pub struct JtagWriteCommand {
    pub address: u32,
    pub data: Vec<u8>,
    pub len: u32,
}

impl TransferDirection {
    pub open spec fn spec_swd_response_length(&self) -> usize {
        46
    }

    /// The number of bits of an SWD transfer in this direction, from the
    /// start bit to the last bit before the idle cycles.
    #[verifier::when_used_as_spec(spec_swd_response_length)]
    pub fn swd_response_length(&self) -> (r: usize)
        ensures
            r == self.spec_swd_response_length(),
    {
        match self {
            TransferDirection::Read => 8 + 3 + 32 + 1 + 2,
            TransferDirection::Write => 8 + 3 + 2 + 32 + 1,
        }
    }
}

impl DapTransfer {
    pub open spec fn spec_is_write(&self) -> bool {
        self.direction == TransferDirection::Write
    }

    pub open spec fn spec_is_ap_read(&self) -> bool {
        self.address.spec_is_ap() && self.direction == TransferDirection::Read
    }

    pub open spec fn spec_is_ap_write(&self) -> bool {
        self.address.spec_is_ap() && self.direction == TransferDirection::Write
    }

    pub open spec fn spec_is_abort(&self) -> bool {
        self.address == RegisterAddress::DpRegister(DpRegisterAddress::spec_abort())
            && self.direction == TransferDirection::Write
    }

    pub open spec fn spec_is_rdbuff(&self) -> bool {
        self.address == RegisterAddress::DpRegister(DpRegisterAddress::spec_rdbuff())
            && self.direction == TransferDirection::Read
    }

    pub open spec fn spec_must_not_stall(&self) -> bool {
        self.spec_is_abort() || (self.direction == TransferDirection::Read && (self.address
            == RegisterAddress::DpRegister(DpRegisterAddress::spec_dpidr()) || self.address
            == RegisterAddress::DpRegister(DpRegisterAddress::spec_ctrl())))
    }

    pub open spec fn spec_transfer_type(&self) -> TransferType {
        match self.direction {
            TransferDirection::Read => TransferType::Read,
            TransferDirection::Write => TransferType::Write(self.value),
        }
    }

    pub open spec fn spec_read(address: RegisterAddress) -> DapTransfer {
        DapTransfer {
            address,
            direction: TransferDirection::Read,
            value: 0,
            status: TransferStatus::Pending,
            idle_cycles_after: 0,
        }
    }

    pub open spec fn spec_write(address: RegisterAddress, value: u32) -> DapTransfer {
        DapTransfer {
            address,
            direction: TransferDirection::Write,
            value,
            status: TransferStatus::Pending,
            idle_cycles_after: 0,
        }
    }

    /// A pending read of `address`.
    #[verifier::when_used_as_spec(spec_read)]
    pub fn read(address: RegisterAddress) -> (r: DapTransfer)
        ensures
            r == Self::spec_read(address),
    {
        DapTransfer {
            address,
            direction: TransferDirection::Read,
            value: 0,
            status: TransferStatus::Pending,
            idle_cycles_after: 0,
        }
    }

    /// A pending write of `value` to `address`.
    #[verifier::when_used_as_spec(spec_write)]
    pub fn write(address: RegisterAddress, value: u32) -> (r: DapTransfer)
        ensures
            r == Self::spec_write(address, value),
    {
        DapTransfer {
            address,
            value,
            direction: TransferDirection::Write,
            status: TransferStatus::Pending,
            idle_cycles_after: 0,
        }
    }

    #[verifier::when_used_as_spec(spec_transfer_type)]
    pub fn transfer_type(&self) -> (r: TransferType)
        ensures
            r == self.spec_transfer_type(),
    {
        match self.direction {
            TransferDirection::Read => TransferType::Read,
            TransferDirection::Write => TransferType::Write(self.value),
        }
    }

    /// The SWD frame of this transfer followed by its idle cycles.
    pub fn io_sequence(&self) -> (r: IoSequence)
        ensures
            r@ == swd_frame(self.address, self.spec_transfer_type()) + Seq::new(
                self.idle_cycles_after as nat,
                |i: int| IoSequenceItem::Output(false),
            ),
    {
        let mut seq = build_swd_transfer(&self.address, self.transfer_type());
        let ghost frame = seq@;
        seq.reserve(self.idle_cycles_after);
        let mut i: usize = 0;
        while i < self.idle_cycles_after
            invariant
                i <= self.idle_cycles_after,
                seq@ =~= frame + Seq::new(i as nat, |k: int| IoSequenceItem::Output(false)),
            decreases self.idle_cycles_after - i,
        {
            seq.add_output(false);
            i = i + 1;
        }
        seq
    }

    /// The JTAG data register shift that performs this transfer.
    pub fn jtag_write(&self) -> (r: JtagWriteCommand)
        ensures
            r.address == jtag_payload_and_address(*self).1,
            r.data@ == u64_le_bytes_spec(jtag_payload_and_address(*self).0),
            r.len == JTAG_DR_BIT_LENGTH,
    {
        let (payload, address) = build_jtag_payload_and_address(self);
        JtagWriteCommand { address, data: u64_le_bytes(payload), len: JTAG_DR_BIT_LENGTH }
    }

    #[verifier::when_used_as_spec(spec_is_ap_read)]
    pub fn is_ap_read(&self) -> (r: bool)
        ensures
            r == self.spec_is_ap_read(),
    {
        self.address.is_ap() && self.direction == TransferDirection::Read
    }

    #[verifier::when_used_as_spec(spec_is_ap_write)]
    pub fn is_ap_write(&self) -> (r: bool)
        ensures
            r == self.spec_is_ap_write(),
    {
        self.address.is_ap() && self.direction == TransferDirection::Write
    }

    #[verifier::when_used_as_spec(spec_is_write)]
    pub fn is_write(&self) -> (r: bool)
        ensures
            r == self.spec_is_write(),
    {
        self.direction == TransferDirection::Write
    }

    /// Whether this is a write of ABORT.
    #[verifier::when_used_as_spec(spec_is_abort)]
    pub fn is_abort(&self) -> (r: bool)
        ensures
            r == self.spec_is_abort(),
    {
        self.address == RegisterAddress::DpRegister(DpRegisterAddress::abort())
            && self.direction == TransferDirection::Write
    }

    /// Whether this is a read of RDBUFF.
    #[verifier::when_used_as_spec(spec_is_rdbuff)]
    pub fn is_rdbuff(&self) -> (r: bool)
        ensures
            r == self.spec_is_rdbuff(),
    {
        self.address == RegisterAddress::DpRegister(DpRegisterAddress::rdbuff())
            && self.direction == TransferDirection::Read
    }

    /// The number of response bits of this transfer, idle cycles included.
    pub fn swd_response_length(&self) -> (r: usize)
        requires
            self.idle_cycles_after <= usize::MAX - 46,
        ensures
            r == 46 + self.idle_cycles_after,
    {
        self.direction.swd_response_length() + self.idle_cycles_after
    }

    /// Whether the target may not stall this request behind a buffered
    /// write: an ABORT write, a DPIDR read or a CTRL/STAT read.
    #[verifier::when_used_as_spec(spec_must_not_stall)]
    pub fn must_not_stall(&self) -> (r: bool)
        ensures
            r == self.spec_must_not_stall(),
    {
        let abort_write = self.is_abort();
        let dpidr_read = self.address == RegisterAddress::DpRegister(DpRegisterAddress::dpidr())
            && self.direction == TransferDirection::Read;
        let ctrl_stat_read = self.address == RegisterAddress::DpRegister(DpRegisterAddress::ctrl())
            && self.direction == TransferDirection::Read;
        abort_write || dpidr_read || ctrl_stat_read
    }
}

/// `b` asks for the same operation as `a`: address, direction and, for a
/// write, value.
pub open spec fn same_request(a: DapTransfer, b: DapTransfer) -> bool {
    &&& a.address == b.address
    &&& a.direction == b.direction
    &&& (a.direction == TransferDirection::Write ==> a.value == b.value)
}

/// Whether a transfer has been given a final status.
pub open spec fn is_done(t: DapTransfer) -> bool {
    !(t.status is Pending)
}

/// `after` is `before` performed: the same operations, each with a final
/// status, and the same idle cycles.
pub open spec fn performed(before: Seq<DapTransfer>, after: Seq<DapTransfer>) -> bool {
    &&& after.len() == before.len()
    &&& forall|i: int|
        0 <= i < before.len() ==> same_request(before[i], #[trigger] after[i]) && is_done(after[i])
            && after[i].idle_cycles_after == before[i].idle_cycles_after
}

/// The little-endian bytes of `x`.
pub open spec fn u64_le_bytes_spec(x: u64) -> Seq<u8> {
    Seq::new(8, |i: int| ((x >> (8 * i) as u64) & 0xff) as u8)
}

/// The 35-bit data register payload of a transfer, and the instruction
/// that selects its register.
pub open spec fn jtag_payload_and_address(t: DapTransfer) -> (u64, u32) {
    if t.spec_is_abort() {
        (JTAG_ABORT_VALUE, JTAG_ABORT_IR_VALUE)
    } else {
        let a = t.address.spec_a2_and_3() as u64;
        (
            ((t.value as u64) << 3u64) | ((a & 0x8) >> 1u64) | ((a & 0x4) >> 1u64) | (if t.direction
                == TransferDirection::Read {
                1u64
            } else {
                0u64
            }),
            if t.address.spec_is_ap() {
                JTAG_ACCESS_PORT_IR_VALUE
            } else {
                JTAG_DEBUG_PORT_IR_VALUE
            },
        )
    }
}

/// The JTAG payload of a transfer, and the instruction that selects its register.
pub fn build_jtag_payload_and_address(transfer: &DapTransfer) -> (r: (u64, u32))
    ensures
        r == jtag_payload_and_address(*transfer),
{
    if transfer.is_abort() {
        (JTAG_ABORT_VALUE, JTAG_ABORT_IR_VALUE)
    } else {
        let address = if transfer.address.is_ap() {
            JTAG_ACCESS_PORT_IR_VALUE
        } else {
            JTAG_DEBUG_PORT_IR_VALUE
        };
        let port_address = transfer.address.a2_and_3() as u64;
        let mut payload: u64 = 0;
        // 32-bit value, bits 34:3
        payload = payload | ((transfer.value as u64) << 3u64);
        // A[3:2], bits 2:1
        payload = payload | ((port_address & 0x8) >> 1u64);
        payload = payload | ((port_address & 0x4) >> 1u64);
        // RnW, bit 0
        payload = payload | (if transfer.direction == TransferDirection::Read {
            1u64
        } else {
            0u64
        });
        proof {
            let v = transfer.value as u64;
            let c: u64 = if transfer.direction == TransferDirection::Read {
                1u64
            } else {
                0u64
            };
            assert(((((0u64 | (v << 3u64)) | ((port_address & 0x8) >> 1u64)) | ((port_address
                & 0x4) >> 1u64)) | c) == ((v << 3u64) | ((port_address & 0x8) >> 1u64) | ((
            port_address & 0x4) >> 1u64) | c)) by (bit_vector);
        }
        (payload, address)
    }
}

/// The JTAG payload law: the value, the address bits and the direction of a
/// transfer other than an ABORT write are recovered from its 35-bit payload.
pub proof fn jtag_payload_round_trip(t: DapTransfer)
    requires
        !t.spec_is_abort(),
    ensures
        (jtag_payload_and_address(t).0 >> 3u64) as u32 == t.value,
        ((jtag_payload_and_address(t).0 & 0x6) << 1u64) == t.address.spec_a2_and_3() as u64,
        (jtag_payload_and_address(t).0 & 1 == 1) == (t.direction == TransferDirection::Read),
        jtag_payload_and_address(t).0 < 0x8_0000_0000,
{
    let a8 = t.address.spec_lsb();
    let a = (a8 & 0x0c) as u64;
    assert(a == t.address.spec_a2_and_3() as u64);
    let v = t.value as u64;
    let c: u64 = if t.direction == TransferDirection::Read {
        1u64
    } else {
        0u64
    };
    let p = (v << 3u64) | ((a & 0x8) >> 1u64) | ((a & 0x4) >> 1u64) | c;
    assert(a <= 0xff);
    assert(v <= 0xffff_ffff);
    assert((p >> 3u64) as u32 == v as u32 && ((p & 0x6) << 1u64) == a & 0xc && p < 0x8_0000_0000
        && (p & 1 == 1) == (c == 1)) by (bit_vector)
        requires
            p == (v << 3u64) | ((a & 0x8) >> 1u64) | ((a & 0x4) >> 1u64) | c,
            c <= 1,
            v <= 0xffff_ffff,
            a <= 0xff,
    ;
    assert(a & 0xc == a) by (bit_vector)
        requires
            a == (a8 & 0x0c) as u64,
    ;
}

/// The 64-bit word of a JTAG response: its first 64 bits, least significant first.
pub open spec fn jtag_word(data: Seq<bool>) -> u64 {
    le_u64(data.take(if data.len() < 64 { data.len() as int } else { 64 }))
}

/// The word of a JTAG data register response.
pub fn parse_jtag_response(data: &[bool]) -> (r: u64)
    ensures
        r == jtag_word(data@),
{
    load_le_u64(data)
}

/// The status of a transfer from the acknowledge bits of a JTAG response word.
pub open spec fn jtag_status(word: u64) -> TransferStatus {
    if word & 0x7 == JTAG_STATUS_WAIT {
        TransferStatus::Failed(DapError::WaitResponse)
    } else if word & 0x7 == JTAG_STATUS_OK {
        TransferStatus::Okay
    } else {
        TransferStatus::Failed(DapError::NoAcknowledge)
    }
}

/// The result of a JTAG shift of the command with instruction `address`,
/// from the bits it returned.
pub open spec fn jtag_transform(address: u32, response: Seq<bool>) -> Result<CommandResult, DapError> {
    if address == JTAG_ABORT_IR_VALUE {
        Ok(CommandResult::Empty)
    } else {
        let word = jtag_word(response);
        match jtag_status(word) {
            TransferStatus::Failed(e) => Err(e),
            _ => Ok(CommandResult::U32((word >> 3u64) as u32)),
        }
    }
}

/// The status of a JTAG response word, and the value it carries.
pub fn decode_jtag_status(word: u64) -> (r: (u32, TransferStatus))
    ensures
        r.0 == (word >> 3u64) as u32,
        r.1 == jtag_status(word),
{
    let received_value = (word >> 3u64) as u32;
    let status = word & 0x7;
    let transfer_status = if status == JTAG_STATUS_WAIT {
        TransferStatus::Failed(DapError::WaitResponse)
    } else if status == JTAG_STATUS_OK {
        TransferStatus::Okay
    } else {
        TransferStatus::Failed(DapError::NoAcknowledge)
    };
    (received_value, transfer_status)
}

impl JtagWriteCommand {
    /// The result of this command from the bits its shift returned: nothing
    /// for an ABORT, the carried value on OK, and the failure otherwise.
    pub fn transform(&self, response: &[bool]) -> (r: Result<CommandResult, DapError>)
        ensures
            r == jtag_transform(self.address, response@),
    {
        if self.address == JTAG_ABORT_IR_VALUE {
            return Ok(CommandResult::Empty);
        }
        let received = parse_jtag_response(response);
        let (value, status) = decode_jtag_status(received);
        match status {
            TransferStatus::Failed(e) => Err(e),
            _ => Ok(CommandResult::U32(value)),
        }
    }
}

} // verus!
