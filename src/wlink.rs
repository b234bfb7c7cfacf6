//! The WCH-Link probe: its variants and chip families, and the emulated
//! JTAG DTM that turns data register shifts into DMI operations.

use vstd::prelude::*;
use vstd::string::StringExecFns;

verus! {

/// The instruction that selects BYPASS.
pub const REG_BYPASS_ADDRESS: u8 = 0x1f;

/// The instruction that selects IDCODE.
pub const REG_IDCODE_ADDRESS: u8 = 0x01;

/// The instruction that selects DTMCS.
pub const REG_DTMCS_ADDRESS: u8 = 0x10;

/// The instruction that selects DMI.
pub const REG_DMI_ADDRESS: u8 = 0x11;

/// DTMCS.dmireset.
pub const DTMCS_DMIRESET_MASK: u32 = 0x1_0000;

/// DTMCS.dmihardreset.
pub const DTMCS_DMIHARDRESET_MASK: u32 = 0x2_0000;

/// The DMI operation codes.
pub const DMI_OP_NOP: u64 = 0;

pub const DMI_OP_READ: u64 = 1;

pub const DMI_OP_WRITE: u64 = 2;

/// The IDCODE the probe reports: that of WCH's own debugger.
pub const WCH_IDCODE: u8 = 0x01;

/// The DTMCS the probe reports: abits 7, debug version 1.0.
pub const WCH_DTMCS: u8 = 0x71;

/// The width of the DMI data register: 6 address bits in a field of 8,
/// 32 data bits and 2 operation bits.
pub const DMI_REGISTER_LENGTH: u32 = 41;

/// All WCH-Link probe variants.
#[derive(Clone, Copy, Debug, PartialEq, Eq, Structural)]
pub enum WchLinkVariant {
    /// WCH-Link-CH549, does not support RV32EC
    Ch549,
    /// WCH-LinkE-CH32V305, the full featured version
    ECh32v305,
    /// WCH-LinkS-CH32V203
    SCh32v203,
    /// WCH-LinkW-CH32V208, a wireless version
    WCh32v208,
}

/// The RISC-V chip families the probe supports. The IP core name is "Qingke".
#[derive(Clone, Copy, Debug, PartialEq, Eq, Structural)]
pub enum RiscvChip {
    /// CH32V103 Qingke-V3A series
    CH32V103,
    /// CH571/CH573 Qingke-V3A BLE 4.2 series
    CH57X,
    /// CH565/CH569 Qingke-V3A series
    CH56X,
    /// CH32V20X Qingke-V4B/V4C series
    CH32V20X,
    /// CH32V30X Qingke-V4C/V4F series, the same as CH32V20X
    CH32V30X,
    /// CH58x Qingke-V4A BLE 5.3 series
    CH58X,
    /// CH32V003 Qingke-V2A series
    CH32V003,
    /// RISC-V EC controller, undocumented.
    CH8571,
    /// CH59x Qingke-V4C BLE 5.4 series, fallback as CH58X
    CH59X,
    /// CH643 Qingke-V4C series, RGB Display Driver MCU
    CH643,
    /// CH32X035 Qingke-V4C USB-PD series, fallback as CH643
    CH32X035,
    /// CH32L103 Qingke-V4C low power series, USB-PD
    CH32L103,
    /// CH641 Qingke-V2A series, USB-PD, fallback as CH32V003
    CH641,
}

/// An error of the WCH-Link probe.
#[derive(Clone, Debug, PartialEq, Eq)]
pub enum WchLinkError {
    /// Unknown WCH-Link device.
    UnknownDevice,
    /// The probe's firmware is older than the named minimum version.
    UnsupportedFirmwareVersion(&'static str),
    /// Not enough bytes written.
    NotEnoughBytesWritten { is: usize, should: usize },
    /// Not enough bytes read.
    NotEnoughBytesRead { is: usize, should: usize },
    /// USB endpoint not found.
    EndpointNotFound,
    /// Invalid payload.
    InvalidPayload,
    /// Protocol error.
    Protocol(u8, Vec<u8>),
    /// Unknown chip.
    UnknownChip(u8),
    /// Unsupported operation.
    UnsupportedOperation,
}

/// Factory for WCH-Link probes.
#[derive(Clone, Copy, Debug, PartialEq, Eq, Structural)]
pub struct WchLinkFactory;

/// What the probe reports of itself.
#[derive(Clone, Copy, Debug, PartialEq, Eq, Structural)]
pub struct ProbeInfo {
    pub major_version: u8,
    pub minor_version: u8,
    pub variant: WchLinkVariant,
}

/// One DMI operation of the probe's USB protocol.
#[derive(Clone, Copy, Debug, PartialEq, Eq, Structural)]
pub enum DmiOp {
    Nop,
    Read { addr: u8 },
    Write { addr: u8, data: u32 },
}

/// What a data register shift of the DTM asks of the probe.
#[derive(Clone, Debug, PartialEq, Eq)]
pub enum RegisterWrite {
    /// Answer with these bits.
    Respond(Vec<bool>),
    /// Perform these DMI operations in order, then answer with the bits.
    OpsThenRespond(Vec<DmiOp>, Vec<bool>),
    /// Perform this DMI operation and answer with what `finish_dmi_op`
    /// makes of its response.
    Dmi(DmiOp),
}

/// The state of a WCH-Link probe that its RISC-V debug access keeps.
#[derive(Clone, Debug, PartialEq, Eq)]
pub struct WchLink {
    pub name: String,
    pub variant: WchLinkVariant,
    pub v_major: u8,
    pub v_minor: u8,
    /// Chip family
    pub chip_family: RiscvChip,
    /// Chip id to identify the target chip variant
    pub chip_id: u32,
    /// The response to the last DMI read, which a NOP of address and data
    /// zero returns again.
    pub last_dmi_read: Option<(u8, u32, u8)>,
    pub idle_cycles: u8,
}

impl WchLinkVariant {
    pub open spec fn spec_from_u8(value: u8) -> Option<WchLinkVariant> {
        if value == 1 {
            Some(WchLinkVariant::Ch549)
        } else if value == 2 || value == 0x12 {
            Some(WchLinkVariant::ECh32v305)
        } else if value == 3 {
            Some(WchLinkVariant::SCh32v203)
        } else if value == 5 || value == 0x85 {
            Some(WchLinkVariant::WCh32v208)
        } else {
            None
        }
    }

    pub open spec fn spec_name(&self) -> Seq<char> {
        match self {
            WchLinkVariant::Ch549 => "WCH-Link-CH549"@,
            WchLinkVariant::ECh32v305 => "WCH-LinkE-CH32V305"@,
            WchLinkVariant::SCh32v203 => "WCH-LinkS-CH32V203"@,
            WchLinkVariant::WCh32v208 => "WCH-LinkW-CH32V208"@,
        }
    }

    /// The variant that a probe reports by `value`.
    pub fn try_from_u8(value: u8) -> (r: Result<WchLinkVariant, WchLinkError>)
        ensures
            r matches Ok(v) ==> Self::spec_from_u8(value) == Some(v),
            r is Err ==> Self::spec_from_u8(value) is None && r == Err::<WchLinkVariant, WchLinkError>(
                WchLinkError::UnknownDevice,
            ),
    {
        match value {
            1 => Ok(WchLinkVariant::Ch549),
            2 | 0x12 => Ok(WchLinkVariant::ECh32v305),
            3 => Ok(WchLinkVariant::SCh32v203),
            5 | 0x85 => Ok(WchLinkVariant::WCh32v208),
            _ => Err(WchLinkError::UnknownDevice),
        }
    }

    /// The product name of the variant.
    pub fn name(&self) -> (r: String)
        ensures
            r@ == self.spec_name(),
    {
        match self {
            WchLinkVariant::Ch549 => String::from_str("WCH-Link-CH549"),
            WchLinkVariant::ECh32v305 => String::from_str("WCH-LinkE-CH32V305"),
            WchLinkVariant::SCh32v203 => String::from_str("WCH-LinkS-CH32V203"),
            WchLinkVariant::WCh32v208 => String::from_str("WCH-LinkW-CH32V208"),
        }
    }
}

impl RiscvChip {
    pub open spec fn spec_code(&self) -> u8 {
        match self {
            RiscvChip::CH32V103 => 0x01,
            RiscvChip::CH57X => 0x02,
            RiscvChip::CH56X => 0x03,
            RiscvChip::CH32V20X => 0x05,
            RiscvChip::CH32V30X => 0x06,
            RiscvChip::CH58X => 0x07,
            RiscvChip::CH32V003 => 0x09,
            RiscvChip::CH8571 => 0x0A,
            RiscvChip::CH59X => 0x0B,
            RiscvChip::CH643 => 0x0C,
            RiscvChip::CH32X035 => 0x0D,
            RiscvChip::CH32L103 => 0x0E,
            RiscvChip::CH641 => 0x49,
        }
    }

    /// The code by which the probe names the chip family.
    pub fn code(&self) -> (r: u8)
        ensures
            r == self.spec_code(),
    {
        match self {
            RiscvChip::CH32V103 => 0x01,
            RiscvChip::CH57X => 0x02,
            RiscvChip::CH56X => 0x03,
            RiscvChip::CH32V20X => 0x05,
            RiscvChip::CH32V30X => 0x06,
            RiscvChip::CH58X => 0x07,
            RiscvChip::CH32V003 => 0x09,
            RiscvChip::CH8571 => 0x0A,
            RiscvChip::CH59X => 0x0B,
            RiscvChip::CH643 => 0x0C,
            RiscvChip::CH32X035 => 0x0D,
            RiscvChip::CH32L103 => 0x0E,
            RiscvChip::CH641 => 0x49,
        }
    }

    /// The chip family the probe names by `value`, if any.
    pub fn try_from_u8(value: u8) -> (r: Option<RiscvChip>)
        ensures
            r matches Some(c) ==> c.spec_code() == value,
            r is None ==> forall|c: RiscvChip| c.spec_code() != value,
    {
        match value {
            0x01 => Some(RiscvChip::CH32V103),
            0x02 => Some(RiscvChip::CH57X),
            0x03 => Some(RiscvChip::CH56X),
            0x05 => Some(RiscvChip::CH32V20X),
            0x06 => Some(RiscvChip::CH32V30X),
            0x07 => Some(RiscvChip::CH58X),
            0x09 => Some(RiscvChip::CH32V003),
            0x0A => Some(RiscvChip::CH8571),
            0x0B => Some(RiscvChip::CH59X),
            0x0C => Some(RiscvChip::CH643),
            0x0D => Some(RiscvChip::CH32X035),
            0x0E => Some(RiscvChip::CH32L103),
            0x49 => Some(RiscvChip::CH641),
            _ => None,
        }
    }

    pub open spec fn spec_support_flash_protect(&self) -> bool {
        matches!(
            self,
            RiscvChip::CH32V103 | RiscvChip::CH32V20X | RiscvChip::CH32V30X | RiscvChip::CH32V003
                | RiscvChip::CH643 | RiscvChip::CH32L103 | RiscvChip::CH32X035 | RiscvChip::CH641
        )
    }

    /// Whether the family has flash protection, which attaching checks and lifts.
    pub fn support_flash_protect(&self) -> (r: bool)
        ensures
            r == self.spec_support_flash_protect(),
    {
        matches!(
            self,
            RiscvChip::CH32V103 | RiscvChip::CH32V20X | RiscvChip::CH32V30X | RiscvChip::CH32V003
                | RiscvChip::CH643 | RiscvChip::CH32L103 | RiscvChip::CH32X035 | RiscvChip::CH641
        )
    }
}

impl WchLinkFactory {
    /// The name of the probe kind.
    pub fn name(&self) -> (r: String)
        ensures
            r@ == "WchLink"@,
    {
        String::from_str("WchLink")
    }
}

/// The decimal digits of `n`.
pub open spec fn decimal(n: u8) -> Seq<char> {
    if n >= 100 {
        digit(n / 100) + digit((n / 10) % 10) + digit(n % 10)
    } else if n >= 10 {
        digit(n / 10) + digit(n % 10)
    } else {
        digit(n)
    }
}

/// The decimal digit `d`.
pub open spec fn digit(d: u8) -> Seq<char> {
    if d == 0 {
        "0"@
    } else if d == 1 {
        "1"@
    } else if d == 2 {
        "2"@
    } else if d == 3 {
        "3"@
    } else if d == 4 {
        "4"@
    } else if d == 5 {
        "5"@
    } else if d == 6 {
        "6"@
    } else if d == 7 {
        "7"@
    } else if d == 8 {
        "8"@
    } else {
        "9"@
    }
}

fn append_digit(s: &mut String, d: u8)
    requires
        d < 10,
    ensures
        final(s)@ == old(s)@ + digit(d),
{
    match d {
        0 => s.append("0"),
        1 => s.append("1"),
        2 => s.append("2"),
        3 => s.append("3"),
        4 => s.append("4"),
        5 => s.append("5"),
        6 => s.append("6"),
        7 => s.append("7"),
        8 => s.append("8"),
        _ => s.append("9"),
    }
}

fn append_decimal(s: &mut String, n: u8)
    ensures
        final(s)@ == old(s)@ + decimal(n),
{
    if n >= 100 {
        append_digit(s, n / 100);
        append_digit(s, (n / 10) % 10);
        append_digit(s, n % 10);
        assert(final(s)@ =~= old(s)@ + decimal(n));
    } else if n >= 10 {
        append_digit(s, n / 10);
        append_digit(s, n % 10);
        assert(final(s)@ =~= old(s)@ + decimal(n));
    } else {
        append_digit(s, n);
    }
}

/// The name of a probe of `variant` with firmware `major`.`minor`.
pub open spec fn probe_name(variant: WchLinkVariant, major: u8, minor: u8) -> Seq<char> {
    variant.spec_name() + " v"@ + decimal(major) + "."@ + decimal(minor)
}

/// Whether firmware `major`.`minor` is too old: the check lets every 2.x
/// through, and else asks for a minor version of at least 7.
pub open spec fn firmware_too_old(major: u8, minor: u8) -> bool {
    major != 2 && minor < 7
}

/// The `len` bits of a register holding `byte` in its low eight bits.
pub open spec fn byte_register(byte: u8, len: nat) -> Seq<bool> {
    Seq::new(len, |i: int| i < 8 && (byte >> (i as u8)) & 1 == 1)
}

fn byte_register_bits(byte: u8, len: usize) -> (r: Vec<bool>)
    ensures
        r@ == byte_register(byte, len as nat),
{
    let mut out: Vec<bool> = Vec::new();
    let mut i: usize = 0;
    while i < len
        invariant
            i <= len,
            out@ =~= byte_register(byte, len as nat).take(i as int),
        decreases len - i,
    {
        out.push(i < 8 && (byte >> (i as u8)) & 1 == 1);
        i = i + 1;
    }
    out
}

/// The low 40 bits of the DMI register as shifted in, from its bytes.
pub open spec fn dmi_word(data: Seq<u8>) -> u64 {
    (data[0] as u64) | ((data[1] as u64) << 8u64) | ((data[2] as u64) << 16u64) | ((
    data[3] as u64) << 24u64) | ((data[4] as u64) << 32u64)
}

/// The DMI register as shifted back: address above bit 34, data from bit 2,
/// operation in the low bits, 128 bits in all.
pub open spec fn dmi_response_bits(addr: u8, data: u32, op: u8) -> Seq<bool> {
    let ret: u128 = ((addr as u128) << 34u128) | ((data as u128) << 2u128) | (op as u128);
    Seq::new(128, |i: int| (ret >> (i as u128)) & 1 == 1)
}

/// The little-endian value of four bytes.
pub open spec fn le_u32_of_bytes(data: Seq<u8>) -> u32 {
    (data[0] as u32) | ((data[1] as u32) << 8u32) | ((data[2] as u32) << 16u32) | ((
    data[3] as u32) << 24u32)
}

impl DmiOp {
    /// Whether the operation resumes a hart: a write of 0x4000_0001 to
    /// dmcontrol, after which the probe needs 10 ms.
    pub fn is_resume(&self) -> (r: bool)
        ensures
            r == (*self == DmiOp::Write { addr: 0x10, data: 0x4000_0001 }),
    {
        match self {
            DmiOp::Write { addr, data } => *addr == 0x10 && *data == 0x4000_0001,
            _ => false,
        }
    }
}

/// What a `RegisterWrite` holds, as mathematical values.
pub enum RegisterWriteView {
    Respond(Seq<bool>),
    OpsThenRespond(Seq<DmiOp>, Seq<bool>),
    Dmi(DmiOp),
}

impl View for RegisterWrite {
    type V = RegisterWriteView;

    open spec fn view(&self) -> RegisterWriteView {
        match self {
            RegisterWrite::Respond(bits) => RegisterWriteView::Respond(bits@),
            RegisterWrite::OpsThenRespond(ops, bits) => RegisterWriteView::OpsThenRespond(
                ops@,
                bits@,
            ),
            RegisterWrite::Dmi(op) => RegisterWriteView::Dmi(*op),
        }
    }
}

/// The address, data and operation fields of a DMI register shift.
pub open spec fn dmi_fields(data: Seq<u8>) -> (u8, u32, u64) {
    let w = dmi_word(data);
    (((w >> 34u64) & 0x3f) as u8, ((w >> 2u64) & 0xffff_ffff) as u32, w & 0x3)
}

/// What a write of the DTM data register selected by `address` asks of the
/// probe, whose cached DMI read is `last`.
///
/// A write of DTMCS answers with DTMCS; with dmireset set it first resets
/// the DMI by writing dmcontrol 0 and then 1, and dmihardreset is not
/// supported. A DMI shift performs its operation, except that a NOP of
/// address and data zero answers with the cached read, where there is one.
pub open spec fn register_write_plan(
    last: Option<(u8, u32, u8)>,
    address: u32,
    data: Seq<u8>,
    len: u32,
) -> Result<RegisterWriteView, WchLinkError> {
    if address as u8 == REG_DTMCS_ADDRESS {
        if data.len() != 4 {
            Err(WchLinkError::InvalidPayload)
        } else {
            let val = le_u32_of_bytes(data);
            let dtmcs = byte_register(WCH_DTMCS, len as nat);
            if val & DTMCS_DMIRESET_MASK != 0 {
                Ok(
                    RegisterWriteView::OpsThenRespond(
                        seq![DmiOp::Write { addr: 0x10, data: 0 }, DmiOp::Write { addr: 0x10, data: 1 }],
                        dtmcs,
                    ),
                )
            } else if val & DTMCS_DMIHARDRESET_MASK != 0 {
                Err(WchLinkError::UnsupportedOperation)
            } else {
                Ok(RegisterWriteView::Respond(dtmcs))
            }
        }
    } else if address as u8 == REG_DMI_ADDRESS {
        if len != DMI_REGISTER_LENGTH || data.len() != 16 {
            Err(WchLinkError::InvalidPayload)
        } else {
            let (addr, value, op) = dmi_fields(data);
            if op == DMI_OP_READ {
                Ok(RegisterWriteView::Dmi(DmiOp::Read { addr }))
            } else if op == DMI_OP_NOP {
                if addr == 0 && value == 0 && last is Some {
                    let (a, d, o) = last->Some_0;
                    Ok(RegisterWriteView::Respond(dmi_response_bits(a, d, o)))
                } else {
                    Ok(RegisterWriteView::Dmi(DmiOp::Nop))
                }
            } else if op == DMI_OP_WRITE {
                Ok(RegisterWriteView::Dmi(DmiOp::Write { addr, data: value }))
            } else {
                Err(WchLinkError::InvalidPayload)
            }
        }
    } else {
        Err(WchLinkError::UnsupportedOperation)
    }
}

fn dmi_bits(addr: u8, data: u32, op: u8) -> (r: Vec<bool>)
    ensures
        r@ == dmi_response_bits(addr, data, op),
{
    let ret: u128 = ((addr as u128) << 34u128) | ((data as u128) << 2u128) | (op as u128);
    let mut out: Vec<bool> = Vec::with_capacity(128);
    let mut i: u128 = 0;
    while i < 128
        invariant
            i <= 128,
            ret == ((addr as u128) << 34u128) | ((data as u128) << 2u128) | (op as u128),
            out@ =~= dmi_response_bits(addr, data, op).take(i as int),
        decreases 128 - i,
    {
        out.push((ret >> i) & 1 == 1);
        i = i + 1;
    }
    out
}

impl WchLink {
    /// A probe whose identity is not known yet.
    pub fn new() -> (r: WchLink)
        ensures
            r.name@ == "WCH-Link"@,
            r.variant == WchLinkVariant::Ch549,
            r.v_major == 0 && r.v_minor == 0 && r.chip_id == 0,
            r.chip_family == RiscvChip::CH32V103,
            r.last_dmi_read is None,
            r.idle_cycles == 0,
    {
        WchLink {
            name: String::from_str("WCH-Link"),
            variant: WchLinkVariant::Ch549,
            v_major: 0,
            v_minor: 0,
            chip_family: RiscvChip::CH32V103,
            chip_id: 0,
            last_dmi_read: None,
            idle_cycles: 0,
        }
    }

    /// Takes in what the probe reports of itself; fails where its firmware
    /// is too old.
    pub fn get_probe_info(&mut self, probe_info: ProbeInfo) -> (r: Result<(), WchLinkError>)
        ensures
            final(self).v_major == probe_info.major_version,
            final(self).v_minor == probe_info.minor_version,
            r is Err <==> firmware_too_old(probe_info.major_version, probe_info.minor_version),
            r is Err ==> r == Err::<(), WchLinkError>(WchLinkError::UnsupportedFirmwareVersion("2.7")),
            r is Ok ==> final(self).variant == probe_info.variant,
            r is Err ==> final(self).variant == old(self).variant,
            final(self).name == old(self).name,
            final(self).chip_family == old(self).chip_family,
            final(self).chip_id == old(self).chip_id,
            final(self).last_dmi_read == old(self).last_dmi_read,
            final(self).idle_cycles == old(self).idle_cycles,
    {
        self.v_major = probe_info.major_version;
        self.v_minor = probe_info.minor_version;
        if self.v_major != 0x02 && self.v_minor < 0x07 {
            return Err(WchLinkError::UnsupportedFirmwareVersion("2.7"));
        }
        self.variant = probe_info.variant;
        Ok(())
    }

    /// The first stage of bringing up the probe: takes in what it reports of
    /// itself and names it after its variant and firmware version.
    pub fn init(&mut self, probe_info: ProbeInfo) -> (r: Result<(), WchLinkError>)
        ensures
            r is Err <==> firmware_too_old(probe_info.major_version, probe_info.minor_version),
            final(self).v_major == probe_info.major_version,
            final(self).v_minor == probe_info.minor_version,
            r is Ok ==> final(self).variant == probe_info.variant && final(self).name@ == probe_name(
                probe_info.variant,
                probe_info.major_version,
                probe_info.minor_version,
            ),
    {
        if let Err(e) = self.get_probe_info(probe_info) {
            return Err(e);
        }
        let mut name = self.variant.name();
        name.append(" v");
        append_decimal(&mut name, self.v_major);
        name.append(".");
        append_decimal(&mut name, self.v_minor);
        self.name = name;
        Ok(())
    }

    /// What a write of the emulated DTM's data register selected by
    /// `address` asks of the probe: see `register_write_plan`.
    pub fn write_register(&self, address: u32, data: &[u8], len: u32) -> (r: Result<
        RegisterWrite,
        WchLinkError,
    >)
        ensures
            r matches Ok(w) ==> register_write_plan(self.last_dmi_read, address, data@, len) == Ok::<
                RegisterWriteView,
                WchLinkError,
            >(w@),
            r matches Err(e) ==> register_write_plan(self.last_dmi_read, address, data@, len)
                == Err::<RegisterWriteView, WchLinkError>(e),
    {
        let reg = address as u8;
        if reg == REG_DTMCS_ADDRESS {
            if data.len() != 4 {
                return Err(WchLinkError::InvalidPayload);
            }
            let val = (data[0] as u32) | ((data[1] as u32) << 8u32) | ((data[2] as u32) << 16u32)
                | ((data[3] as u32) << 24u32);
            let dtmcs = byte_register_bits(WCH_DTMCS, len as usize);
            if val & DTMCS_DMIRESET_MASK != 0 {
                // dmcontrol.dmactive is checked later.
                let ops = vec![DmiOp::Write { addr: 0x10, data: 0 }, DmiOp::Write { addr: 0x10, data: 1 }];
                proof {
                    assert(ops@ =~= seq![DmiOp::Write { addr: 0x10, data: 0 }, DmiOp::Write { addr: 0x10, data: 1 }]);
                }
                Ok(RegisterWrite::OpsThenRespond(ops, dtmcs))
            } else if val & DTMCS_DMIHARDRESET_MASK != 0 {
                Err(WchLinkError::UnsupportedOperation)
            } else {
                Ok(RegisterWrite::Respond(dtmcs))
            }
        } else if reg == REG_DMI_ADDRESS {
            if len != DMI_REGISTER_LENGTH || data.len() != 16 {
                return Err(WchLinkError::InvalidPayload);
            }
            let word = (data[0] as u64) | ((data[1] as u64) << 8u64) | ((data[2] as u64) << 16u64)
                | ((data[3] as u64) << 24u64) | ((data[4] as u64) << 32u64);
            let dmi_addr = ((word >> 34u64) & 0x3f) as u8;
            let dmi_value = ((word >> 2u64) & 0xffff_ffff) as u32;
            let dmi_op = word & 0x3;
            if dmi_op == DMI_OP_READ {
                Ok(RegisterWrite::Dmi(DmiOp::Read { addr: dmi_addr }))
            } else if dmi_op == DMI_OP_NOP {
                // A NOP of address and data zero asks for the last read again.
                match self.last_dmi_read {
                    Some((a, d, o)) if dmi_addr == 0 && dmi_value == 0 => Ok(
                        RegisterWrite::Respond(dmi_bits(a, d, o)),
                    ),
                    _ => Ok(RegisterWrite::Dmi(DmiOp::Nop)),
                }
            } else if dmi_op == DMI_OP_WRITE {
                Ok(RegisterWrite::Dmi(DmiOp::Write { addr: dmi_addr, data: dmi_value }))
            } else {
                Err(WchLinkError::InvalidPayload)
            }
        } else {
            Err(WchLinkError::UnsupportedOperation)
        }
    }

    /// The answer to a DMI shift from the response `(addr, data, op)` to its
    /// operation; the response to a read is kept for a later NOP.
    pub fn finish_dmi_op(&mut self, op: DmiOp, response: (u8, u32, u8)) -> (r: Vec<bool>)
        ensures
            r@ == dmi_response_bits(response.0, response.1, response.2),
            final(self).last_dmi_read == if op is Read {
                Some(response)
            } else {
                old(self).last_dmi_read
            },
            final(self).name == old(self).name,
            final(self).variant == old(self).variant,
            final(self).v_major == old(self).v_major,
            final(self).v_minor == old(self).v_minor,
            final(self).chip_family == old(self).chip_family,
            final(self).chip_id == old(self).chip_id,
            final(self).idle_cycles == old(self).idle_cycles,
    {
        if let DmiOp::Read { .. } = op {
            self.last_dmi_read = Some(response);
        }
        let (addr, data, op_code) = response;
        dmi_bits(addr, data, op_code)
    }

    /// Takes in the chip the probe attached to; returns whether its flash
    /// protection has to be checked and lifted.
    pub fn attached(&mut self, chip_family: RiscvChip, chip_id: u32) -> (r: bool)
        ensures
            r == chip_family.spec_support_flash_protect(),
            final(self).chip_family == chip_family,
            final(self).chip_id == chip_id,
            final(self).name == old(self).name,
            final(self).variant == old(self).variant,
            final(self).v_major == old(self).v_major,
            final(self).v_minor == old(self).v_minor,
            final(self).last_dmi_read == old(self).last_dmi_read,
            final(self).idle_cycles == old(self).idle_cycles,
    {
        self.chip_family = chip_family;
        self.chip_id = chip_id;
        self.chip_family.support_flash_protect()
    }

    /// Reads a register of the emulated DTM: IDCODE, DTMCS or BYPASS.
    pub fn read_register(&self, address: u32, len: u32) -> (r: Result<Vec<bool>, WchLinkError>)
        ensures
            r matches Ok(bits) ==> ((address as u8 == REG_IDCODE_ADDRESS && len == 32 && bits@
                == byte_register(WCH_IDCODE, 32)) || (address as u8 == REG_DTMCS_ADDRESS && len == 32
                && bits@ == byte_register(WCH_DTMCS, 32)) || (address as u8 == REG_BYPASS_ADDRESS
                && len == 32 && bits@ == byte_register(0, 4))),
            r is Err <==> !(len == 32 && (address as u8 == REG_IDCODE_ADDRESS || address as u8
                == REG_DTMCS_ADDRESS || address as u8 == REG_BYPASS_ADDRESS)),
            r is Err ==> r == Err::<Vec<bool>, WchLinkError>(WchLinkError::UnsupportedOperation),
    {
        if len != 32 {
            return Err(WchLinkError::UnsupportedOperation);
        }
        let reg = address as u8;
        if reg == REG_IDCODE_ADDRESS {
            // The same IDCODE as WCH's own debugger reports.
            Ok(byte_register_bits(WCH_IDCODE, 32))
        } else if reg == REG_DTMCS_ADDRESS {
            Ok(byte_register_bits(WCH_DTMCS, 32))
        } else if reg == REG_BYPASS_ADDRESS {
            Ok(byte_register_bits(0, 4))
        } else {
            Err(WchLinkError::UnsupportedOperation)
        }
    }
}

} // verus!
