//! SWDIO clock sequences, the SWD frame of a transfer, and the parsing of
//! its response.

use vstd::prelude::*;

use crate::bits::{
    bits_to_byte, bytes_bits, le_u32, lemma_le_u32_of_bits, lemma_ones_flip,
    lemma_popcount_le_u32, parity, parity_of, popcount, u32_bits,
};
use crate::error::{DapError, WireProtocol};
use crate::registers::RegisterAddress;
use crate::transfer::{TransferDirection, TransferType};

verus! {

/// One clock of the SWDIO line: the probe drives the bit, or samples the line.
#[derive(Clone, Copy, Debug, PartialEq, Eq, Structural)]
pub enum IoSequenceItem {
    Output(bool),
    Input,
}

/// A sequence of SWDIO clocks.
pub struct IoSequence {
    io: Vec<IoSequenceItem>,
}

/// A sequence of driven bits only.
pub struct OutSequence {
    bits: Vec<bool>,
}

impl View for IoSequence {
    type V = Seq<IoSequenceItem>;

    closed spec fn view(&self) -> Seq<IoSequenceItem> {
        self.io@
    }
}

impl View for OutSequence {
    type V = Seq<bool>;

    closed spec fn view(&self) -> Seq<bool> {
        self.bits@
    }
}

/// Each bit of `s` driven.
pub open spec fn outputs(s: Seq<bool>) -> Seq<IoSequenceItem> {
    s.map_values(|b: bool| IoSequenceItem::Output(b))
}

/// `n` sampled clocks.
pub open spec fn inputs(n: nat) -> Seq<IoSequenceItem> {
    Seq::new(n, |i: int| IoSequenceItem::Input)
}

impl IoSequence {
    pub fn new() -> (r: IoSequence)
        ensures
            r@ == Seq::<IoSequenceItem>::empty(),
    {
        IoSequence { io: Vec::new() }
    }

    pub fn with_capacity(capacity: usize) -> (r: IoSequence)
        ensures
            r@ == Seq::<IoSequenceItem>::empty(),
    {
        IoSequence { io: Vec::with_capacity(capacity) }
    }

    /// Makes room for `additional` more clocks; the sequence is unchanged.
    pub fn reserve(&mut self, additional: usize)
        ensures
            final(self)@ == old(self)@,
    {
        self.io.reserve(additional);
    }

    pub fn add_output(&mut self, bit: bool)
        ensures
            final(self)@ == old(self)@.push(IoSequenceItem::Output(bit)),
    {
        self.io.push(IoSequenceItem::Output(bit));
    }

    pub fn add_input(&mut self)
        ensures
            final(self)@ == old(self)@.push(IoSequenceItem::Input),
    {
        self.io.push(IoSequenceItem::Input);
    }

    pub fn add_input_sequence(&mut self, length: usize)
        ensures
            final(self)@ == old(self)@ + inputs(length as nat),
    {
        let ghost start = self@;
        let mut i: usize = 0;
        while i < length
            invariant
                i <= length,
                self@ =~= start + inputs(i as nat),
            decreases length - i,
        {
            self.add_input();
            i = i + 1;
        }
    }

    /// The clocks of the sequence.
    pub fn io_items(&self) -> (r: &[IoSequenceItem])
        ensures
            r@ == self@,
    {
        self.io.as_slice()
    }

    /// Appends the clocks of `other`.
    pub fn extend(&mut self, other: &IoSequence)
        ensures
            final(self)@ == old(self)@ + other@,
    {
        self.io.extend_from_slice(other.io.as_slice());
        proof {
            assert(self@ =~= old(self)@ + other@);
        }
    }
}

impl OutSequence {
    pub fn new() -> (r: OutSequence)
        ensures
            r@ == Seq::<bool>::empty(),
    {
        OutSequence { bits: Vec::new() }
    }

    /// The first `bits` bits of `data`, each byte least significant bit
    /// first; all of them where `data` holds fewer.
    pub fn from_bytes(data: &[u8], bits: usize) -> (r: OutSequence)
        ensures
            r@ == bytes_bits(
                data@,
                if bits <= 8 * data@.len() { bits as nat } else { 8 * data@.len() },
            ),
    {
        let n: usize = if bits / 8 < data.len() {
            bits
        } else {
            8 * data.len()
        };
        let mut this = OutSequence::new();
        let mut i: usize = 0;
        while i < n
            invariant
                i <= n,
                n <= 8 * data@.len(),
                this@ =~= bytes_bits(data@, n as nat).take(i as int),
            decreases n - i,
        {
            let byte = data[i / 8];
            this.add_output((byte >> ((i % 8) as u8)) & 1 == 1);
            i = i + 1;
        }
        assert(bytes_bits(data@, n as nat).take(n as int) =~= bytes_bits(data@, n as nat));
        this
    }

    pub fn add_output(&mut self, bit: bool)
        ensures
            final(self)@ == old(self)@.push(bit),
    {
        self.bits.push(bit);
    }

    pub fn len(&self) -> (r: usize)
        ensures
            r == self@.len(),
    {
        self.bits.len()
    }

    pub fn bits(&self) -> (r: &[bool])
        ensures
            r@ == self@,
    {
        self.bits.as_slice()
    }

    /// The bits as driven clocks.
    pub fn io_items(&self) -> (r: Vec<IoSequenceItem>)
        ensures
            r@ == outputs(self@),
    {
        let mut out: Vec<IoSequenceItem> = Vec::with_capacity(self.bits.len());
        let mut i: usize = 0;
        while i < self.bits.len()
            invariant
                i <= self@.len(),
                out@ =~= outputs(self@).take(i as int),
            decreases self@.len() - i,
        {
            out.push(IoSequenceItem::Output(self.bits[i]));
            i = i + 1;
        }
        out
    }
}

impl From<OutSequence> for IoSequence {
    fn from(out_sequence: OutSequence) -> (r: IoSequence)
        ensures
            r@ == outputs(out_sequence@),
    {
        let mut io_sequence = IoSequence::with_capacity(out_sequence.len());
        let mut i: usize = 0;
        while i < out_sequence.bits.len()
            invariant
                i <= out_sequence@.len(),
                io_sequence@ =~= outputs(out_sequence@).take(i as int),
            decreases out_sequence@.len() - i,
        {
            io_sequence.add_output(out_sequence.bits[i]);
            i = i + 1;
        }
        proof {
            assert(io_sequence@ =~= outputs(out_sequence@));
        }
        io_sequence
    }
}

impl vstd::std_specs::convert::FromSpecImpl<OutSequence> for IoSequence {
    open spec fn obeys_from_spec() -> bool {
        false
    }

    open spec fn from_spec(v: OutSequence) -> IoSequence {
        arbitrary()
    }
}

/// The eight request bits of an SWD transfer: start, APnDP, RnW, A2, A3,
/// parity over the four before it, stop and park.
pub open spec fn swd_request(address: RegisterAddress, read: bool) -> Seq<IoSequenceItem> {
    let ap = address.spec_is_ap();
    let a2 = address.spec_a2();
    let a3 = address.spec_a3();
    outputs(seq![true, ap, read, a2, a3, ((ap != read) != a2) != a3, false, true])
}

/// The SWD frame of one transfer, without idle cycles.
pub open spec fn swd_frame(address: RegisterAddress, ty: TransferType) -> Seq<IoSequenceItem> {
    match ty {
        TransferType::Read => swd_request(address, true) + inputs(4) + inputs(34),
        TransferType::Write(v) => swd_request(address, false) + inputs(4) + inputs(1) + outputs(
            u32_bits(v),
        ) + outputs(seq![parity_of(v)]),
    }
}

/// Every SWD frame is 46 clocks long.
pub proof fn lemma_swd_frame_len(address: RegisterAddress, ty: TransferType)
    ensures
        swd_frame(address, ty).len() == 46,
{
}

/// The SWD frame of one transfer: request, turnaround and acknowledge, then
/// for a write a turnaround, the data and its parity, and for a read the
/// sampled data, parity and turnaround.
pub fn build_swd_transfer(address: &RegisterAddress, direction: TransferType) -> (r: IoSequence)
    ensures
        r@ == swd_frame(*address, direction),
        r@.len() == 46,
{
    let ap_n_dp = address.is_ap();
    let direction_bit = direction == TransferType::Read;
    let a2 = address.a2();
    let a3 = address.a3();
    let mut sequence = IoSequence::with_capacity(46);
    // Start bit (always 1).
    sequence.add_output(true);
    // APnDP (0 for DP, 1 for AP).
    sequence.add_output(ap_n_dp);
    // RnW (0 for Write, 1 for Read).
    sequence.add_output(direction_bit);
    // Address bits
    sequence.add_output(a2);
    sequence.add_output(a3);
    // Parity bit over APnDP, RnW, A2 and A3
    sequence.add_output(((ap_n_dp != direction_bit) != a2) != a3);
    // Stop bit (always 0).
    sequence.add_output(false);
    // Park bit (always 1).
    sequence.add_output(true);
    proof {
        assert(sequence@ =~= swd_request(*address, direction_bit));
    }
    // Turnaround bit and the acknowledge.
    sequence.add_input();
    sequence.add_input_sequence(3);
    let ghost head = sequence@;
    proof {
        assert(head =~= swd_request(*address, direction_bit) + inputs(4));
    }
    match direction {
        TransferType::Write(value) => {
            // Turnaround before the host drives the data.
            sequence.add_input();
            let mut i: u32 = 0;
            while i < 32
                invariant
                    i <= 32,
                    sequence@ =~= head + inputs(1) + outputs(u32_bits(value).take(i as int)),
                decreases 32 - i,
            {
                sequence.add_output((value >> i) & 1 == 1);
                i = i + 1;
            }
            assert(u32_bits(value).take(32) =~= u32_bits(value));
            sequence.add_output(parity(value));
            proof {
                assert(sequence@ =~= swd_frame(*address, direction));
            }
        },
        TransferType::Read => {
            // Data, parity and turnaround.
            sequence.add_input_sequence(32);
            sequence.add_input();
            sequence.add_input();
            proof {
                assert(sequence@ =~= swd_frame(*address, direction));
            }
        },
    }
    sequence
}

/// The outcome of an SWD transfer from the sampled bits that follow its
/// request: three acknowledge bits, then for a read 32 data bits and parity.
pub open spec fn swd_response(resp: Seq<bool>, direction: TransferDirection) -> Result<u32, DapError> {
    let (a0, a1, a2) = (resp[0], resp[1], resp[2]);
    if a0 && a1 && a2 {
        Err(DapError::NoAcknowledge)
    } else if !a0 && a1 && !a2 {
        Err(DapError::WaitResponse)
    } else if !a0 && !a1 && a2 {
        Err(DapError::FaultResponse)
    } else if a0 && !a1 && !a2 {
        if direction == TransferDirection::Read {
            let value = le_u32(resp.subrange(3, 35));
            if parity_of(value) == resp[35] {
                Ok(value)
            } else {
                Err(DapError::IncorrectParity)
            }
        } else {
            Ok(0)
        }
    } else {
        Err(DapError::Protocol(WireProtocol::Swd))
    }
}

/// Whether `resp` holds the bits `swd_response` reads in `direction`: the
/// three acknowledge bits, and after an OK acknowledge of a read the data
/// and its parity.
pub open spec fn swd_response_complete(resp: Seq<bool>, direction: TransferDirection) -> bool {
    &&& resp.len() >= 3
    &&& (direction == TransferDirection::Read && resp[0] && !resp[1] && !resp[2] ==> resp.len()
        >= 36)
}

/// Parses the acknowledge of an SWD transfer, and for a read the data,
/// whose parity is checked.
pub fn parse_swd_response(resp: &[bool], direction: TransferDirection) -> (r: Result<u32, DapError>)
    requires
        swd_response_complete(resp@, direction),
    ensures
        r == swd_response(resp@, direction),
{
    let ack0 = resp[0];
    let ack1 = resp[1];
    let ack2 = resp[2];
    if ack0 && ack1 && ack2 {
        Err(DapError::NoAcknowledge)
    } else if !ack0 && ack1 && !ack2 {
        Err(DapError::WaitResponse)
    } else if !ack0 && !ack1 && ack2 {
        Err(DapError::FaultResponse)
    } else if ack0 && !ack1 && !ack2 {
        if direction == TransferDirection::Read {
            let mut data: Vec<bool> = Vec::with_capacity(32);
            let mut i: usize = 3;
            while i < 35
                invariant
                    3 <= i <= 35,
                    resp@.len() >= 36,
                    data@ =~= resp@.subrange(3, i as int),
                decreases 35 - i,
            {
                data.push(resp[i]);
                i = i + 1;
            }
            let value = bits_to_byte(data.as_slice());
            assert(data@.take(32) =~= data@);
            if parity(value) == resp[35] {
                Ok(value)
            } else {
                Err(DapError::IncorrectParity)
            }
        } else {
            Ok(0)
        }
    } else {
        Err(DapError::Protocol(WireProtocol::Swd))
    }
}

/// The bits a well-behaved target returns after the request of a read of
/// `v`: acknowledge OK, the data and its parity.
pub open spec fn ok_read_response(v: u32) -> Seq<bool> {
    seq![true, false, false] + u32_bits(v) + seq![parity_of(v)]
}

/// The driven bit of a clock, and `false` for a sampled one.
pub open spec fn driven(item: IoSequenceItem) -> bool {
    match item {
        IoSequenceItem::Output(b) => b,
        IoSequenceItem::Input => false,
    }
}

/// SWD framing round trip. A write frame is 46 clocks: the request for the
/// address, five sampled clocks, then the value's bits driven least
/// significant first, from which the value reads back, and its parity. A read
/// frame is the request and 38 sampled clocks; an OK answer carrying `v` with
/// its parity parses to `v`, and an OK answer to a write parses to 0.
pub proof fn swd_frame_round_trip(address: RegisterAddress, v: u32, rest: Seq<bool>)
    ensures
        swd_frame(address, TransferType::Write(v)).len() == 46,
        swd_frame(address, TransferType::Write(v)).subrange(0, 8) == swd_request(address, false),
        swd_frame(address, TransferType::Write(v)).subrange(8, 13) == inputs(5),
        swd_frame(address, TransferType::Write(v)).subrange(13, 45) == outputs(u32_bits(v)),
        le_u32(swd_frame(address, TransferType::Write(v)).subrange(13, 45).map_values(
            |i: IoSequenceItem| driven(i),
        )) == v,
        swd_frame(address, TransferType::Write(v))[45] == IoSequenceItem::Output(parity_of(v)),
        swd_frame(address, TransferType::Read).len() == 46,
        swd_frame(address, TransferType::Read).subrange(0, 8) == swd_request(address, true),
        swd_frame(address, TransferType::Read).subrange(8, 46) == inputs(38),
        swd_response(ok_read_response(v) + rest, TransferDirection::Read) == Ok::<u32, DapError>(v),
        swd_response(seq![true, false, false] + rest, TransferDirection::Write) == Ok::<
            u32,
            DapError,
        >(0),
{
    let w = swd_frame(address, TransferType::Write(v));
    let r = swd_frame(address, TransferType::Read);
    assert(w.subrange(0, 8) =~= swd_request(address, false));
    assert(w.subrange(8, 13) =~= inputs(5));
    assert(w.subrange(13, 45) =~= outputs(u32_bits(v)));
    assert(w.subrange(13, 45).map_values(|i: IoSequenceItem| driven(i)) =~= u32_bits(v));
    lemma_le_u32_of_bits(v);
    assert(r.subrange(0, 8) =~= swd_request(address, true));
    assert(r.subrange(8, 46) =~= inputs(38));
    let resp = ok_read_response(v) + rest;
    assert(resp.subrange(3, 35) =~= u32_bits(v));
    let wr = seq![true, false, false] + rest;
    assert(wr[0] && !wr[1] && !wr[2]);
}

/// The parity law. The parity bit of a write frame is the parity of the
/// number of set bits of the value; in an OK answer to a read, flipping one
/// data bit, or the parity bit, makes the parse fail with `IncorrectParity`.
pub proof fn swd_parity_law(address: RegisterAddress, v: u32, i: int, rest: Seq<bool>)
    requires
        3 <= i <= 35,
    ensures
        swd_frame(address, TransferType::Write(v))[45] == IoSequenceItem::Output(
            popcount(v) % 2 == 1,
        ),
        swd_response(
            (ok_read_response(v) + rest).update(i, !(ok_read_response(v) + rest)[i]),
            TransferDirection::Read,
        ) == Err::<u32, DapError>(DapError::IncorrectParity),
{
    let resp = ok_read_response(v) + rest;
    let flipped = resp.update(i, !resp[i]);
    lemma_le_u32_of_bits(v);
    if i == 35 {
        assert(flipped.subrange(3, 35) =~= u32_bits(v));
    } else {
        let data = u32_bits(v);
        let fd = data.update(i - 3, !data[i - 3]);
        assert(flipped.subrange(3, 35) =~= fd);
        lemma_popcount_le_u32(fd);
        lemma_ones_flip(data, i - 3);
    }
}

} // verus!
