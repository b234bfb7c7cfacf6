//! The SWD executor: the frames of a batch clocked out at once, and each
//! transfer's response parsed from its own frame.

use vstd::prelude::*;

use crate::error::DebugProbeError;
use crate::probe::RawSwdIo;
use crate::sequence::{parse_swd_response, swd_frame, swd_response, IoSequence, IoSequenceItem};
use crate::transfer::{performed, DapTransfer, TransferDirection, TransferStatus};

verus! {

/// Where the frame of transfer `k` starts in the I/O sequence of a batch.
pub open spec fn frame_offset(ts: Seq<DapTransfer>, k: int) -> int
    decreases k,
{
    if k <= 0 {
        0
    } else {
        frame_offset(ts, k - 1) + 46 + ts[k - 1].idle_cycles_after
    }
}

proof fn lemma_frame_offset_monotone(ts: Seq<DapTransfer>, j: int, k: int)
    requires
        0 <= j <= k,
    ensures
        frame_offset(ts, j) <= frame_offset(ts, k),
    decreases k,
{
    if j < k {
        lemma_frame_offset_monotone(ts, j, k - 1);
    }
}

/// Transfer `t` once the bits sampled after its request are `resp`: a
/// read takes the value, and the status is OK or the failure.
pub open spec fn swd_outcome(t: DapTransfer, resp: Seq<bool>) -> DapTransfer {
    match swd_response(resp, t.direction) {
        Ok(v) => if t.direction == TransferDirection::Read {
            DapTransfer { value: v, status: TransferStatus::Okay, ..t }
        } else {
            DapTransfer { status: TransferStatus::Okay, ..t }
        },
        Err(e) => DapTransfer { status: TransferStatus::Failed(e), ..t },
    }
}

/// The batch `ts` once the probe answered its I/O sequence with `bits`:
/// each transfer parses the bits of its own frame after the eight request bits.
pub open spec fn swd_outcomes(ts: Seq<DapTransfer>, bits: Seq<bool>) -> Seq<DapTransfer> {
    Seq::new(
        ts.len(),
        |k: int| swd_outcome(ts[k], bits.subrange(frame_offset(ts, k) + 8, frame_offset(ts, k + 1))),
    )
}

/// The I/O sequence of a batch: each transfer's frame followed by its idle cycles.
pub open spec fn batch_frames(ts: Seq<DapTransfer>) -> Seq<IoSequenceItem>
    decreases ts.len(),
{
    if ts.len() == 0 {
        Seq::empty()
    } else {
        batch_frames(ts.drop_last()) + swd_frame(ts.last().address, ts.last().spec_transfer_type())
            + Seq::new(ts.last().idle_cycles_after as nat, |i: int| IoSequenceItem::Output(false))
    }
}

proof fn lemma_batch_frames_len(ts: Seq<DapTransfer>, k: int)
    requires
        0 <= k <= ts.len(),
    ensures
        batch_frames(ts.take(k)).len() == frame_offset(ts, k),
    decreases k,
{
    if k > 0 {
        lemma_batch_frames_len(ts, k - 1);
        assert(ts.take(k).drop_last() =~= ts.take(k - 1));
        crate::sequence::lemma_swd_frame_len(ts[k - 1].address, ts[k - 1].spec_transfer_type());
    }
}

/// The I/O sequence that clocks out a batch.
pub fn batch_io_sequence(transfers: &Vec<DapTransfer>) -> (r: IoSequence)
    ensures
        r@ == batch_frames(transfers@),
        r@.len() == frame_offset(transfers@, transfers@.len() as int),
{
    let ghost ts = transfers@;
    let n = transfers.len();
    let mut io_sequence = IoSequence::new();
    let mut i: usize = 0;
    while i < n
        invariant
            n == ts.len(),
            transfers@ == ts,
            i <= n,
            io_sequence@ == batch_frames(ts.take(i as int)),
        decreases n - i,
    {
        let frame = transfers[i].io_sequence();
        io_sequence.extend(&frame);
        proof {
            assert(ts.take(i as int + 1).drop_last() =~= ts.take(i as int));
        }
        i = i + 1;
    }
    proof {
        assert(ts.take(n as int) =~= ts);
        lemma_batch_frames_len(ts, n as int);
    }
    io_sequence
}

/// The length of a batch's I/O sequence, or `usize::MAX` where it is longer.
pub open spec fn batch_len(ts: Seq<DapTransfer>) -> usize {
    if frame_offset(ts, ts.len() as int) > usize::MAX {
        usize::MAX
    } else {
        frame_offset(ts, ts.len() as int) as usize
    }
}

/// The length of a batch's I/O sequence, or `usize::MAX` where it is longer.
pub fn batch_length(transfers: &Vec<DapTransfer>) -> (r: usize)
    ensures
        r == batch_len(transfers@),
{
    let ghost ts = transfers@;
    let mut total: usize = 0;
    let mut i: usize = 0;
    while i < transfers.len()
        invariant
            i <= ts.len(),
            transfers@ == ts,
            total == if frame_offset(ts, i as int) > usize::MAX {
                usize::MAX
            } else {
                frame_offset(ts, i as int) as usize
            },
        decreases ts.len() - i,
    {
        proof {
            lemma_frame_offset_monotone(ts, 0, i as int);
        }
        total = total.saturating_add(46).saturating_add(transfers[i].idle_cycles_after);
        i = i + 1;
    }
    total
}

/// Takes each transfer's status, and a read's value, from the probe's answer
/// `bits` to the batch's I/O sequence; fails, changing nothing, where the
/// answer is shorter than the sequence.
pub fn apply_swd_answer(transfers: &mut Vec<DapTransfer>, bits: &[bool]) -> (r: Result<
    (),
    DebugProbeError,
>)
    ensures
        bits@.len() >= frame_offset(old(transfers)@, old(transfers)@.len() as int) ==> r is Ok
            && final(transfers)@ == swd_outcomes(old(transfers)@, bits@),
        bits@.len() < frame_offset(old(transfers)@, old(transfers)@.len() as int) ==> r
            == Err::<(), DebugProbeError>(
            DebugProbeError::IncompleteResponse {
                expected: batch_len(old(transfers)@),
                received: bits@.len() as usize,
            },
        ) && final(transfers)@ == old(transfers)@,
{
    let ghost ts = transfers@;
    let n = transfers.len();
    // The length of the batch's sequence, as far as it fits the answer.
    let mut total: usize = 0;
    let mut i: usize = 0;
    while i < n
        invariant
            n == ts.len(),
            transfers@ == ts,
            i <= n,
            total == frame_offset(ts, i as int),
            total <= bits@.len(),
        decreases n - i,
    {
        let step = transfers[i].idle_cycles_after;
        if bits.len() - total < 46 || bits.len() - total - 46 < step {
            proof {
                lemma_frame_offset_monotone(ts, i as int + 1, n as int);
            }
            return Err(
                DebugProbeError::IncompleteResponse {
                    expected: batch_length(transfers),
                    received: bits.len(),
                },
            );
        }
        total = total + 46 + step;
        i = i + 1;
    }
    let mut offset: usize = 0;
    let mut k: usize = 0;
    while k < n
        invariant
            n == ts.len(),
            k <= n,
            transfers@.len() == n,
            total == frame_offset(ts, n as int),
            bits@.len() >= total,
            offset == frame_offset(ts, k as int),
            forall|j: int| 0 <= j < k ==> transfers@[j] == #[trigger] swd_outcomes(ts, bits@)[j],
            forall|j: int| k <= j < n ==> transfers@[j] == ts[j],
        decreases n - k,
    {
        proof {
            lemma_frame_offset_monotone(ts, k as int + 1, n as int);
        }
        let t = transfers[k];
        let end = offset + 46 + t.idle_cycles_after;
        let mut resp: Vec<bool> = Vec::with_capacity(38);
        let mut j: usize = offset + 8;
        while j < end
            invariant
                offset + 8 <= j <= end,
                end <= bits@.len(),
                resp@ =~= bits@.subrange(offset + 8, j as int),
            decreases end - j,
        {
            resp.push(bits[j]);
            j = j + 1;
        }
        let response = parse_swd_response(resp.as_slice(), t.direction);
        let updated = match response {
            Ok(value) => if t.direction == TransferDirection::Read {
                DapTransfer { value, status: TransferStatus::Okay, ..t }
            } else {
                DapTransfer { status: TransferStatus::Okay, ..t }
            },
            Err(e) => DapTransfer { status: TransferStatus::Failed(e), ..t },
        };
        transfers.set(k, updated);
        offset = end;
        k = k + 1;
    }
    proof {
        assert(transfers@ =~= swd_outcomes(ts, bits@));
    }
    Ok(())
}

/// Performs a batch of SWD transfers: their frames are concatenated and
/// clocked out at once, then each transfer takes its status, and a read its
/// value, from the bits of its own frame.
pub fn perform_swd_transfers<P: RawSwdIo>(probe: &mut P, transfers: &mut Vec<DapTransfer>) -> (r:
    Result<(), DebugProbeError>)
    ensures
        r is Ok ==> exists|bits: Seq<bool>|
            bits.len() >= frame_offset(old(transfers)@, old(transfers)@.len() as int)
                && final(transfers)@ == swd_outcomes(old(transfers)@, bits),
        r is Ok ==> performed(old(transfers)@, final(transfers)@),
        r is Err ==> final(transfers)@ == old(transfers)@,
{
    let io_sequence = batch_io_sequence(transfers);
    let result = match probe.swd_io(io_sequence.io_items()) {
        Ok(bits) => bits,
        Err(e) => return Err(e),
    };
    apply_swd_answer(transfers, result.as_slice())
}

} // verus!
