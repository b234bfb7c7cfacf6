//! The JTAG executor: one 35-bit data register shift per transfer, with
//! the bookkeeping reads that bring in the last response and the sticky flags.

use vstd::prelude::*;

use crate::error::{DapError, DebugProbeError};
use crate::probe::JtagAccess;
use crate::registers::{sticky_err, DpRegisterAddress, RegisterAddress, CTRL_STICKYERR};
use crate::bits::u64_le_bytes;
use crate::transfer::{
    build_jtag_payload_and_address, decode_jtag_status, is_done, jtag_payload_and_address,
    jtag_status, jtag_transform, parse_jtag_response,
    performed, same_request, CommandResult, DapTransfer, TransferDirection, TransferStatus, JTAG_DR_BIT_LENGTH,
};

verus! {

/// Whether a JTAG batch ends with an extra RDBUFF read that brings in the
/// response of its last transfer.
pub open spec fn jtag_extra_rdbuff(ts: Seq<DapTransfer>) -> bool {
    !ts.last().spec_is_abort() && !ts.last().spec_is_rdbuff()
}

/// Whether a JTAG batch ends with a CTRL/STAT read and an RDBUFF read that
/// bring in the sticky flags.
pub open spec fn jtag_checks_ctrl(ts: Seq<DapTransfer>) -> bool {
    !ts.last().spec_is_abort()
}

/// The transfers queued for a JTAG batch.
pub open spec fn jtag_queue(ts: Seq<DapTransfer>) -> Seq<DapTransfer> {
    ts + (if jtag_extra_rdbuff(ts) {
        seq![DapTransfer::spec_read(RegisterAddress::DpRegister(DpRegisterAddress::spec_rdbuff()))]
    } else {
        Seq::empty()
    }) + (if jtag_checks_ctrl(ts) {
        seq![
            DapTransfer::spec_read(RegisterAddress::DpRegister(DpRegisterAddress::spec_ctrl())),
            DapTransfer::spec_read(RegisterAddress::DpRegister(DpRegisterAddress::spec_rdbuff())),
        ]
    } else {
        Seq::empty()
    })
}

/// The status of queued command `k` when `n_results` commands succeeded
/// and the next one failed with `failure`, if any.
pub open spec fn queue_status(n_results: nat, failure: Option<DapError>, k: int) -> TransferStatus {
    if k < n_results {
        TransferStatus::Okay
    } else {
        match failure {
            Some(e) => TransferStatus::Failed(e),
            None => TransferStatus::Okay,
        }
    }
}

/// The results a JTAG queue can hand back: one per executed command, an
/// empty one for an ABORT and a value otherwise, each what its command's
/// response gives, and a failure iff not every command was executed, which
/// the response to the first command not executed gives.
pub open spec fn queue_results_wf(
    queue: Seq<DapTransfer>,
    results: Seq<CommandResult>,
    failure: Option<DapError>,
) -> bool {
    &&& results.len() <= queue.len()
    &&& (failure is None <==> results.len() == queue.len())
    &&& forall|k: int|
        0 <= k < results.len() ==> (#[trigger] results[k] is Empty <==> queue[k].spec_is_abort())
    &&& forall|k: int|
        0 <= k < results.len() ==> shift_gives(
            jtag_payload_and_address(queue[k]).1,
            Ok(#[trigger] results[k]),
        )
    &&& failure matches Some(e) ==> shift_gives(
        jtag_payload_and_address(queue[results.len() as int]).1,
        Err(e),
    )
}

/// Some response to a shift of the data register selected by `address` gives `result`.
pub open spec fn shift_gives(address: u32, result: Result<CommandResult, DapError>) -> bool {
    exists|resp: Seq<bool>| #[trigger] jtag_transform(address, resp) == result
}

/// The batch `ts` with each transfer's status, and a read's value, taken
/// from the response to the command after it.
pub open spec fn jtag_projected(
    ts: Seq<DapTransfer>,
    results: Seq<CommandResult>,
    failure: Option<DapError>,
) -> Seq<DapTransfer> {
    let m = jtag_queue(ts).len();
    let shifted = ts.len() + (if jtag_extra_rdbuff(ts) { 1int } else { 0int }) - 1;
    Seq::new(
        ts.len(),
        |i: int|
            {
                let t = ts[i];
                let st = if i + 1 < m {
                    queue_status(results.len(), failure, i + 1)
                } else {
                    TransferStatus::Okay
                };
                if t.spec_is_abort() || t.spec_is_rdbuff() {
                    DapTransfer { status: TransferStatus::Okay, ..t }
                } else if i < shifted && st == TransferStatus::Okay && t.direction
                    == TransferDirection::Read && i + 1 < results.len() && results[i + 1] is U32 {
                    DapTransfer { status: st, value: results[i + 1]->U32_0, ..t }
                } else {
                    DapTransfer { status: st, ..t }
                }
            },
    )
}

/// The CTRL/STAT value a JTAG batch brought in, if it did.
pub open spec fn jtag_ctrl_word(ts: Seq<DapTransfer>, results: Seq<CommandResult>) -> Option<u32> {
    let m = jtag_queue(ts).len();
    if jtag_checks_ctrl(ts) && m - 1 < results.len() && results[m - 1] is U32 {
        Some(results[m - 1]->U32_0)
    } else {
        None
    }
}

/// Every OK status turned into a FAULT.
pub open spec fn mark_faulted(ts: Seq<DapTransfer>) -> Seq<DapTransfer> {
    Seq::new(
        ts.len(),
        |i: int|
            if ts[i].status == TransferStatus::Okay {
                DapTransfer { status: TransferStatus::Failed(DapError::FaultResponse), ..ts[i] }
            } else {
                ts[i]
            },
    )
}

/// The batch `ts` once its JTAG queue handed back `results` and `failure`;
/// a set sticky error flag turns every OK into a FAULT.
pub open spec fn jtag_outcomes(
    ts: Seq<DapTransfer>,
    results: Seq<CommandResult>,
    failure: Option<DapError>,
) -> Seq<DapTransfer> {
    let p = jtag_projected(ts, results, failure);
    match jtag_ctrl_word(ts, results) {
        Some(w) => if w & CTRL_STICKYERR != 0 {
            mark_faulted(p)
        } else {
            p
        },
        None => p,
    }
}

/// The idle cycles a probe register can hold for `n` cycles.
pub fn idle_cycles_u8(n: usize) -> (r: u8)
    ensures
        r == if n > 255 { 255 } else { n },
{
    if n > 255 {
        255
    } else {
        n as u8
    }
}

/// The largest idle cycles of a batch.
pub open spec fn max_idle(ts: Seq<DapTransfer>) -> usize
    decreases ts.len(),
{
    if ts.len() == 0 {
        0
    } else if ts.last().idle_cycles_after > max_idle(ts.drop_last()) {
        ts.last().idle_cycles_after
    } else {
        max_idle(ts.drop_last())
    }
}

/// The idle cycles a JTAG batch runs with: the largest of its transfers,
/// as far as the probe can hold them.
pub fn jtag_idle_setting(transfers: &Vec<DapTransfer>) -> (r: u8)
    ensures
        r == if max_idle(transfers@) > 255 {
            255
        } else {
            max_idle(transfers@)
        },
{
    let ghost ts = transfers@;
    let mut max_idle_cycles: usize = 0;
    let mut i: usize = 0;
    while i < transfers.len()
        invariant
            i <= ts.len(),
            transfers@ == ts,
            max_idle_cycles == max_idle(ts.take(i as int)),
        decreases ts.len() - i,
    {
        assert(ts.take(i as int + 1).drop_last() =~= ts.take(i as int));
        if transfers[i].idle_cycles_after > max_idle_cycles {
            max_idle_cycles = transfers[i].idle_cycles_after;
        }
        i = i + 1;
    }
    assert(ts.take(ts.len() as int) =~= ts);
    idle_cycles_u8(max_idle_cycles)
}

/// Performs one JTAG transfer on its own; returns the value and the status
/// its response carries, or nothing and OK for an ABORT write.
pub fn perform_jtag_transfer<P: JtagAccess>(probe: &mut P, transfer: &DapTransfer) -> (r: Result<
    (u32, TransferStatus),
    DebugProbeError,
>)
    ensures
        r matches Ok((v, s)) ==> if transfer.spec_is_abort() {
            v == 0 && s == TransferStatus::Okay
        } else {
            exists|word: u64| v == (word >> 3u64) as u32 && s == jtag_status(word)
        },
{
    let (payload, address) = build_jtag_payload_and_address(transfer);
    let data = u64_le_bytes(payload);
    let idle_cycles = probe.idle_cycles();
    if let Err(e) = probe.set_idle_cycles(idle_cycles_u8(transfer.idle_cycles_after)) {
        return Err(e);
    }
    // A read is a data register write too: the request has to be shifted in.
    let result = probe.write_register(address, data.as_slice(), JTAG_DR_BIT_LENGTH);
    if let Err(e) = probe.set_idle_cycles(idle_cycles) {
        return Err(e);
    }
    let result = match result {
        Ok(bits) => bits,
        Err(e) => return Err(e),
    };
    let received = parse_jtag_response(result.as_slice());
    if transfer.is_abort() {
        return Ok((0, TransferStatus::Okay));
    }
    let (value, status) = decode_jtag_status(received);
    Ok((value, status))
}

/// The transfers queued for a JTAG batch.
pub fn build_jtag_queue(transfers: &Vec<DapTransfer>) -> (r: Vec<DapTransfer>)
    requires
        transfers@.len() > 0,
    ensures
        r@ == jtag_queue(transfers@),
{
    let mut queue: Vec<DapTransfer> = Vec::new();
    let mut i: usize = 0;
    while i < transfers.len()
        invariant
            i <= transfers@.len(),
            queue@ =~= transfers@.take(i as int),
        decreases transfers@.len() - i,
    {
        queue.push(transfers[i]);
        i = i + 1;
    }
    let last = transfers[transfers.len() - 1];
    let last_is_abort = last.is_abort();
    let last_is_rdbuff = last.is_rdbuff();
    if !last_is_abort && !last_is_rdbuff {
        // A read that brings in the response of the last transfer.
        queue.push(DapTransfer::read(RegisterAddress::DpRegister(DpRegisterAddress::rdbuff())));
    }
    if !last_is_abort {
        // CTRL/STAT, to tell OK from FAULT.
        queue.push(DapTransfer::read(RegisterAddress::DpRegister(DpRegisterAddress::ctrl())));
        queue.push(DapTransfer::read(RegisterAddress::DpRegister(DpRegisterAddress::rdbuff())));
    }
    proof {
        assert(queue@ =~= jtag_queue(transfers@));
    }
    queue
}

/// Shifts the queued transfers one by one until one fails; returns the
/// results of those that succeeded, and the failure that stopped it.
pub fn write_register_batch<P: JtagAccess>(probe: &mut P, queue: &Vec<DapTransfer>) -> (r: Result<
    (Vec<CommandResult>, Option<DapError>),
    DebugProbeError,
>)
    ensures
        r matches Ok((results, failure)) ==> queue_results_wf(queue@, results@, failure),
{
    let mut results: Vec<CommandResult> = Vec::with_capacity(queue.len());
    let mut k: usize = 0;
    while k < queue.len()
        invariant
            k <= queue@.len(),
            results@.len() == k,
            forall|j: int|
                0 <= j < k ==> (#[trigger] results@[j] is Empty <==> queue@[j].spec_is_abort()),
            forall|j: int|
                0 <= j < k ==> shift_gives(
                    jtag_payload_and_address(queue@[j]).1,
                    Ok(#[trigger] results@[j]),
                ),
        decreases queue@.len() - k,
    {
        let command = queue[k].jtag_write();
        let bits = match probe.write_register(command.address, command.data.as_slice(), command.len) {
            Ok(bits) => bits,
            Err(e) => return Err(e),
        };
        let transformed = command.transform(bits.as_slice());
        assert(jtag_transform(jtag_payload_and_address(queue@[k as int]).1, bits@) == transformed);
        match transformed {
            Ok(result) => {
                results.push(result);
                proof {
                    assert forall|j: int| 0 <= j < k + 1 implies shift_gives(
                        jtag_payload_and_address(queue@[j]).1,
                        Ok(#[trigger] results@[j]),
                    ) by {
                        if j == k {
                            assert(jtag_transform(jtag_payload_and_address(queue@[j]).1, bits@)
                                == Ok::<CommandResult, DapError>(results@[j]));
                        }
                    }
                }
            },
            Err(e) => {
                return Ok((results, Some(e)));
            },
        }
        k = k + 1;
    }
    Ok((results, None))
}

/// Sets each transfer's status, and a read's value, from the response to the
/// queued command after it.
pub fn project_jtag_results(
    transfers: &mut Vec<DapTransfer>,
    results: &Vec<CommandResult>,
    failure: Option<DapError>,
)
    requires
        old(transfers)@.len() > 0,
    ensures
        final(transfers)@ == jtag_projected(old(transfers)@, results@, failure),
{
    let ghost ts = transfers@;
    let n = transfers.len();
    let last = transfers[n - 1];
    let extra_rdbuff = !last.is_abort() && !last.is_rdbuff();
    // The commands queued after the batch, and the number of transfers
    // whose response is shifted in from the next command.
    let tail: usize = (if extra_rdbuff { 1 } else { 0 }) + (if !last.is_abort() { 2 } else { 0 });
    let shifted = if extra_rdbuff { n } else { n - 1 };
    proof {
        assert(n + tail == jtag_queue(ts).len());
    }
    let mut i: usize = 0;
    while i < n
        invariant
            n == ts.len(),
            i <= n,
            n + tail == jtag_queue(ts).len(),
            shifted == ts.len() + (if jtag_extra_rdbuff(ts) { 1int } else { 0int }) - 1,
            transfers@.len() == n,
            forall|j: int|
                0 <= j < i ==> transfers@[j] == #[trigger] jtag_projected(ts, results@, failure)[j],
            forall|j: int| i <= j < n ==> transfers@[j] == ts[j],
        decreases n - i,
    {
        let t = transfers[i];
        let status = if i + 1 < n || tail > 0 {
            if i + 1 < results.len() {
                TransferStatus::Okay
            } else {
                match failure {
                    Some(e) => TransferStatus::Failed(e),
                    None => TransferStatus::Okay,
                }
            }
        } else {
            TransferStatus::Okay
        };
        let updated = if t.is_abort() || t.is_rdbuff() {
            DapTransfer { status: TransferStatus::Okay, ..t }
        } else if i < shifted && status == TransferStatus::Okay && t.direction
            == TransferDirection::Read && i + 1 < results.len() {
            match results[i + 1] {
                CommandResult::U32(value) => DapTransfer { status, value, ..t },
                CommandResult::Empty => DapTransfer { status, ..t },
            }
        } else {
            DapTransfer { status, ..t }
        };
        transfers.set(i, updated);
        i = i + 1;
    }
    proof {
        assert(transfers@ =~= jtag_projected(ts, results@, failure));
    }
}

/// Turns every OK status into a FAULT.
pub fn mark_ok_as_faulted(transfers: &mut Vec<DapTransfer>)
    ensures
        final(transfers)@ == mark_faulted(old(transfers)@),
{
    let ghost ts = transfers@;
    let mut i: usize = 0;
    while i < transfers.len()
        invariant
            i <= ts.len(),
            transfers@.len() == ts.len(),
            forall|j: int| 0 <= j < i ==> transfers@[j] == #[trigger] mark_faulted(ts)[j],
            forall|j: int| i <= j < ts.len() ==> transfers@[j] == ts[j],
        decreases ts.len() - i,
    {
        let t = transfers[i];
        if t.status == TransferStatus::Okay {
            transfers.set(
                i,
                DapTransfer { status: TransferStatus::Failed(DapError::FaultResponse), ..t },
            );
        }
        i = i + 1;
    }
    proof {
        assert(transfers@ =~= mark_faulted(ts));
    }
}

/// The CTRL/STAT value a JTAG batch brought in, if it did.
pub fn ctrl_word(transfers: &Vec<DapTransfer>, results: &Vec<CommandResult>) -> (r: Option<u32>)
    requires
        transfers@.len() > 0,
    ensures
        r == jtag_ctrl_word(transfers@, results@),
{
    let n = transfers.len();
    let last = transfers[n - 1];
    if last.is_abort() {
        return None;
    }
    // The last queued command sits `n + extra` after the start.
    let extra: usize = if !last.is_rdbuff() { 2 } else { 1 };
    if results.len() > n && results.len() - n > extra {
        match results[n + extra] {
            CommandResult::U32(v) => Some(v),
            CommandResult::Empty => None,
        }
    } else {
        None
    }
}

/// The write that clears a sticky error flag that the CTRL/STAT value
/// `ctrl` shows: that value written back to CTRL/STAT.
pub open spec fn spec_sticky_clear_command(ctrl: Option<u32>) -> Option<DapTransfer> {
    match ctrl {
        Some(w) => if w & CTRL_STICKYERR != 0 {
            Some(
                DapTransfer::spec_write(RegisterAddress::DpRegister(DpRegisterAddress::spec_ctrl()), w),
            )
        } else {
            None
        },
        None => None,
    }
}

/// The write that clears a sticky error flag that the CTRL/STAT value
/// `ctrl` shows, if it shows one.
pub fn sticky_clear_command(ctrl: Option<u32>) -> (r: Option<DapTransfer>)
    ensures
        r == spec_sticky_clear_command(ctrl),
{
    match ctrl {
        Some(w) => if sticky_err(w) {
            Some(DapTransfer::write(RegisterAddress::DpRegister(DpRegisterAddress::ctrl()), w))
        } else {
            None
        },
        None => None,
    }
}

/// Performs a batch of JTAG transfers as one queue of data register shifts.
///
/// Each response carries the result of the command before it, so an RDBUFF
/// read follows the batch, and a CTRL/STAT read and an RDBUFF read bring in
/// the sticky flags; no such reads follow an ABORT write. The queue runs with
/// the largest idle cycles of the batch, and the probe's idle cycles are put
/// back. A set sticky error flag is cleared, and turns every OK into a FAULT.
pub fn perform_jtag_transfers<P: JtagAccess>(probe: &mut P, transfers: &mut Vec<DapTransfer>) -> (r:
    Result<(), DebugProbeError>)
    requires
        old(transfers)@.len() > 0,
    ensures
        r is Ok ==> exists|results: Seq<CommandResult>, failure: Option<DapError>|
            queue_results_wf(jtag_queue(old(transfers)@), results, failure) && final(transfers)@
                == jtag_outcomes(old(transfers)@, results, failure),
        r is Ok ==> performed(old(transfers)@, final(transfers)@),
{
    let ghost ts = transfers@;
    let queue = build_jtag_queue(transfers);
    let idle_cycles = probe.idle_cycles();
    // The queue cannot vary the idle cycles per command: use the largest.
    if let Err(e) = probe.set_idle_cycles(jtag_idle_setting(transfers)) {
        return Err(e);
    }
    let executed = write_register_batch(probe, &queue);
    if let Err(e) = probe.set_idle_cycles(idle_cycles) {
        return Err(e);
    }
    let (results, failure) = match executed {
        Ok(x) => x,
        Err(e) => return Err(e),
    };
    project_jtag_results(transfers, &results, failure);
    let ghost projected = transfers@;
    if let Some(clear) = sticky_clear_command(ctrl_word(transfers, &results)) {
        // Clear the sticky flag so that later transactions succeed.
        if let Err(e) = perform_jtag_transfer(probe, &clear) {
            return Err(e);
        }
        // The flag is sticky: some transfer acknowledged OK actually faulted.
        mark_ok_as_faulted(transfers);
    }
    proof {
        assert(ts.len() > 0);
        assert(transfers@ == jtag_outcomes(ts, results@, failure));
        assert forall|k: int| 0 <= k < ts.len() implies same_request(
            ts[k],
            #[trigger] transfers@[k],
        ) && is_done(transfers@[k]) && transfers@[k].idle_cycles_after
            == ts[k].idle_cycles_after by {
            assert(projected[k] == jtag_projected(ts, results@, failure)[k]);
        }
    }
    Ok(())
}

} // verus!
