//! Raw execution over the wire protocol in use, debug port writes, and
//! retries after WAIT.

use vstd::prelude::*;

use crate::error::{ArmError, DapError, DebugProbeError, WireProtocol};
use crate::jtag::{jtag_outcomes, jtag_queue, perform_jtag_transfers, queue_results_wf};
use crate::probe::{JtagAccess, RawSwdIo, SwdSettings};
use crate::registers::{
    ctrl_after_abort, flags_cleared_by, DpRegisterAddress, RegisterAddress, ABORT_CLEAR_STICKY,
    ABORT_DAPABORT, CTRL_STICKYERR, CTRL_STICKYORUN,
};
use crate::swd::{frame_offset, perform_swd_transfers, swd_outcomes};
use crate::transfer::{is_done, performed, same_request, CommandResult, DapTransfer, TransferStatus};

verus! {

/// `after` holds the operations of `before`, each settled with a final
/// status, or, where `attempted` is false, with its status unchanged.
pub open spec fn settled(before: Seq<DapTransfer>, after: Seq<DapTransfer>, attempted: bool) -> bool {
    &&& after.len() == before.len()
    &&& forall|i: int|
        0 <= i < before.len() ==> same_request(before[i], #[trigger] after[i]) && (attempted
            ==> is_done(after[i])) && (!attempted ==> after[i].status == before[i].status)
}

/// `after` is `before` performed by the executor of `protocol`: on SWD,
/// parsed from some answer of the probe to its I/O sequence; on JTAG,
/// projected from some results of its queue.
pub open spec fn raw_performed(
    protocol: WireProtocol,
    before: Seq<DapTransfer>,
    after: Seq<DapTransfer>,
) -> bool {
    &&& performed(before, after)
    &&& (protocol == WireProtocol::Swd ==> exists|bits: Seq<bool>|
        bits.len() >= frame_offset(before, before.len() as int) && after == swd_outcomes(
            before,
            bits,
        ))
    &&& (protocol == WireProtocol::Jtag ==> exists|
        results: Seq<CommandResult>,
        failure: Option<DapError>,
    |
        queue_results_wf(jtag_queue(before), results, failure) && after == jtag_outcomes(
            before,
            results,
            failure,
        ))
}

/// Performs a batch as it stands over the wire protocol in use, without
/// retrying on WAIT or handling FAULT.
pub fn perform_raw_transfers<P: RawSwdIo + JtagAccess>(
    probe: &mut P,
    protocol: WireProtocol,
    transfers: &mut Vec<DapTransfer>,
) -> (r: Result<(), DebugProbeError>)
    requires
        old(transfers)@.len() > 0,
    ensures
        r is Ok ==> raw_performed(protocol, old(transfers)@, final(transfers)@),
        r is Err && protocol == WireProtocol::Swd ==> final(transfers)@ == old(transfers)@,
{
    match protocol {
        WireProtocol::Swd => perform_swd_transfers(probe, transfers),
        WireProtocol::Jtag => perform_jtag_transfers(probe, transfers),
    }
}

/// The write of `value` to the debug port register `address` that
/// `write_dp_register` performs, with its idle cycles.
pub open spec fn dp_register_write(
    address: DpRegisterAddress,
    value: u32,
    settings: SwdSettings,
) -> DapTransfer {
    DapTransfer {
        idle_cycles_after: settings.idle_cycles_before_write_verify.saturating_add(
            settings.num_idle_cycles_between_writes,
        ),
        ..DapTransfer::spec_write(RegisterAddress::DpRegister(address), value)
    }
}

/// The ABORT write that clears the sticky overrun and sticky error flags.
pub open spec fn sticky_clear_write(settings: SwdSettings) -> DapTransfer {
    dp_register_write(DpRegisterAddress::spec_abort(), ABORT_CLEAR_STICKY, settings)
}

/// The write of `value` to the debug port register `address`, with the
/// idle cycles that let it complete before it is checked.
pub fn dp_write_transfer(address: DpRegisterAddress, value: u32, settings: &SwdSettings) -> (r:
    DapTransfer)
    ensures
        r == dp_register_write(address, value, *settings),
{
    let mut transfer = DapTransfer::write(RegisterAddress::DpRegister(address), value);
    transfer.idle_cycles_after = settings.idle_cycles_before_write_verify.saturating_add(
        settings.num_idle_cycles_between_writes,
    );
    transfer
}

/// The result of a single performed write: its failure, if any.
pub open spec fn spec_write_result(t: DapTransfer) -> Result<(), ArmError> {
    match t.status {
        TransferStatus::Okay => Ok(()),
        TransferStatus::Failed(e) => Err(ArmError::Dap(e)),
        TransferStatus::Pending => Err(ArmError::NotPerformed),
    }
}

/// The result of a single performed write: its failure, if any.
pub fn write_result(t: &DapTransfer) -> (r: Result<(), ArmError>)
    ensures
        r == spec_write_result(*t),
{
    match t.status {
        TransferStatus::Okay => Ok(()),
        TransferStatus::Failed(e) => Err(ArmError::Dap(e)),
        TransferStatus::Pending => Err(ArmError::NotPerformed),
    }
}

/// Writes a debug port register on its own; fails with the failure of the
/// write, or with the transport's error.
pub fn write_dp_register<P: RawSwdIo + JtagAccess>(
    probe: &mut P,
    protocol: WireProtocol,
    settings: &SwdSettings,
    address: DpRegisterAddress,
    value: u32,
) -> (r: Result<(), ArmError>)
    ensures
        r matches Err(ArmError::Probe(_)) || exists|after: Seq<DapTransfer>|
            raw_performed(protocol, seq![dp_register_write(address, value, *settings)], after)
                && r == spec_write_result(after[0]),
        !(r is Err && r->Err_0 is NotPerformed),
{
    let transfer = dp_write_transfer(address, value, settings);
    let mut batch: Vec<DapTransfer> = vec![transfer];
    let ghost before = batch@;
    assert(before =~= seq![dp_register_write(address, value, *settings)]);
    if let Err(e) = perform_raw_transfers(probe, protocol, &mut batch) {
        return Err(ArmError::Probe(e));
    }
    let done = batch[0];
    assert(is_done(batch@[0]));
    write_result(&done)
}

/// `r` is the result of the ABORT write that clears the sticky flags: a
/// transport error, or the failure of the performed write, if any.
pub open spec fn clear_result(
    protocol: WireProtocol,
    settings: SwdSettings,
    r: Result<(), ArmError>,
) -> bool {
    r matches Err(ArmError::Probe(_)) || exists|after: Seq<DapTransfer>|
        raw_performed(protocol, seq![sticky_clear_write(settings)], after) && r
            == spec_write_result(after[0])
}

/// A performed ABORT write, clearing the sticky flags or aborting the
/// transaction, failed with `e`.
pub open spec fn abort_write_failed(protocol: WireProtocol, settings: SwdSettings, e: DapError) -> bool {
    exists|value: u32, after: Seq<DapTransfer>|
        (value == ABORT_CLEAR_STICKY || value == ABORT_DAPABORT) && raw_performed(
            protocol,
            seq![dp_register_write(DpRegisterAddress::spec_abort(), value, settings)],
            after,
        ) && after[0].status == TransferStatus::Failed(e)
}

/// Clears the sticky overrun and sticky error flags with an ABORT write.
pub fn clear_overrun_and_sticky_err<P: RawSwdIo + JtagAccess>(
    probe: &mut P,
    protocol: WireProtocol,
    settings: &SwdSettings,
) -> (r: Result<(), ArmError>)
    ensures
        clear_result(protocol, *settings, r),
        r matches Err(ArmError::Dap(e)) ==> abort_write_failed(protocol, *settings, e),
        !(r is Err && r->Err_0 is NotPerformed),
{
    write_dp_register(probe, protocol, settings, DpRegisterAddress::abort(), ABORT_CLEAR_STICKY)
}

/// Clearing the sticky flags is idempotent: the ABORT write that
/// `clear_overrun_and_sticky_err` performs is the same on every call, and a
/// second one leaves CTRL/STAT as the first one left it, with neither the
/// sticky error nor the sticky overrun flag set.
pub proof fn sticky_clear_idempotent(settings: SwdSettings, ctrl: u32)
    ensures
        sticky_clear_write(settings).spec_is_abort(),
        ctrl_after_abort(
            ctrl_after_abort(ctrl, sticky_clear_write(settings).value),
            sticky_clear_write(settings).value,
        ) == ctrl_after_abort(ctrl, sticky_clear_write(settings).value),
        ctrl_after_abort(ctrl, sticky_clear_write(settings).value) & CTRL_STICKYERR == 0,
        ctrl_after_abort(ctrl, sticky_clear_write(settings).value) & CTRL_STICKYORUN == 0,
{
    assert(flags_cleared_by(ABORT_CLEAR_STICKY) == 0x22u32) by (bit_vector);
    assert((ctrl & !0x22u32) & !0x22u32 == ctrl & !0x22u32) by (bit_vector);
    assert((ctrl & !0x22u32) & 0x20u32 == 0) by (bit_vector);
    assert((ctrl & !0x22u32) & 0x02u32 == 0) by (bit_vector);
}

/// The first transfer from `start` on whose status is not OK, or the
/// length of the batch.
pub open spec fn first_not_ok_from(ts: Seq<DapTransfer>, start: int) -> int
    decreases ts.len() - start,
{
    if start >= ts.len() {
        ts.len() as int
    } else if ts[start].status != TransferStatus::Okay {
        start
    } else {
        first_not_ok_from(ts, start + 1)
    }
}

/// The first transfer from `start` on whose status is not OK, or the
/// length of the batch.
pub fn first_not_ok(transfers: &Vec<DapTransfer>, start: usize) -> (r: usize)
    requires
        start <= transfers@.len(),
    ensures
        start <= r <= transfers@.len(),
        forall|k: int| start <= k < r ==> #[trigger] transfers@[k].status == TransferStatus::Okay,
        r < transfers@.len() ==> transfers@[r as int].status != TransferStatus::Okay,
        r == first_not_ok_from(transfers@, start as int),
{
    let mut k: usize = start;
    while k < transfers.len() && transfers[k].status == TransferStatus::Okay
        invariant
            start <= k <= transfers@.len(),
            first_not_ok_from(transfers@, start as int) == first_not_ok_from(transfers@, k as int),
            forall|j: int| start <= j < k ==> #[trigger] transfers@[j].status == TransferStatus::Okay,
        decreases transfers@.len() - k,
    {
        k = k + 1;
    }
    k
}

/// The transfers of a batch from `start` on.
pub fn chunk_from(transfers: &Vec<DapTransfer>, start: usize) -> (r: Vec<DapTransfer>)
    requires
        start <= transfers@.len(),
    ensures
        r@ == transfers@.subrange(start as int, transfers@.len() as int),
{
    let mut chunk: Vec<DapTransfer> = Vec::new();
    let mut j: usize = start;
    while j < transfers.len()
        invariant
            start <= j <= transfers@.len(),
            chunk@ =~= transfers@.subrange(start as int, j as int),
        decreases transfers@.len() - j,
    {
        chunk.push(transfers[j]);
        j = j + 1;
    }
    chunk
}

/// Puts a performed chunk back in place of the transfers from `start` on.
pub fn write_back(transfers: &mut Vec<DapTransfer>, start: usize, chunk: &Vec<DapTransfer>)
    requires
        start + chunk@.len() == old(transfers)@.len(),
    ensures
        final(transfers)@ == old(transfers)@.subrange(0, start as int) + chunk@,
{
    let ghost pre = transfers@;
    let n = transfers.len();
    let mut j: usize = start;
    while j < n
        invariant
            start <= j <= n,
            n == pre.len(),
            start + chunk@.len() == n,
            transfers@.len() == n,
            forall|k: int| 0 <= k < start ==> transfers@[k] == pre[k],
            forall|k: int| start <= k < j ==> transfers@[k] == chunk@[k - start],
        decreases n - j,
    {
        transfers.set(j, chunk[j - start]);
        j = j + 1;
    }
    assert(transfers@ =~= pre.subrange(0, start as int) + chunk@);
}

/// What follows an attempt.
#[derive(Clone, Copy, Debug, PartialEq, Eq, Structural)]
pub enum RetryAction {
    /// Every transfer succeeded.
    Done,
    /// A transfer got WAIT: try again from it.
    Retry,
    /// A transfer failed otherwise: the statuses tell the caller.
    Stop,
}

/// What follows an attempt that performed the transfers from `start` on.
pub open spec fn spec_retry_action(ts: Seq<DapTransfer>, start: int) -> RetryAction {
    let k = first_not_ok_from(ts, start);
    if k == ts.len() {
        RetryAction::Done
    } else if ts[k].status == TransferStatus::Failed(DapError::WaitResponse) {
        RetryAction::Retry
    } else {
        RetryAction::Stop
    }
}

/// The batch with `idle_cycles` added to each write from `start` on.
pub open spec fn grown(ts: Seq<DapTransfer>, start: int, idle_cycles: usize) -> Seq<DapTransfer> {
    Seq::new(
        ts.len(),
        |k: int|
            if k >= start && ts[k].spec_is_write() {
                DapTransfer {
                    idle_cycles_after: ts[k].idle_cycles_after.saturating_add(idle_cycles),
                    ..ts[k]
                }
            } else {
                ts[k]
            },
    )
}

/// The idle cycles added after the next WAIT: twice these, up to `max`.
pub open spec fn spec_next_idle(idle_cycles: usize, max: usize) -> usize {
    if max < 2 * idle_cycles {
        max
    } else {
        (2 * idle_cycles) as usize
    }
}

/// The idle cycles added to writes after the first WAIT.
pub open spec fn spec_initial_idle(settings: SwdSettings) -> usize {
    if settings.num_idle_cycles_between_writes > 1 {
        settings.num_idle_cycles_between_writes
    } else {
        1
    }
}

/// The batch `cur`, whose transfers before `start` succeeded, ends as `fin`
/// after at most `left` attempts that add `idle_cycles` to the writes after
/// a WAIT. Each attempt performs the transfers from `start` on. Where all
/// succeed, or one fails otherwise than with WAIT, that is the end. After a
/// WAIT the next attempt starts at the waited transfer, with the writes from
/// `start` on given `idle_cycles` more and the increment doubled up to the
/// cap. With no attempt left the batch stays as it is.
pub open spec fn retry_run(
    protocol: WireProtocol,
    settings: SwdSettings,
    cur: Seq<DapTransfer>,
    start: int,
    idle_cycles: usize,
    left: nat,
    fin: Seq<DapTransfer>,
) -> bool
    decreases left,
{
    if left == 0 {
        fin == cur
    } else {
        exists|out: Seq<DapTransfer>|
            #[trigger] raw_performed(protocol, cur.subrange(start, cur.len() as int), out) && {
                let after = cur.subrange(0, start) + out;
                if spec_retry_action(after, start) == RetryAction::Retry {
                    retry_run(
                        protocol,
                        settings,
                        grown(after, start, idle_cycles),
                        first_not_ok_from(after, start),
                        spec_next_idle(idle_cycles, settings.max_retry_idle_cycles_after_wait),
                        (left - 1) as nat,
                        fin,
                    )
                } else {
                    fin == after
                }
            }
    }
}

/// What follows an attempt that performed the transfers from `start` on:
/// the action, where the next attempt starts, and the idle cycles its
/// writes are then given.
pub fn retry_step(
    transfers: &Vec<DapTransfer>,
    start: usize,
    idle_cycles: usize,
    settings: &SwdSettings,
) -> (r: (RetryAction, usize, usize))
    requires
        start <= transfers@.len(),
    ensures
        r.0 == spec_retry_action(transfers@, start as int),
        r.1 == first_not_ok_from(transfers@, start as int),
        r.2 == spec_next_idle(idle_cycles, settings.max_retry_idle_cycles_after_wait),
        start <= r.1 <= transfers@.len(),
        forall|k: int| start <= k < r.1 ==> #[trigger] transfers@[k].status == TransferStatus::Okay,
        r.0 == RetryAction::Retry ==> r.1 < transfers@.len() && transfers@[r.1 as int].status
            == TransferStatus::Failed(DapError::WaitResponse),
{
    let (action, k) = retry_action(transfers, start);
    (action, k, next_retry_idle(idle_cycles, settings.max_retry_idle_cycles_after_wait))
}

/// What follows an attempt that performed the transfers from `start` on,
/// and the first of them that did not succeed (the length if none).
pub fn retry_action(transfers: &Vec<DapTransfer>, start: usize) -> (r: (RetryAction, usize))
    requires
        start <= transfers@.len(),
    ensures
        start <= r.1 <= transfers@.len(),
        forall|k: int| start <= k < r.1 ==> #[trigger] transfers@[k].status == TransferStatus::Okay,
        r.1 < transfers@.len() ==> transfers@[r.1 as int].status != TransferStatus::Okay,
        r.1 == first_not_ok_from(transfers@, start as int),
        r.0 == if r.1 == transfers@.len() {
            RetryAction::Done
        } else if transfers@[r.1 as int].status == TransferStatus::Failed(DapError::WaitResponse) {
            RetryAction::Retry
        } else {
            RetryAction::Stop
        },
{
    let k = first_not_ok(transfers, start);
    if k == transfers.len() {
        (RetryAction::Done, k)
    } else if transfers[k].status == TransferStatus::Failed(DapError::WaitResponse) {
        (RetryAction::Retry, k)
    } else {
        (RetryAction::Stop, k)
    }
}

/// Adds `idle_cycles` to each write from `start` on.
pub fn grow_write_idle(transfers: &mut Vec<DapTransfer>, start: usize, idle_cycles: usize)
    ensures
        final(transfers)@ == grown(old(transfers)@, start as int, idle_cycles),
        final(transfers)@.len() == old(transfers)@.len(),
        forall|k: int|
            0 <= k < old(transfers)@.len() ==> (#[trigger] final(transfers)@[k]) == if k >= start
                && old(transfers)@[k].spec_is_write() {
                DapTransfer {
                    idle_cycles_after: old(transfers)@[k].idle_cycles_after.saturating_add(
                        idle_cycles,
                    ),
                    ..old(transfers)@[k]
                }
            } else {
                old(transfers)@[k]
            },
{
    let ghost pre = transfers@;
    let mut k: usize = start;
    while k < transfers.len()
        invariant
            start <= k,
            transfers@.len() == pre.len(),
            forall|j: int|
                0 <= j < pre.len() ==> (#[trigger] transfers@[j]) == if start <= j < k
                    && pre[j].spec_is_write() {
                    DapTransfer {
                        idle_cycles_after: pre[j].idle_cycles_after.saturating_add(idle_cycles),
                        ..pre[j]
                    }
                } else {
                    pre[j]
                },
        decreases transfers@.len() - k,
    {
        let t = transfers[k];
        if t.is_write() {
            transfers.set(
                k,
                DapTransfer { idle_cycles_after: t.idle_cycles_after.saturating_add(idle_cycles), ..t },
            );
        }
        k = k + 1;
    }
    assert(transfers@ =~= grown(pre, start as int, idle_cycles));
}

/// The idle cycles added to writes after the first WAIT: those between
/// writes, at least one.
pub fn initial_retry_idle(settings: &SwdSettings) -> (r: usize)
    ensures
        r == spec_initial_idle(*settings),
{
    if settings.num_idle_cycles_between_writes > 1 {
        settings.num_idle_cycles_between_writes
    } else {
        1
    }
}

/// The idle cycles added after the next WAIT: twice these, up to `max`.
pub fn next_retry_idle(idle_cycles: usize, max: usize) -> (r: usize)
    ensures
        r == spec_next_idle(idle_cycles, max),
{
    let doubled = if idle_cycles <= usize::MAX / 2 {
        2 * idle_cycles
    } else {
        usize::MAX
    };
    if max < doubled {
        max
    } else {
        doubled
    }
}

/// Performs a batch, trying it again after a WAIT.
///
/// Each attempt performs the transfers from the first one that has not yet
/// succeeded. On a WAIT the sticky flags are cleared, the writes of the
/// attempt get more idle cycles, and the increment doubles up to the
/// settings' cap. Any other failure ends the attempts; the statuses tell
/// the caller. After the last allowed attempt the access port transaction
/// is aborted with a DAPABORT write. An error comes only from the transport
/// or from a failed ABORT write.
pub fn perform_raw_transfers_retry<P: RawSwdIo + JtagAccess>(
    probe: &mut P,
    protocol: WireProtocol,
    settings: &SwdSettings,
    transfers: &mut Vec<DapTransfer>,
) -> (r: Result<(), ArmError>)
    requires
        old(transfers)@.len() > 0,
    ensures
        r is Ok ==> retry_run(
            protocol,
            *settings,
            old(transfers)@,
            0,
            spec_initial_idle(*settings),
            settings.num_retries_after_wait as nat,
            final(transfers)@,
        ),
        r is Ok ==> settled(
            old(transfers)@,
            final(transfers)@,
            settings.num_retries_after_wait > 0,
        ),
        r is Err ==> r->Err_0 is Probe || r->Err_0 is Dap,
        r matches Err(ArmError::Dap(e)) ==> abort_write_failed(protocol, *settings, e),
{
    let ghost ts = transfers@;
    let n = transfers.len();
    let mut successful_transfers: usize = 0;
    let mut idle_cycles = initial_retry_idle(settings);
    let num_retries = settings.num_retries_after_wait;
    let mut attempt: usize = 0;
    while attempt < num_retries
        invariant
            ts == old(transfers)@,
            n == ts.len(),
            n > 0,
            num_retries == settings.num_retries_after_wait,
            attempt <= num_retries,
            successful_transfers < n,
            transfers@.len() == n,
            settled(ts, transfers@, attempt > 0),
            forall|k: int|
                0 <= k < successful_transfers ==> #[trigger] transfers@[k].status
                    == TransferStatus::Okay,
            forall|f: Seq<DapTransfer>|
                #[trigger] retry_run(
                    protocol,
                    *settings,
                    transfers@,
                    successful_transfers as int,
                    idle_cycles,
                    (num_retries - attempt) as nat,
                    f,
                ) ==> retry_run(
                    protocol,
                    *settings,
                    ts,
                    0,
                    spec_initial_idle(*settings),
                    num_retries as nat,
                    f,
                ),
        decreases num_retries - attempt,
    {
        // The transfers that have not succeeded yet.
        let start = successful_transfers;
        let ghost pre = transfers@;
        let ghost left = (num_retries - attempt) as nat;
        let ghost idle_before = idle_cycles;
        let mut chunk = chunk_from(transfers, start);
        let ghost sent = chunk@;
        if let Err(e) = perform_raw_transfers(probe, protocol, &mut chunk) {
            return Err(ArmError::Probe(e));
        }
        write_back(transfers, start, &chunk);
        let ghost after = transfers@;
        attempt = attempt + 1;
        proof {
            assert(raw_performed(protocol, pre.subrange(start as int, pre.len() as int), chunk@));
            assert forall|k: int| 0 <= k < n implies same_request(ts[k], #[trigger] transfers@[k])
                && is_done(transfers@[k]) by {
                if k >= start {
                    assert(sent[k - start] == pre[k]);
                    assert(same_request(sent[k - start], chunk@[k - start]));
                } else {
                    assert(transfers@[k] == pre[k]);
                }
            }
        }
        let (action, k, next_idle) = retry_step(transfers, start, idle_cycles, settings);
        match action {
            RetryAction::Retry => {},
            _ => {
                proof {
                    assert(retry_run(protocol, *settings, pre, start as int, idle_before, left, after));
                }
                return Ok(());
            },
        }
        successful_transfers = k;
        proof {
            assert(k == first_not_ok_from(after, start as int));
        }
        if let Err(e) = clear_overrun_and_sticky_err(probe, protocol, settings) {
            return Err(e);
        }
        // More idle cycles for the writes of this attempt.
        grow_write_idle(transfers, start, idle_cycles);
        proof {
            assert forall|j: int| 0 <= j < successful_transfers implies #[trigger] transfers@[j].status
                == TransferStatus::Okay by {
                assert(transfers@[j].status == after[j].status);
                if j < start {
                    assert(after[j] == pre[j]);
                }
            }
            assert forall|j: int| 0 <= j < n implies same_request(ts[j], #[trigger] transfers@[j])
                && is_done(transfers@[j]) by {
                assert(same_request(ts[j], after[j]) && is_done(after[j]));
            }
            assert forall|f: Seq<DapTransfer>|
                #[trigger] retry_run(
                    protocol,
                    *settings,
                    transfers@,
                    k as int,
                    next_idle,
                    (num_retries - attempt) as nat,
                    f,
                ) implies retry_run(
                    protocol,
                    *settings,
                    ts,
                    0,
                    spec_initial_idle(*settings),
                    num_retries as nat,
                    f,
                ) by {
                assert(retry_run(protocol, *settings, pre, start as int, idle_before, left, f));
            }
        }
        idle_cycles = next_idle;
    }
    // Out of attempts: abort the access port transaction.
    let abort = write_dp_register(probe, protocol, settings, DpRegisterAddress::abort(), ABORT_DAPABORT);
    if let Err(e) = abort {
        return Err(e);
    }
    proof {
        assert(retry_run(
            protocol,
            *settings,
            transfers@,
            successful_transfers as int,
            idle_cycles,
            (num_retries - attempt) as nat,
            transfers@,
        ));
    }
    Ok(())
}

} // verus!
