//! The transfer planner: the executed batch for a caller's batch, and the
//! way back from its results to the caller's transfers.

use vstd::prelude::*;

use crate::error::{ArmError, DebugProbeError, WireProtocol};
use crate::probe::{DebugProbe, JtagAccess, RawSwdIo, SwdSettings};
use crate::registers::{DpRegisterAddress, RegisterAddress};
use crate::retry::{abort_write_failed, perform_raw_transfers_retry, settled};
use crate::transfer::{is_done, same_request, DapTransfer, TransferDirection, TransferStatus};

verus! {

/// Where the result of a caller's transfer is found in the executed batch.
#[derive(Clone, Copy, Debug, PartialEq, Eq, Structural)]
pub struct CallerTransfer {
    /// The position of the transfer in the executed batch.
    pub index: usize,
    /// Whether its response comes with the transfer after it.
    pub response_in_next: bool,
}

/// Whether the response of `t` comes with the next transfer: on SWD, for an
/// access port read and for any write but an ABORT.
pub open spec fn spec_response_in_next(t: DapTransfer, protocol: WireProtocol) -> bool {
    protocol == WireProtocol::Swd && (t.spec_is_ap_read() || (t.spec_is_write()
        && !t.spec_is_abort()))
}

/// Whether an RDBUFF read is inserted after caller transfer `i`: on SWD,
/// after an access port read not followed by one, after an access port write
/// followed by a request that must not stall, and after the last transfer
/// when a result is still outstanding.
pub open spec fn needs_extra(ts: Seq<DapTransfer>, i: int, protocol: WireProtocol) -> bool {
    protocol == WireProtocol::Swd && if i + 1 < ts.len() {
        (ts[i].spec_is_ap_read() && !ts[i + 1].spec_is_ap_read()) || (ts[i].spec_is_ap_write()
            && ts[i + 1].spec_must_not_stall())
    } else {
        ts[i].spec_is_ap_read() || (ts[i].spec_is_write() && !ts[i].spec_is_abort())
    }
}

/// The idle cycles added before the RDBUFF read inserted after transfer `i`.
pub open spec fn extra_idle(ts: Seq<DapTransfer>, i: int, settings: SwdSettings) -> usize {
    if i + 1 < ts.len() {
        if ts[i].spec_is_ap_read() {
            0
        } else {
            settings.idle_cycles_before_write_verify
        }
    } else if ts[i].spec_is_write() && !ts[i].spec_is_abort() {
        settings.idle_cycles_before_write_verify
    } else {
        0
    }
}

/// The caller's transfer as executed: a write gets the idle cycles between writes.
pub open spec fn planned_copy(t: DapTransfer, settings: SwdSettings) -> DapTransfer {
    if t.spec_is_write() {
        DapTransfer { idle_cycles_after: settings.num_idle_cycles_between_writes, ..t }
    } else {
        t
    }
}

/// The executed transfers that stand for caller transfer `i`.
pub open spec fn plan_step(
    ts: Seq<DapTransfer>,
    i: int,
    protocol: WireProtocol,
    settings: SwdSettings,
) -> Seq<DapTransfer> {
    let c = planned_copy(ts[i], settings);
    if needs_extra(ts, i, protocol) {
        seq![
            DapTransfer {
                idle_cycles_after: c.idle_cycles_after.saturating_add(extra_idle(ts, i, settings)),
                ..c
            },
            DapTransfer::spec_read(RegisterAddress::DpRegister(DpRegisterAddress::spec_rdbuff())),
        ]
    } else {
        seq![c]
    }
}

/// The executed transfers that stand for the first `k` caller transfers.
pub open spec fn plan_prefix(
    ts: Seq<DapTransfer>,
    k: int,
    protocol: WireProtocol,
    settings: SwdSettings,
) -> Seq<DapTransfer>
    decreases k,
{
    if k <= 0 {
        Seq::empty()
    } else {
        plan_prefix(ts, k - 1, protocol, settings) + plan_step(ts, k - 1, protocol, settings)
    }
}

/// The position of caller transfer `i` in the executed batch.
pub open spec fn plan_index(ts: Seq<DapTransfer>, i: int, protocol: WireProtocol) -> int
    decreases i,
{
    if i <= 0 {
        0
    } else {
        plan_index(ts, i - 1, protocol) + 1 + if needs_extra(ts, i - 1, protocol) {
            1int
        } else {
            0int
        }
    }
}

/// The executed batch for `ts`: the planned transfers, the last one with the
/// idle cycles after a batch added.
pub open spec fn plan(ts: Seq<DapTransfer>, protocol: WireProtocol, settings: SwdSettings) -> Seq<
    DapTransfer,
> {
    let p = plan_prefix(ts, ts.len() as int, protocol, settings);
    p.update(
        p.len() - 1,
        DapTransfer {
            idle_cycles_after: p.last().idle_cycles_after.saturating_add(
                settings.idle_cycles_after_transfer,
            ),
            ..p.last()
        },
    )
}

/// The idle cycles of caller transfer `i` in the executed batch: those
/// between writes for a write, plus those before the check of a write where
/// an RDBUFF read follows it, plus those after a batch where it comes last.
pub open spec fn planned_idle(
    ts: Seq<DapTransfer>,
    i: int,
    protocol: WireProtocol,
    settings: SwdSettings,
) -> usize {
    let c = planned_copy(ts[i], settings).idle_cycles_after;
    let e = if needs_extra(ts, i, protocol) {
        c.saturating_add(extra_idle(ts, i, settings))
    } else {
        c
    };
    if plan_index(ts, i, protocol) == plan_index(ts, ts.len() as int, protocol) - 1 {
        e.saturating_add(settings.idle_cycles_after_transfer)
    } else {
        e
    }
}

/// Caller transfer `t` with its result from the executed batch: the status
/// at its position, or, when that is OK and the response comes with the next
/// transfer, the status of the next one; a read's value from where its
/// response comes.
pub open spec fn project_transfer(
    t: DapTransfer,
    index: int,
    response_in_next: bool,
    executed: Seq<DapTransfer>,
) -> DapTransfer {
    let first = executed[index].status;
    let status = if response_in_next && first == TransferStatus::Okay {
        executed[index + 1].status
    } else {
        first
    };
    let value = if t.direction == TransferDirection::Read {
        executed[index + if response_in_next { 1int } else { 0int }].value
    } else {
        t.value
    };
    DapTransfer { status, value, ..t }
}

/// The caller's batch with the results of the executed batch.
pub open spec fn project(
    ts: Seq<DapTransfer>,
    protocol: WireProtocol,
    executed: Seq<DapTransfer>,
) -> Seq<DapTransfer> {
    Seq::new(
        ts.len(),
        |i: int|
            project_transfer(
                ts[i],
                plan_index(ts, i, protocol),
                spec_response_in_next(ts[i], protocol),
                executed,
            ),
    )
}

proof fn lemma_plan_prefix(
    ts: Seq<DapTransfer>,
    k: int,
    protocol: WireProtocol,
    settings: SwdSettings,
)
    requires
        0 <= k <= ts.len(),
    ensures
        plan_prefix(ts, k, protocol, settings).len() == plan_index(ts, k, protocol),
        forall|i: int|
            0 <= i < k ==> plan_prefix(ts, k, protocol, settings)[#[trigger] plan_index(
                ts,
                i,
                protocol,
            )] == plan_step(ts, i, protocol, settings)[0],
        forall|i: int|
            0 <= i < k && needs_extra(ts, i, protocol) ==> plan_prefix(ts, k, protocol, settings)[
            #[trigger] plan_index(ts, i, protocol) + 1] == plan_step(ts, i, protocol, settings)[1],
    decreases k,
{
    if k > 0 {
        lemma_plan_prefix(ts, k - 1, protocol, settings);
        let prev = plan_prefix(ts, k - 1, protocol, settings);
        let cur = plan_prefix(ts, k, protocol, settings);
        assert(cur == prev + plan_step(ts, k - 1, protocol, settings));
        assert forall|i: int| 0 <= i < k implies cur[#[trigger] plan_index(ts, i, protocol)]
            == plan_step(ts, i, protocol, settings)[0] && (needs_extra(ts, i, protocol) ==> cur[
            plan_index(ts, i, protocol) + 1] == plan_step(ts, i, protocol, settings)[1]) by {
            lemma_plan_index_nonneg(ts, i, protocol);
            if i < k - 1 {
                lemma_plan_index_monotone(ts, i, k - 1, protocol);
            }
        }
    }
}

/// Position `j` of the executed batch stands for one of the first `k` caller
/// transfers, or is the RDBUFF read inserted after one.
pub open spec fn covered_by(ts: Seq<DapTransfer>, k: int, j: int, protocol: WireProtocol) -> bool {
    exists|i: int|
        0 <= i < k && (j == #[trigger] plan_index(ts, i, protocol) || (needs_extra(ts, i, protocol)
            && j == plan_index(ts, i, protocol) + 1))
}

proof fn lemma_plan_prefix_covered(
    ts: Seq<DapTransfer>,
    k: int,
    protocol: WireProtocol,
    settings: SwdSettings,
)
    requires
        0 <= k <= ts.len(),
    ensures
        forall|j: int|
            0 <= j < plan_prefix(ts, k, protocol, settings).len() ==> #[trigger] covered_by(
                ts,
                k,
                j,
                protocol,
            ),
    decreases k,
{
    if k > 0 {
        lemma_plan_prefix_covered(ts, k - 1, protocol, settings);
        lemma_plan_prefix(ts, k - 1, protocol, settings);
        lemma_plan_prefix(ts, k, protocol, settings);
        assert forall|j: int| 0 <= j < plan_prefix(ts, k, protocol, settings).len() implies #[trigger] covered_by(
            ts,
            k,
            j,
            protocol,
        ) by {
            if j < plan_index(ts, k - 1, protocol) {
                assert(covered_by(ts, k - 1, j, protocol));
                let i = choose|i: int|
                    0 <= i < k - 1 && (j == #[trigger] plan_index(ts, i, protocol) || (needs_extra(
                        ts,
                        i,
                        protocol,
                    ) && j == plan_index(ts, i, protocol) + 1));
                assert(0 <= i < k);
            } else {
                assert(j == plan_index(ts, k - 1, protocol) || j == plan_index(ts, k - 1, protocol) + 1);
            }
        }
    }
}

proof fn lemma_plan_index_monotone(ts: Seq<DapTransfer>, i: int, j: int, protocol: WireProtocol)
    requires
        0 <= i < j,
    ensures
        plan_index(ts, i, protocol) + 1 + (if needs_extra(ts, i, protocol) { 1int } else { 0int })
            <= plan_index(ts, j, protocol),
    decreases j,
{
    if i + 1 < j {
        lemma_plan_index_monotone(ts, i, j - 1, protocol);
    }
}

proof fn lemma_plan_index_nonneg(ts: Seq<DapTransfer>, i: int, protocol: WireProtocol)
    ensures
        plan_index(ts, i, protocol) >= 0,
        i > 0 ==> plan_index(ts, i, protocol) >= i,
    decreases i,
{
    if i > 0 {
        lemma_plan_index_nonneg(ts, i - 1, protocol);
    }
}

/// Plan-map correctness. Caller transfers map to strictly increasing
/// positions of the executed batch, each holding the same operation; the
/// position after it exists whenever the response comes with the next
/// transfer, and it holds either the next caller transfer or an inserted
/// RDBUFF read. On JTAG the executed batch is the caller's batch.
pub proof fn plan_map_law(ts: Seq<DapTransfer>, protocol: WireProtocol, settings: SwdSettings)
    requires
        ts.len() > 0,
    ensures
        plan(ts, protocol, settings).len() == plan_index(ts, ts.len() as int, protocol),
        forall|i: int, j: int|
            0 <= i < j < ts.len() ==> plan_index(ts, i, protocol) < plan_index(ts, j, protocol),
        forall|i: int|
            0 <= i < ts.len() ==> 0 <= #[trigger] plan_index(ts, i, protocol) && plan_index(
                ts,
                i,
                protocol,
            ) + (if spec_response_in_next(ts[i], protocol) { 1int } else { 0int }) < plan(
                ts,
                protocol,
                settings,
            ).len(),
        forall|i: int|
            0 <= i < ts.len() ==> same_request(
                ts[i],
                plan(ts, protocol, settings)[#[trigger] plan_index(ts, i, protocol)],
            ),
        forall|i: int|
            0 <= i < ts.len() && #[trigger] spec_response_in_next(ts[i], protocol) ==> (
            plan_index(ts, i, protocol) + 1 == plan_index(ts, i + 1, protocol) && i + 1 < ts.len())
                || same_request(
                DapTransfer::spec_read(RegisterAddress::DpRegister(DpRegisterAddress::spec_rdbuff())),
                plan(ts, protocol, settings)[plan_index(ts, i, protocol) + 1],
            ),
        protocol == WireProtocol::Jtag ==> plan(ts, protocol, settings).len() == ts.len(),
        forall|i: int|
            0 <= i < ts.len() ==> #[trigger] plan_index(ts, i + 1, protocol) == plan_index(
                ts,
                i,
                protocol,
            ) + 1 + if needs_extra(ts, i, protocol) {
                1int
            } else {
                0int
            },
        forall|i: int|
            0 <= i < ts.len() && #[trigger] needs_extra(ts, i, protocol) ==> same_request(
                DapTransfer::spec_read(RegisterAddress::DpRegister(DpRegisterAddress::spec_rdbuff())),
                plan(ts, protocol, settings)[plan_index(ts, i, protocol) + 1],
            ),
        forall|j: int|
            0 <= j < plan(ts, protocol, settings).len() ==> #[trigger] covered_by(
                ts,
                ts.len() as int,
                j,
                protocol,
            ),
        forall|i: int|
            0 <= i < ts.len() ==> plan(ts, protocol, settings)[#[trigger] plan_index(
                ts,
                i,
                protocol,
            )].idle_cycles_after == planned_idle(ts, i, protocol, settings),
{
    lemma_plan_prefix_covered(ts, ts.len() as int, protocol, settings);
    let n = ts.len() as int;
    let p = plan_prefix(ts, n, protocol, settings);
    lemma_plan_prefix(ts, n, protocol, settings);
    lemma_plan_index_nonneg(ts, n, protocol);
    assert forall|i: int, j: int| 0 <= i < j < ts.len() implies plan_index(ts, i, protocol)
        < plan_index(ts, j, protocol) by {
        lemma_plan_index_monotone(ts, i, j, protocol);
    }
    assert forall|i: int| 0 <= i < ts.len() implies 0 <= #[trigger] plan_index(ts, i, protocol)
        && plan_index(ts, i, protocol) + (if spec_response_in_next(ts[i], protocol) {
        1int
    } else {
        0int
    }) < plan(ts, protocol, settings).len() by {
        lemma_plan_index_nonneg(ts, i, protocol);
        lemma_plan_index_monotone(ts, i, n, protocol);
        if i + 1 < n {
            lemma_plan_index_monotone(ts, i + 1, n, protocol);
        }
    }
    assert forall|i: int| 0 <= i < ts.len() implies same_request(
        ts[i],
        plan(ts, protocol, settings)[#[trigger] plan_index(ts, i, protocol)],
    ) by {
        lemma_plan_index_nonneg(ts, i, protocol);
        lemma_plan_index_monotone(ts, i, n, protocol);
    }
    assert forall|i: int|
        0 <= i < ts.len() && #[trigger] spec_response_in_next(ts[i], protocol) implies (plan_index(
        ts,
        i,
        protocol,
    ) + 1 == plan_index(ts, i + 1, protocol) && i + 1 < ts.len()) || same_request(
        DapTransfer::spec_read(RegisterAddress::DpRegister(DpRegisterAddress::spec_rdbuff())),
        plan(ts, protocol, settings)[plan_index(ts, i, protocol) + 1],
    ) by {
        lemma_plan_index_nonneg(ts, i, protocol);
        lemma_plan_index_monotone(ts, i, n, protocol);
        if needs_extra(ts, i, protocol) {
            assert(p[plan_index(ts, i, protocol) + 1] == plan_step(ts, i, protocol, settings)[1]);
        }
    }
    if protocol == WireProtocol::Jtag {
        lemma_plan_jtag_len(ts, n);
    }
}

proof fn lemma_plan_jtag_len(ts: Seq<DapTransfer>, k: int)
    requires
        0 <= k,
    ensures
        plan_index(ts, k, WireProtocol::Jtag) == k,
    decreases k,
{
    if k > 0 {
        lemma_plan_jtag_len(ts, k - 1);
    }
}

/// Plans the executed batch for a caller's batch, and where each caller
/// transfer's result will be found in it.
pub fn plan_transfers(
    transfers: &Vec<DapTransfer>,
    protocol: WireProtocol,
    settings: &SwdSettings,
) -> (r: (Vec<DapTransfer>, Vec<CallerTransfer>))
    requires
        transfers@.len() > 0,
    ensures
        r.0@ == plan(transfers@, protocol, *settings),
        r.1@.len() == transfers@.len(),
        forall|i: int|
            0 <= i < transfers@.len() ==> (#[trigger] r.1@[i]).index as int == plan_index(
                transfers@,
                i,
                protocol,
            ),
        forall|i: int|
            0 <= i < transfers@.len() ==> (#[trigger] r.1@[i]).response_in_next
                == spec_response_in_next(transfers@[i], protocol),
{
    let ghost ts = transfers@;
    let n = transfers.len();
    let mut final_transfers: Vec<DapTransfer> = Vec::new();
    let mut result_indices: Vec<CallerTransfer> = Vec::new();
    let mut i: usize = 0;
    while i < n
        invariant
            n == ts.len(),
            transfers@ == ts,
            i <= n,
            final_transfers@ == plan_prefix(ts, i as int, protocol, *settings),
            result_indices@.len() == i,
            forall|j: int|
                0 <= j < i ==> (#[trigger] result_indices@[j]).index == plan_index(ts, j, protocol)
                    && result_indices@[j].response_in_next == spec_response_in_next(
                    ts[j],
                    protocol,
                ),
        decreases n - i,
    {
        proof {
            lemma_plan_prefix(ts, i as int, protocol, *settings);
        }
        let transfer = transfers[i];
        // The response of an access port read comes with the next transfer.
        let need_ap_read = transfer.is_ap_read();
        // Writes to an access port can be buffered.
        let buffered_write = transfer.is_ap_write();
        // Whether a write succeeded shows in the next transfer, except for ABORT.
        let write_response_pending = transfer.is_write() && !transfer.is_abort();
        result_indices.push(
            CallerTransfer {
                index: final_transfers.len(),
                response_in_next: protocol == WireProtocol::Swd && (need_ap_read
                    || write_response_pending),
            },
        );
        let mut copy = transfer;
        if transfer.is_write() {
            copy.idle_cycles_after = settings.num_idle_cycles_between_writes;
        }
        let mut need_extra = false;
        let mut extra_idle_cycles = settings.idle_cycles_before_write_verify;
        if protocol == WireProtocol::Swd {
            if i + 1 < n {
                let next = transfers[i + 1];
                if need_ap_read && !next.is_ap_read() {
                    need_extra = true;
                    extra_idle_cycles = 0;
                } else if buffered_write && next.must_not_stall() {
                    // A request that cannot be stalled must not overtake the buffered write.
                    need_extra = true;
                }
            } else {
                if !write_response_pending {
                    extra_idle_cycles = 0;
                }
                // Bring in the outstanding write response or read value.
                if need_ap_read || write_response_pending {
                    need_extra = true;
                }
            }
        }
        if need_extra {
            copy.idle_cycles_after = copy.idle_cycles_after.saturating_add(extra_idle_cycles);
            final_transfers.push(copy);
            // The debug port stalls this read until the write buffer is empty.
            final_transfers.push(
                DapTransfer::read(RegisterAddress::DpRegister(DpRegisterAddress::rdbuff())),
            );
        } else {
            final_transfers.push(copy);
        }
        proof {
            assert(final_transfers@ =~= plan_prefix(ts, i as int + 1, protocol, *settings));
        }
        i = i + 1;
    }
    // Idle cycles at the end, so that the last transfer is carried out.
    let last_index = final_transfers.len() - 1;
    let last = final_transfers[last_index];
    final_transfers.set(
        last_index,
        DapTransfer {
            idle_cycles_after: last.idle_cycles_after.saturating_add(
                settings.idle_cycles_after_transfer,
            ),
            ..last
        },
    );
    assert(transfers@ == ts);
    let r = (final_transfers, result_indices);
    r
}

/// Takes each caller transfer's result from the executed batch.
pub fn project_results(
    transfers: &mut Vec<DapTransfer>,
    executed: &Vec<DapTransfer>,
    result_indices: &Vec<CallerTransfer>,
)
    requires
        result_indices@.len() == old(transfers)@.len(),
        forall|i: int|
            0 <= i < result_indices@.len() ==> #[trigger] result_indices@[i].index + (if result_indices@[i].response_in_next {
                1int
            } else {
                0int
            }) < executed@.len(),
    ensures
        final(transfers)@ == Seq::new(
            old(transfers)@.len(),
            |i: int|
                project_transfer(
                    old(transfers)@[i],
                    result_indices@[i].index as int,
                    result_indices@[i].response_in_next,
                    executed@,
                ),
        ),
{
    let ghost ts = transfers@;
    let n = transfers.len();
    let m = executed.len();
    let mut i: usize = 0;
    while i < n
        invariant
            n == ts.len(),
            m == executed@.len(),
            i <= n,
            transfers@.len() == n,
            result_indices@.len() == n,
            forall|k: int|
                0 <= k < n ==> #[trigger] result_indices@[k].index + (if result_indices@[k].response_in_next {
                    1int
                } else {
                    0int
                }) < executed@.len(),
            forall|k: int|
                0 <= k < i ==> transfers@[k] == project_transfer(
                    ts[k],
                    result_indices@[k].index as int,
                    result_indices@[k].response_in_next,
                    executed@,
                ),
            forall|k: int| i <= k < n ==> transfers@[k] == ts[k],
        decreases n - i,
    {
        let orig = result_indices[i];
        let t = transfers[i];
        assert(result_indices@[i as int].index + (if result_indices@[i as int].response_in_next {
            1int
        } else {
            0int
        }) < executed@.len());
        // Where the first of two executed transfers fails, its status wins:
        // a WAIT there tells the caller to try again.
        let mut status = executed[orig.index].status;
        let response_idx = if orig.response_in_next {
            orig.index + 1
        } else {
            orig.index
        };
        if orig.response_in_next && status == TransferStatus::Okay {
            status = executed[response_idx].status;
        }
        let value = if t.direction == TransferDirection::Read {
            executed[response_idx].value
        } else {
            t.value
        };
        transfers.set(i, DapTransfer { status, value, ..t });
        i = i + 1;
    }
    proof {
        assert(transfers@ =~= Seq::new(
            ts.len(),
            |i: int|
                project_transfer(
                    ts[i],
                    result_indices@[i].index as int,
                    result_indices@[i].response_in_next,
                    executed@,
                ),
        ));
    }
}

/// Performs a caller's batch over `protocol` with `settings`.
///
/// On SWD, RDBUFF reads are inserted where a result would otherwise stay
/// outstanding or a buffered write could be overtaken; the executed batch is
/// settled on WAIT, and each caller transfer takes its result from where its
/// response comes. On JTAG the batch is executed as it stands.
pub fn perform_transfers_with<P: RawSwdIo + JtagAccess>(
    probe: &mut P,
    protocol: WireProtocol,
    settings: &SwdSettings,
    transfers: &mut Vec<DapTransfer>,
) -> (r: Result<(), ArmError>)
    requires
        old(transfers)@.len() > 0,
    ensures
        r is Ok ==> exists|executed: Seq<DapTransfer>|
            settled(
                plan(old(transfers)@, protocol, *settings),
                executed,
                true,
            ) && final(transfers)@ == project(old(transfers)@, protocol, executed),
        r is Ok ==> final(transfers)@.len() == old(transfers)@.len() && forall|i: int|
            0 <= i < old(transfers)@.len() ==> same_request(
                old(transfers)@[i],
                #[trigger] final(transfers)@[i],
            ),
        r is Ok ==> forall|i: int|
            0 <= i < final(transfers)@.len() ==> is_done(#[trigger] final(transfers)@[i]),
        r is Err ==> r->Err_0 is Probe || r->Err_0 is Dap || r->Err_0 is NotPerformed,
        r matches Err(ArmError::Dap(e)) ==> abort_write_failed(protocol, *settings, e),
        settings.num_retries_after_wait == 0 ==> r == Err::<(), ArmError>(ArmError::NotPerformed)
            && final(transfers)@ == old(transfers)@,
{
    if settings.num_retries_after_wait == 0 {
        // No attempt is allowed: no transfer can be given a status.
        return Err(ArmError::NotPerformed);
    }
    let ghost ts = transfers@;
    let (mut final_transfers, result_indices) = plan_transfers(transfers, protocol, settings);
    let ghost planned = final_transfers@;
    proof {
        plan_map_law(ts, protocol, *settings);
    }
    if let Err(e) = perform_raw_transfers_retry(probe, protocol, settings, &mut final_transfers) {
        return Err(e);
    }
    let ghost executed = final_transfers@;
    proof {
        assert forall|i: int| 0 <= i < result_indices@.len() implies #[trigger] result_indices@[i].index
            + (if result_indices@[i].response_in_next {
            1int
        } else {
            0int
        }) < final_transfers@.len() by {
            assert(result_indices@[i].index == plan_index(ts, i, protocol));
            assert(0 <= plan_index(ts, i, protocol));
        }
    }
    project_results(transfers, &final_transfers, &result_indices);
    proof {
        assert(transfers@ =~= project(ts, protocol, executed));
        assert forall|i: int| 0 <= i < ts.len() implies same_request(
            ts[i],
            #[trigger] transfers@[i],
        ) by {
            assert(result_indices@[i].index == plan_index(ts, i, protocol));
        }
        {
            assert forall|i: int| 0 <= i < transfers@.len() implies is_done(
                #[trigger] transfers@[i],
            ) by {
                assert(result_indices@[i].index == plan_index(ts, i, protocol));
                assert(0 <= plan_index(ts, i, protocol));
                let idx = plan_index(ts, i, protocol);
                assert(is_done(executed[idx]));
                if spec_response_in_next(ts[i], protocol) {
                    assert(is_done(executed[idx + 1]));
                }
            }
        }
    }
    Ok(())
}

/// Performs a caller's batch over the probe's wire protocol and with its
/// settings; see `perform_transfers_with`.
pub fn perform_transfers<P: DebugProbe + RawSwdIo + JtagAccess>(
    probe: &mut P,
    transfers: &mut Vec<DapTransfer>,
) -> (r: Result<(), ArmError>)
    requires
        old(transfers)@.len() > 0,
    ensures
        r is Ok ==> exists|protocol: WireProtocol, settings: SwdSettings, executed: Seq<DapTransfer>|
            settled(
                plan(old(transfers)@, protocol, settings),
                executed,
                true,
            ) && final(transfers)@ == project(old(transfers)@, protocol, executed),
        r is Ok ==> final(transfers)@.len() == old(transfers)@.len() && forall|i: int|
            0 <= i < old(transfers)@.len() ==> same_request(
                old(transfers)@[i],
                #[trigger] final(transfers)@[i],
            ),
        r is Ok ==> forall|i: int|
            0 <= i < final(transfers)@.len() ==> is_done(#[trigger] final(transfers)@[i]),
{
    let protocol = match probe.active_protocol() {
        Some(p) => p,
        None => return Err(ArmError::Probe(DebugProbeError::NoProtocolSelected)),
    };
    let settings = probe.swd_settings();
    perform_transfers_with(probe, protocol, &settings, transfers)
}

} // verus!
