//! Register access for callers: single and block reads and writes of
//! debug access port registers, with FAULT handling, and SWJ and JTAG line
//! sequences.

use vstd::prelude::*;

use crate::error::{ArmError, DapError, DebugProbeError, WireProtocol};
use crate::planner::{perform_transfers_with, plan, project};
use crate::probe::{DebugProbe, JtagAccess, JtagSequence, RawSwdIo, SwdSettings};
use crate::registers::{
    sticky_err, sticky_orun, DpRegisterAddress, RegisterAddress, CTRL_STICKYERR, CTRL_STICKYORUN,
};
use crate::retry::{
    abort_write_failed, clear_overrun_and_sticky_err, clear_result, first_not_ok, first_not_ok_from,
    settled,
};
use crate::bits::u64_le_bytes;
use crate::sequence::OutSequence;
use crate::transfer::{is_done, DapTransfer, TransferStatus};

verus! {

/// CTRL/STAT, as a register address.
pub open spec fn ctrl_port() -> RegisterAddress {
    RegisterAddress::DpRegister(DpRegisterAddress::spec_ctrl())
}

/// `n` reads of `address`.
pub open spec fn reads(address: RegisterAddress, n: nat) -> Seq<DapTransfer> {
    Seq::new(n, |i: int| DapTransfer::spec_read(address))
}

/// Writes of `values` to `address`.
pub open spec fn writes(address: RegisterAddress, values: Seq<u32>) -> Seq<DapTransfer> {
    Seq::new(values.len(), |i: int| DapTransfer::spec_write(address, values[i]))
}

/// Whether the batch `ts` may end as `after`: planned over some protocol and
/// settings, executed, and projected back.
pub open spec fn may_perform(ts: Seq<DapTransfer>, after: Seq<DapTransfer>) -> bool {
    exists|protocol: WireProtocol, settings: SwdSettings, executed: Seq<DapTransfer>|
        settled(plan(ts, protocol, settings), executed, true)
            && after == project(ts, protocol, executed)
}

fn protocol_of<P: DebugProbe>(probe: &P) -> (r: Result<WireProtocol, ArmError>)
    ensures
        r matches Err(e) ==> e == ArmError::Probe(DebugProbeError::NoProtocolSelected),
{
    match probe.active_protocol() {
        Some(p) => Ok(p),
        None => Err(ArmError::Probe(DebugProbeError::NoProtocolSelected)),
    }
}

/// What follows a single performed access.
#[derive(Clone, Copy, Debug, PartialEq, Eq, Structural)]
pub enum AccessStep {
    /// It succeeded; a read carries its value, a write 0.
    Done(u32),
    /// A FAULT on CTRL/STAT itself: clear the sticky flags, then fail with FAULT.
    ClearThenFault,
    /// A FAULT: read CTRL/STAT, clear the sticky flags if it shows a sticky
    /// overrun or error, then fail with FAULT.
    DiagnoseThenFault,
    /// Another failure, returned as it is.
    Fail(DapError),
    /// The access was not performed.
    NotPerformed,
}

/// What follows a performed read of `address`.
pub open spec fn spec_read_step(t: DapTransfer, address: RegisterAddress) -> AccessStep {
    match t.status {
        TransferStatus::Okay => AccessStep::Done(t.value),
        TransferStatus::Failed(DapError::FaultResponse) => if address == ctrl_port() {
            AccessStep::ClearThenFault
        } else {
            AccessStep::DiagnoseThenFault
        },
        TransferStatus::Failed(e) => AccessStep::Fail(e),
        TransferStatus::Pending => AccessStep::NotPerformed,
    }
}

/// What follows a performed write.
pub open spec fn spec_write_step(t: DapTransfer) -> AccessStep {
    match t.status {
        TransferStatus::Okay => AccessStep::Done(0),
        TransferStatus::Failed(DapError::FaultResponse) => AccessStep::DiagnoseThenFault,
        TransferStatus::Failed(e) => AccessStep::Fail(e),
        TransferStatus::Pending => AccessStep::NotPerformed,
    }
}

/// What follows a performed read of `address`.
pub fn read_step(t: &DapTransfer, address: &RegisterAddress) -> (r: AccessStep)
    ensures
        r == spec_read_step(*t, *address),
{
    match t.status {
        TransferStatus::Okay => AccessStep::Done(t.value),
        TransferStatus::Failed(DapError::FaultResponse) => {
            if *address == RegisterAddress::DpRegister(DpRegisterAddress::ctrl()) {
                // This may not have been CTRL/STAT, if SELECT picks another
                // bank; reading it again could recurse without end.
                AccessStep::ClearThenFault
            } else {
                AccessStep::DiagnoseThenFault
            }
        },
        TransferStatus::Failed(e) => AccessStep::Fail(e),
        TransferStatus::Pending => AccessStep::NotPerformed,
    }
}

/// What follows a performed write.
pub fn write_step(t: &DapTransfer) -> (r: AccessStep)
    ensures
        r == spec_write_step(*t),
{
    match t.status {
        TransferStatus::Okay => AccessStep::Done(0),
        TransferStatus::Failed(DapError::FaultResponse) => AccessStep::DiagnoseThenFault,
        TransferStatus::Failed(e) => AccessStep::Fail(e),
        TransferStatus::Pending => AccessStep::NotPerformed,
    }
}

/// Whether a CTRL/STAT value read after a FAULT asks for the sticky flags
/// to be cleared: it shows a sticky overrun or a sticky error.
pub fn fault_needs_clear(ctrl: u32) -> (r: bool)
    ensures
        r == (ctrl & CTRL_STICKYORUN != 0 || ctrl & CTRL_STICKYERR != 0),
{
    sticky_orun(ctrl) || sticky_err(ctrl)
}

/// The result of a FAULT once its follow-up gave `follow_up`: the error of
/// the follow-up, or else the FAULT.
pub open spec fn fault_result<T>(follow_up: Result<(), ArmError>) -> Result<T, ArmError> {
    match follow_up {
        Ok(_) => Err(ArmError::Dap(DapError::FaultResponse)),
        Err(e) => Err(e),
    }
}

/// `r` may be the result of a single access whose step is `step`.
pub open spec fn access_agrees(step: AccessStep, r: Result<u32, ArmError>) -> bool {
    match step {
        AccessStep::Done(v) => r == Ok::<u32, ArmError>(v),
        AccessStep::Fail(e) => r == Err::<u32, ArmError>(ArmError::Dap(e)),
        AccessStep::NotPerformed => r == Err::<u32, ArmError>(ArmError::NotPerformed),
        _ => r is Err,
    }
}

/// Ends the diagnosis of a FAULT once CTRL/STAT read `ctrl`: clears the
/// sticky flags iff it shows a sticky overrun or error.
pub fn finish_diagnosis<P: RawSwdIo + JtagAccess>(
    probe: &mut P,
    protocol: WireProtocol,
    settings: &SwdSettings,
    ctrl: u32,
) -> (r: Result<(), ArmError>)
    ensures
        !(ctrl & CTRL_STICKYORUN != 0 || ctrl & CTRL_STICKYERR != 0) ==> r == Ok::<(), ArmError>(()),
        (ctrl & CTRL_STICKYORUN != 0 || ctrl & CTRL_STICKYERR != 0) ==> clear_result(
            protocol,
            *settings,
            r,
        ),
        r is Err ==> r->Err_0 is Probe || r->Err_0 is Dap,
{
    if fault_needs_clear(ctrl) {
        clear_overrun_and_sticky_err(probe, protocol, settings)
    } else {
        Ok(())
    }
}

/// Reads CTRL/STAT to find the reason of a FAULT, and clears the sticky
/// flags where it shows a sticky overrun or error.
fn diagnose_fault<P: DebugProbe + RawSwdIo + JtagAccess>(
    probe: &mut P,
    protocol: WireProtocol,
    settings: &SwdSettings,
) -> (r: Result<(), ArmError>)
    ensures
        r is Err ==> r->Err_0 is Probe || r->Err_0 is Dap || r->Err_0 is NotPerformed,
    decreases 2int,
{
    // The read fails where SELECT picks another bank than 0.
    let ctrl = match raw_read_register(probe, RegisterAddress::DpRegister(DpRegisterAddress::ctrl())) {
        Ok(v) => v,
        Err(e) => return Err(e),
    };
    finish_diagnosis(probe, protocol, settings, ctrl)
}

/// The result of a read of `address` once its transfer `t` was performed:
/// its value, or its failure. A FAULT is returned after the sticky flags are
/// cleared: at once for CTRL/STAT, otherwise after CTRL/STAT was read and
/// shows a sticky overrun or error. An error of that follow-up is returned
/// in place of the FAULT.
pub fn finish_read<P: DebugProbe + RawSwdIo + JtagAccess>(
    probe: &mut P,
    protocol: WireProtocol,
    settings: &SwdSettings,
    address: RegisterAddress,
    t: &DapTransfer,
) -> (r: Result<u32, ArmError>)
    ensures
        access_agrees(spec_read_step(*t, address), r),
        spec_read_step(*t, address) == AccessStep::ClearThenFault ==> exists|
            follow_up: Result<(), ArmError>,
        | clear_result(protocol, *settings, follow_up) && r == fault_result::<u32>(follow_up),
        spec_read_step(*t, address) == AccessStep::DiagnoseThenFault ==> r == Err::<u32, ArmError>(
            ArmError::Dap(DapError::FaultResponse),
        ) || r->Err_0 is Probe || r->Err_0 is Dap || r->Err_0 is NotPerformed,
        r is Err ==> r->Err_0 is Probe || r->Err_0 is Dap || r->Err_0 is NotPerformed,
    decreases
            (if address == ctrl_port() {
                0int
            } else {
                3int
            }),
{
    match read_step(t, &address) {
        AccessStep::Done(value) => Ok(value),
        AccessStep::ClearThenFault => {
            // Clear the flags all the same, or every later access fails.
            let follow_up = clear_overrun_and_sticky_err(probe, protocol, settings);
            let r = match follow_up {
                Ok(()) => Err(ArmError::Dap(DapError::FaultResponse)),
                Err(e) => Err(e),
            };
            assert(clear_result(protocol, *settings, follow_up) && r == fault_result::<u32>(follow_up));
            r
        },
        AccessStep::DiagnoseThenFault => {
            match diagnose_fault(probe, protocol, settings) {
                Ok(()) => Err(ArmError::Dap(DapError::FaultResponse)),
                Err(e) => Err(e),
            }
        },
        AccessStep::Fail(e) => Err(ArmError::Dap(e)),
        AccessStep::NotPerformed => Err(ArmError::NotPerformed),
    }
}

/// Reads a register of the debug access port.
///
/// On a FAULT the sticky flags are cleared before the fault is returned: for
/// a read of CTRL/STAT at once, otherwise if CTRL/STAT shows a sticky
/// overrun or error; see `finish_read`.
pub fn raw_read_register<P: DebugProbe + RawSwdIo + JtagAccess>(
    probe: &mut P,
    address: RegisterAddress,
) -> (r: Result<u32, ArmError>)
    ensures
        r matches Ok(v) ==> exists|after: Seq<DapTransfer>|
            may_perform(seq![DapTransfer::spec_read(address)], after) && spec_read_step(
                after[0],
                address,
            ) == AccessStep::Done(v),
        r is Err ==> r->Err_0 is Probe || r->Err_0 is Dap || r->Err_0 is NotPerformed,
        r matches Err(ArmError::Dap(e)) ==> (exists|p: WireProtocol, s: SwdSettings|
            abort_write_failed(p, s, e)) || exists|after: Seq<DapTransfer>|
            may_perform(seq![DapTransfer::spec_read(address)], after) && access_agrees(
                spec_read_step(after[0], address),
                r,
            ),
    decreases
            (if address == ctrl_port() {
                1int
            } else {
                4int
            }),
{
    let protocol = match protocol_of(probe) {
        Ok(p) => p,
        Err(e) => return Err(e),
    };
    let settings = probe.swd_settings();
    let mut batch: Vec<DapTransfer> = vec![DapTransfer::read(address)];
    let ghost before = batch@;
    if let Err(e) = perform_transfers_with(probe, protocol, &settings, &mut batch) {
        return Err(e);
    }
    assert(before =~= seq![DapTransfer::spec_read(address)]);
    assert(may_perform(before, batch@));
    let t = batch[0];
    finish_read(probe, protocol, &settings, address, &t)
}

/// The first transfer of a performed batch that failed, and its failure;
/// none where all succeeded.
pub fn first_failure(transfers: &Vec<DapTransfer>) -> (r: Option<(usize, DapError)>)
    requires
        forall|i: int| 0 <= i < transfers@.len() ==> is_done(#[trigger] transfers@[i]),
    ensures
        r is None <==> forall|i: int|
            0 <= i < transfers@.len() ==> (#[trigger] transfers@[i]).status
                == TransferStatus::Okay,
        r is None <==> first_not_ok_from(transfers@, 0) == transfers@.len(),
        r matches Some((k, e)) ==> k < transfers@.len() && k == first_not_ok_from(transfers@, 0)
            && transfers@[k as int].status == TransferStatus::Failed(e) && forall|j: int|
            0 <= j < k ==> (#[trigger] transfers@[j]).status == TransferStatus::Okay,
{
    let k = first_not_ok(transfers, 0);
    if k == transfers.len() {
        None
    } else {
        match transfers[k].status {
            TransferStatus::Failed(e) => Some((k, e)),
            _ => {
                assert(is_done(transfers@[k as int]));
                None
            },
        }
    }
}

/// Copies the values of the first `k` transfers into `values`.
pub fn copy_read_values(transfers: &Vec<DapTransfer>, values: &mut Vec<u32>, k: usize)
    requires
        k <= transfers@.len(),
        k <= old(values)@.len(),
    ensures
        final(values)@.len() == old(values)@.len(),
        forall|j: int|
            0 <= j < old(values)@.len() ==> (#[trigger] final(values)@[j]) == if j < k {
                transfers@[j].value
            } else {
                old(values)@[j]
            },
{
    let ghost pre = values@;
    let mut i: usize = 0;
    while i < k
        invariant
            i <= k,
            k <= transfers@.len(),
            values@.len() == pre.len(),
            k <= pre.len(),
            forall|j: int|
                0 <= j < pre.len() ==> (#[trigger] values@[j]) == if j < i {
                    transfers@[j].value
                } else {
                    pre[j]
                },
        decreases k - i,
    {
        values.set(i, transfers[i].value);
        i = i + 1;
    }
}

/// `fin` holds the values of the reads of `after` before the first one
/// that failed, and `start` from there on.
pub open spec fn block_values(after: Seq<DapTransfer>, start: Seq<u32>, fin: Seq<u32>) -> bool {
    &&& fin.len() == start.len()
    &&& forall|j: int|
        0 <= j < fin.len() ==> (#[trigger] fin[j]) == if j < first_not_ok_from(after, 0) {
            after[j].value
        } else {
            start[j]
        }
}

/// The result of a performed block of accesses: Ok where all succeeded,
/// else the failure of the first that failed, with the sticky flags cleared
/// first where it is a FAULT; an error of the clearing is returned in its
/// place.
pub open spec fn block_result(
    protocol: WireProtocol,
    settings: SwdSettings,
    after: Seq<DapTransfer>,
    r: Result<(), ArmError>,
) -> bool {
    let k = first_not_ok_from(after, 0);
    if k >= after.len() {
        r == Ok::<(), ArmError>(())
    } else if after[k].status == TransferStatus::Failed(DapError::FaultResponse) {
        exists|follow_up: Result<(), ArmError>|
            clear_result(protocol, settings, follow_up) && r == fault_result::<()>(follow_up)
    } else {
        after[k].status matches TransferStatus::Failed(e) && r == Err::<(), ArmError>(ArmError::Dap(e))
    }
}

/// The result of a performed block of accesses, and for reads the values
/// before the first failed one; see `block_result`.
pub fn finish_block<P: RawSwdIo + JtagAccess>(
    probe: &mut P,
    protocol: WireProtocol,
    settings: &SwdSettings,
    transfers: &Vec<DapTransfer>,
    values: &mut Vec<u32>,
    keep_values: bool,
) -> (r: Result<(), ArmError>)
    requires
        forall|i: int| 0 <= i < transfers@.len() ==> is_done(#[trigger] transfers@[i]),
        keep_values ==> old(values)@.len() == transfers@.len(),
    ensures
        block_result(protocol, *settings, transfers@, r),
        keep_values ==> block_values(transfers@, old(values)@, final(values)@),
        !keep_values ==> final(values)@ == old(values)@,
        r is Err ==> r->Err_0 is Probe || r->Err_0 is Dap,
{
    let ghost pre = values@;
    match first_failure(transfers) {
        None => {
            if keep_values {
                copy_read_values(transfers, values, transfers.len());
                assert(block_values(transfers@, pre, values@));
            }
            Ok(())
        },
        Some((k, err)) => {
            if keep_values {
                copy_read_values(transfers, values, k);
                assert(block_values(transfers@, pre, values@));
            }
            if err == DapError::FaultResponse {
                let follow_up = clear_overrun_and_sticky_err(probe, protocol, settings);
                let r = match follow_up {
                    Ok(()) => Err(ArmError::Dap(DapError::FaultResponse)),
                    Err(e) => Err(e),
                };
                assert(clear_result(protocol, *settings, follow_up) && r == fault_result::<()>(
                    follow_up,
                ));
                r
            } else {
                Err(ArmError::Dap(err))
            }
        },
    }
}

/// Reads `values.len()` times from `address`, the usual way to read through
/// an auto-incrementing access port. The values of the reads before the
/// first failed one are kept; on a FAULT the sticky flags are cleared before
/// the fault is returned; see `finish_block`.
pub fn raw_read_block<P: DebugProbe + RawSwdIo + JtagAccess>(
    probe: &mut P,
    address: RegisterAddress,
    values: &mut Vec<u32>,
) -> (r: Result<(), ArmError>)
    ensures
        final(values)@.len() == old(values)@.len(),
        old(values)@.len() == 0 ==> r is Ok && final(values)@ == old(values)@,
        r is Ok && old(values)@.len() > 0 ==> exists|after: Seq<DapTransfer>|
            may_perform(reads(address, old(values)@.len()), after) && forall|i: int|
                0 <= i < after.len() ==> (#[trigger] after[i]).status == TransferStatus::Okay
                    && after[i].value == final(values)@[i],
        r is Err ==> r->Err_0 is Probe || r->Err_0 is Dap || r->Err_0 is NotPerformed,
        r matches Err(ArmError::Dap(e)) ==> (exists|p: WireProtocol, s: SwdSettings|
            abort_write_failed(p, s, e)) || exists|
            after: Seq<DapTransfer>,
            p: WireProtocol,
            s: SwdSettings,
        |
            may_perform(reads(address, old(values)@.len()), after) && block_result(p, s, after, r)
                && block_values(after, old(values)@, final(values)@),
{
    let n = values.len();
    if n == 0 {
        return Ok(());
    }
    let protocol = match protocol_of(probe) {
        Ok(p) => p,
        Err(e) => return Err(e),
    };
    let settings = probe.swd_settings();
    let mut transfers: Vec<DapTransfer> = Vec::new();
    let mut i: usize = 0;
    while i < n
        invariant
            i <= n,
            transfers@ =~= reads(address, i as nat),
        decreases n - i,
    {
        transfers.push(DapTransfer::read(address));
        i = i + 1;
    }
    let ghost before = transfers@;
    if let Err(e) = perform_transfers_with(probe, protocol, &settings, &mut transfers) {
        return Err(e);
    }
    assert(may_perform(before, transfers@));
    let ghost pre = values@;
    let r = finish_block(probe, protocol, &settings, &transfers, values, true);
    proof {
        if r is Ok {
            assert(first_not_ok_from(transfers@, 0) >= transfers@.len());
            assert forall|i: int| 0 <= i < transfers@.len() implies (#[trigger] transfers@[i]).status
                == TransferStatus::Okay && transfers@[i].value == values@[i] by {
                lemma_first_not_ok_prefix(transfers@, 0, i);
                assert(values@[i] == transfers@[i].value);
            }
        }
    }
    r
}

/// Writes a register of the debug access port.
///
/// On a FAULT, CTRL/STAT is read, and the sticky flags are cleared if it
/// shows a sticky overrun or error, before the fault is returned.
pub fn raw_write_register<P: DebugProbe + RawSwdIo + JtagAccess>(
    probe: &mut P,
    address: RegisterAddress,
    value: u32,
) -> (r: Result<(), ArmError>)
    ensures
        r is Ok ==> exists|after: Seq<DapTransfer>|
            may_perform(seq![DapTransfer::spec_write(address, value)], after) && spec_write_step(
                after[0],
            ) == AccessStep::Done(0),
        r is Err ==> r->Err_0 is Probe || r->Err_0 is Dap || r->Err_0 is NotPerformed,
        r matches Err(ArmError::Dap(e)) ==> (exists|p: WireProtocol, s: SwdSettings|
            abort_write_failed(p, s, e)) || exists|after: Seq<DapTransfer>|
            may_perform(seq![DapTransfer::spec_write(address, value)], after) && (spec_write_step(
                after[0],
            ) == AccessStep::Fail(e) || spec_write_step(after[0]) == AccessStep::DiagnoseThenFault),
{
    let protocol = match protocol_of(probe) {
        Ok(p) => p,
        Err(e) => return Err(e),
    };
    let settings = probe.swd_settings();
    let mut batch: Vec<DapTransfer> = vec![DapTransfer::write(address, value)];
    let ghost before = batch@;
    if let Err(e) = perform_transfers_with(probe, protocol, &settings, &mut batch) {
        return Err(e);
    }
    assert(before =~= seq![DapTransfer::spec_write(address, value)]);
    assert(may_perform(before, batch@));
    match write_step(&batch[0]) {
        AccessStep::Done(_) => Ok(()),
        AccessStep::DiagnoseThenFault | AccessStep::ClearThenFault => {
            // CTRL/STAT tells the reason of the fault.
            match diagnose_fault(probe, protocol, &settings) {
                Ok(()) => Err(ArmError::Dap(DapError::FaultResponse)),
                Err(e) => Err(e),
            }
        },
        AccessStep::Fail(e) => Err(ArmError::Dap(e)),
        AccessStep::NotPerformed => Err(ArmError::NotPerformed),
    }
}

/// Writes `values` to `address` one after the other. On a FAULT the sticky
/// flags are cleared before the fault is returned; see `finish_block`.
pub fn raw_write_block<P: DebugProbe + RawSwdIo + JtagAccess>(
    probe: &mut P,
    address: RegisterAddress,
    values: &[u32],
) -> (r: Result<(), ArmError>)
    ensures
        values@.len() == 0 ==> r is Ok,
        r is Ok && values@.len() > 0 ==> exists|after: Seq<DapTransfer>|
            may_perform(writes(address, values@), after) && forall|i: int|
                0 <= i < after.len() ==> (#[trigger] after[i]).status == TransferStatus::Okay,
        r is Err ==> r->Err_0 is Probe || r->Err_0 is Dap || r->Err_0 is NotPerformed,
        r matches Err(ArmError::Dap(e)) ==> (exists|p: WireProtocol, s: SwdSettings|
            abort_write_failed(p, s, e)) || exists|
            after: Seq<DapTransfer>,
            p: WireProtocol,
            s: SwdSettings,
        | may_perform(writes(address, values@), after) && block_result(p, s, after, r),
{
    let n = values.len();
    if n == 0 {
        return Ok(());
    }
    let protocol = match protocol_of(probe) {
        Ok(p) => p,
        Err(e) => return Err(e),
    };
    let settings = probe.swd_settings();
    let mut transfers: Vec<DapTransfer> = Vec::new();
    let mut i: usize = 0;
    while i < n
        invariant
            i <= n,
            n == values@.len(),
            transfers@ =~= writes(address, values@).take(i as int),
        decreases n - i,
    {
        transfers.push(DapTransfer::write(address, values[i]));
        i = i + 1;
    }
    let ghost before = transfers@;
    assert(before =~= writes(address, values@));
    if let Err(e) = perform_transfers_with(probe, protocol, &settings, &mut transfers) {
        return Err(e);
    }
    assert(may_perform(before, transfers@));
    let mut unused: Vec<u32> = Vec::new();
    let r = finish_block(probe, protocol, &settings, &transfers, &mut unused, false);
    proof {
        if r is Ok {
            assert(first_not_ok_from(transfers@, 0) >= transfers@.len());
            assert forall|i: int| 0 <= i < transfers@.len() implies (#[trigger] transfers@[i]).status
                == TransferStatus::Okay by {
                lemma_first_not_ok_prefix(transfers@, 0, i);
            }
        }
    }
    r
}

proof fn lemma_first_not_ok_prefix(ts: Seq<DapTransfer>, start: int, i: int)
    requires
        0 <= start <= i < first_not_ok_from(ts, start),
    ensures
        ts[i].status == TransferStatus::Okay,
    decreases ts.len() - start,
{
    if start < ts.len() && ts[start].status == TransferStatus::Okay && start < i {
        lemma_first_not_ok_prefix(ts, start + 1, i);
    }
}

/// The bits described by runs of equal values.
pub open spec fn expand_runs(runs: Seq<(bool, usize)>) -> Seq<bool>
    decreases runs.len(),
{
    if runs.len() == 0 {
        Seq::empty()
    } else {
        expand_runs(runs.drop_last()) + Seq::new(runs.last().1 as nat, |i: int| runs.last().0)
    }
}

/// The maximal runs of equal bits of `bits`, in order.
pub fn tms_runs(bits: &[bool]) -> (r: Vec<(bool, usize)>)
    ensures
        expand_runs(r@) == bits@,
        forall|i: int| 0 <= i < r@.len() ==> (#[trigger] r@[i]).1 > 0,
        forall|i: int| 0 <= i < r@.len() - 1 ==> (#[trigger] r@[i]).0 != r@[i + 1].0,
{
    let mut runs: Vec<(bool, usize)> = Vec::new();
    let mut i: usize = 0;
    while i < bits.len()
        invariant
            i <= bits@.len(),
            expand_runs(runs@) == bits@.take(i as int),
            runs@.len() <= i,
            forall|k: int| 0 <= k < runs@.len() ==> (#[trigger] runs@[k]).1 > 0,
            forall|k: int| 0 <= k < runs@.len() ==> (#[trigger] runs@[k]).1 <= i,
            forall|k: int| 0 <= k < runs@.len() - 1 ==> (#[trigger] runs@[k]).0 != runs@[k + 1].0,
            runs@.len() > 0 ==> runs@.last().0 == bits@[i - 1],
        decreases bits@.len() - i,
    {
        let bit = bits[i];
        let ghost prev = runs@;
        let len = runs.len();
        if len > 0 && runs[len - 1].0 == bit {
            let (value, count) = runs[len - 1];
            runs.set(len - 1, (value, count + 1));
            proof {
                assert(runs@.drop_last() =~= prev.drop_last());
                assert(expand_runs(runs@) =~= expand_runs(prev).push(bit));
            }
        } else {
            runs.push((bit, 1));
            proof {
                assert(runs@.drop_last() =~= prev);
                assert(expand_runs(runs@) =~= expand_runs(prev).push(bit));
            }
        }
        assert(bits@.take(i as int + 1) =~= bits@.take(i as int).push(bit));
        i = i + 1;
    }
    assert(bits@.take(bits@.len() as int) =~= bits@);
    runs
}

/// Clocks out an SWJ sequence over the wire protocol in use: on SWD as
/// driven SWDIO bits, on JTAG on TMS, which both modes share, one shift per
/// run of equal bits.
pub fn send_sequence<P: RawSwdIo + JtagAccess>(
    probe: &mut P,
    protocol: WireProtocol,
    sequence: &OutSequence,
) -> (r: Result<(), DebugProbeError>) {
    match protocol {
        WireProtocol::Jtag => {
            let runs = tms_runs(sequence.bits());
            let mut i: usize = 0;
            while i < runs.len()
                invariant
                    i <= runs@.len(),
                decreases runs@.len() - i,
            {
                let (tms, count) = runs[i];
                let data: Vec<bool> = vec![false; count];
                if let Err(e) = probe.shift_raw_sequence(JtagSequence { tms, data, tdo_capture: false }) {
                    return Err(e);
                }
                i = i + 1;
            }
            Ok(())
        },
        WireProtocol::Swd => {
            let items = sequence.io_items();
            match probe.swd_io(items.as_slice()) {
                Ok(_) => Ok(()),
                Err(e) => Err(e),
            }
        },
    }
}

/// Clocks out the `bit_len` lowest bits of `bits` as an SWJ sequence.
pub fn swj_sequence<P: DebugProbe + RawSwdIo + JtagAccess>(
    probe: &mut P,
    bit_len: u8,
    bits: u64,
) -> (r: Result<(), DebugProbeError>) {
    let protocol = match probe.active_protocol() {
        Some(p) => p,
        None => return Err(DebugProbeError::NoProtocolSelected),
    };
    let bytes = u64_le_bytes(bits);
    let io_sequence = OutSequence::from_bytes(bytes.as_slice(), bit_len as usize);
    send_sequence(probe, protocol, &io_sequence)
}

/// The `bit_len` lowest bits of `bits`, least significant first.
pub fn low_bits(bit_len: u8, bits: u64) -> (r: Vec<bool>)
    requires
        bit_len <= 64,
    ensures
        r@ == Seq::new(bit_len as nat, |i: int| (bits >> (i as u64)) & 1 == 1),
{
    let mut data: Vec<bool> = Vec::with_capacity(bit_len as usize);
    let mut i: u8 = 0;
    while i < bit_len
        invariant
            i <= bit_len <= 64,
            data@ =~= Seq::new(i as nat, |k: int| (bits >> (k as u64)) & 1 == 1),
        decreases bit_len - i,
    {
        data.push((bits >> (i as u64)) & 1 == 1);
        i = i + 1;
    }
    data
}

/// Shifts the `bit_len` lowest bits of `bits` out on TDI with TMS held at `tms`.
pub fn jtag_sequence<P: JtagAccess>(probe: &mut P, bit_len: u8, tms: bool, bits: u64) -> (r: Result<
    (),
    DebugProbeError,
>)
    requires
        bit_len <= 64,
{
    let data = low_bits(bit_len, bits);
    match probe.shift_raw_sequence(JtagSequence { tms, data, tdo_capture: false }) {
        Ok(_) => Ok(()),
        Err(e) => Err(e),
    }
}

} // verus!
