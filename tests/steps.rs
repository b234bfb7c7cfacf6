use probe_dap::access::{
    copy_read_values, fault_needs_clear, first_failure, read_step, write_step, AccessStep,
};
use probe_dap::error::{ArmError, DapError, DebugProbeError};
use probe_dap::jtag::{idle_cycles_u8, jtag_idle_setting, project_jtag_results, sticky_clear_command};
use probe_dap::probe::SwdSettings;
use probe_dap::registers::{ApAddress, DpRegisterAddress, RegisterAddress, ABORT_CLEAR_STICKY};
use probe_dap::retry::{
    chunk_from, dp_write_transfer, grow_write_idle, initial_retry_idle, next_retry_idle,
    retry_action, retry_step, write_back, write_result, RetryAction,
};
use probe_dap::sequence::IoSequenceItem;
use probe_dap::swd::{apply_swd_answer, batch_io_sequence, batch_length};
use probe_dap::transfer::{CommandResult, DapTransfer, TransferStatus};

fn ap(address: u8) -> RegisterAddress {
    ApAddress::V1(address).into()
}

fn dp(address: DpRegisterAddress) -> RegisterAddress {
    address.into()
}

fn with_status(mut t: DapTransfer, status: TransferStatus) -> DapTransfer {
    t.status = status;
    t
}

fn read_answer(value: u32) -> Vec<bool> {
    let mut bits = vec![false; 8];
    bits.extend([true, false, false]);
    for i in 0..32 {
        bits.push(value & (1 << i) != 0);
    }
    bits.push(value.count_ones() % 2 == 1);
    bits.extend([false, false]);
    bits
}

#[test]
fn batch_sequence_holds_each_frame_and_idle_cycles() {
    let mut w = DapTransfer::write(ap(4), 0xFFFF_FFFF);
    w.idle_cycles_after = 3;
    let ts = vec![w, DapTransfer::read(ap(4))];
    let seq = batch_io_sequence(&ts);
    let items = seq.io_items();
    assert_eq!(items.len(), 46 + 3 + 46);
    assert_eq!(batch_length(&ts), 95);
    // the write drives its data
    assert_eq!(items[13], IoSequenceItem::Output(true));
    assert_eq!(&items[46..49], &[IoSequenceItem::Output(false); 3]);
    // the read's request has RnW set
    assert_eq!(items[49 + 2], IoSequenceItem::Output(true));
}

#[test]
fn answer_is_parsed_per_frame() {
    let mut ts = vec![DapTransfer::read(ap(4)), DapTransfer::read(dp(DpRegisterAddress::ctrl()))];
    let mut bits = read_answer(7);
    bits.extend(read_answer(0x55AA));
    assert_eq!(apply_swd_answer(&mut ts, &bits), Ok(()));
    assert_eq!(ts[0].status, TransferStatus::Okay);
    assert_eq!(ts[0].value, 7);
    assert_eq!(ts[1].value, 0x55AA);
}

#[test]
fn short_answer_changes_nothing() {
    let mut ts = vec![DapTransfer::read(ap(4))];
    let bits = vec![true; 45];
    assert_eq!(
        apply_swd_answer(&mut ts, &bits),
        Err(DebugProbeError::IncompleteResponse { expected: 46, received: 45 })
    );
    assert_eq!(ts, vec![DapTransfer::read(ap(4))]);
}

#[test]
fn retry_steps() {
    let ok = with_status(DapTransfer::read(ap(4)), TransferStatus::Okay);
    let wait = with_status(DapTransfer::read(ap(4)), TransferStatus::Failed(DapError::WaitResponse));
    let fault = with_status(DapTransfer::read(ap(4)), TransferStatus::Failed(DapError::FaultResponse));
    assert_eq!(retry_action(&vec![ok, ok], 0), (RetryAction::Done, 2));
    assert_eq!(retry_action(&vec![ok, wait, ok], 0), (RetryAction::Retry, 1));
    assert_eq!(retry_action(&vec![ok, fault], 1), (RetryAction::Stop, 1));
    assert_eq!(next_retry_idle(2, 128), 4);
    assert_eq!(next_retry_idle(100, 128), 128);
    assert_eq!(next_retry_idle(usize::MAX, 5), 5);
    let mut s = SwdSettings::default();
    assert_eq!(initial_retry_idle(&s), 2);
    s.num_idle_cycles_between_writes = 0;
    assert_eq!(initial_retry_idle(&s), 1);
}

#[test]
fn retry_chunks_and_idle_growth() {
    let ts = vec![DapTransfer::write(ap(0), 1), DapTransfer::read(ap(4)), DapTransfer::write(ap(0), 2)];
    let chunk = chunk_from(&ts, 1);
    assert_eq!(chunk, ts[1..].to_vec());
    let mut grown = ts.clone();
    grow_write_idle(&mut grown, 1, 5);
    assert_eq!(grown[0].idle_cycles_after, 0);
    assert_eq!(grown[1].idle_cycles_after, 0);
    assert_eq!(grown[2].idle_cycles_after, 5);
    let mut back = ts.clone();
    let done = vec![with_status(ts[1], TransferStatus::Okay), with_status(ts[2], TransferStatus::Okay)];
    write_back(&mut back, 1, &done);
    assert_eq!(back[0], ts[0]);
    assert_eq!(&back[1..], &done[..]);
}

#[test]
fn debug_port_write_and_its_result() {
    let s = SwdSettings::default();
    let t = dp_write_transfer(DpRegisterAddress::abort(), ABORT_CLEAR_STICKY, &s);
    assert!(t.is_abort());
    assert_eq!(t.value, 0x14);
    assert_eq!(t.idle_cycles_after, 10);
    assert_eq!(write_result(&with_status(t, TransferStatus::Okay)), Ok(()));
    assert_eq!(
        write_result(&with_status(t, TransferStatus::Failed(DapError::NoAcknowledge))),
        Err(ArmError::Dap(DapError::NoAcknowledge))
    );
    assert_eq!(write_result(&t), Err(ArmError::NotPerformed));
}

#[test]
fn jtag_idle_cycles_of_a_batch() {
    let mut a = DapTransfer::read(ap(4));
    a.idle_cycles_after = 7;
    let mut b = DapTransfer::read(ap(4));
    b.idle_cycles_after = 3;
    assert_eq!(jtag_idle_setting(&vec![a, b]), 7);
    b.idle_cycles_after = 1000;
    assert_eq!(jtag_idle_setting(&vec![a, b]), 255);
    assert_eq!(idle_cycles_u8(12), 12);
}

#[test]
fn final_rdbuff_read_is_always_ok() {
    let mut ts = vec![DapTransfer::read(dp(DpRegisterAddress::rdbuff()))];
    project_jtag_results(&mut ts, &vec![CommandResult::U32(0)], Some(DapError::WaitResponse));
    assert_eq!(ts[0].status, TransferStatus::Okay);
}

#[test]
fn access_steps() {
    let read = DapTransfer::read(ap(4));
    assert_eq!(read_step(&with_status(read, TransferStatus::Okay), &ap(4)), AccessStep::Done(0));
    let fault = TransferStatus::Failed(DapError::FaultResponse);
    assert_eq!(read_step(&with_status(read, fault), &ap(4)), AccessStep::DiagnoseThenFault);
    let ctrl = dp(DpRegisterAddress::ctrl());
    assert_eq!(read_step(&with_status(DapTransfer::read(ctrl), fault), &ctrl), AccessStep::ClearThenFault);
    assert_eq!(
        read_step(&with_status(read, TransferStatus::Failed(DapError::IncorrectParity)), &ap(4)),
        AccessStep::Fail(DapError::IncorrectParity)
    );
    assert_eq!(read_step(&read, &ap(4)), AccessStep::NotPerformed);
    let write = DapTransfer::write(ctrl, 1);
    assert_eq!(write_step(&with_status(write, fault)), AccessStep::DiagnoseThenFault);
    assert_eq!(write_step(&with_status(write, TransferStatus::Okay)), AccessStep::Done(0));
    assert!(fault_needs_clear(0x02) && fault_needs_clear(0x20) && !fault_needs_clear(0x10));
}

#[test]
fn block_failure_and_values() {
    let mut a = with_status(DapTransfer::read(ap(4)), TransferStatus::Okay);
    a.value = 11;
    let b = with_status(DapTransfer::read(ap(4)), TransferStatus::Failed(DapError::WaitResponse));
    let ts = vec![a, b];
    assert_eq!(first_failure(&ts), Some((1, DapError::WaitResponse)));
    assert_eq!(first_failure(&vec![a, a]), None);
    let mut values = vec![0, 99];
    copy_read_values(&ts, &mut values, 1);
    assert_eq!(values, vec![11, 99]);
}

#[test]
fn sticky_error_clear_command() {
    assert_eq!(sticky_clear_command(None), None);
    assert_eq!(sticky_clear_command(Some(0x02)), None);
    assert_eq!(
        sticky_clear_command(Some(0x22)),
        Some(DapTransfer::write(dp(DpRegisterAddress::ctrl()), 0x22))
    );
}

#[test]
fn retry_step_after_wait() {
    let ok = with_status(DapTransfer::read(ap(4)), TransferStatus::Okay);
    let wait = with_status(DapTransfer::read(ap(4)), TransferStatus::Failed(DapError::WaitResponse));
    let s = SwdSettings::default();
    assert_eq!(retry_step(&vec![ok, ok, wait], 1, 2, &s), (RetryAction::Retry, 2, 4));
    assert_eq!(retry_step(&vec![ok, ok], 0, 100, &s), (RetryAction::Done, 2, 128));
}
