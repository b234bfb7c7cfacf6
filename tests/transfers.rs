use probe_dap::error::{DebugProbeError, WireProtocol};
use probe_dap::probe::{DebugProbe, JtagAccess, JtagSequence, RawSwdIo, SwdSettings};
use probe_dap::access::{
    finish_block, finish_diagnosis, finish_read, jtag_sequence, raw_read_block, raw_read_register, raw_write_block, raw_write_register,
    swj_sequence,
};
use probe_dap::error::{ArmError, DapError};
use probe_dap::registers::ABORT_CLEAR_STICKY;
use probe_dap::retry::clear_overrun_and_sticky_err;
use probe_dap::planner::perform_transfers;
use probe_dap::registers::{ApAddress, DpRegisterAddress, RegisterAddress};
use probe_dap::transfer::{DapTransfer, TransferStatus};
use probe_dap::sequence::IoSequenceItem;
use probe_dap::transfer::{
    JTAG_ABORT_IR_VALUE, JTAG_ACCESS_PORT_IR_VALUE, JTAG_DEBUG_PORT_IR_VALUE, JTAG_DR_BIT_LENGTH,
    JTAG_STATUS_OK, JTAG_STATUS_WAIT,
};

#[allow(dead_code)]
pub enum DapAcknowledge {
    Okay,
    Wait,
    Fault,
    NoAck,
}

#[derive(Debug)]
pub struct ExpectedJtagTransaction {
    pub ir_address: u32,
    pub address: u32,
    pub value: u32,
    pub read: bool,
    pub result: u64,
}

#[derive(Debug)]
pub struct MockJaylink {
    pub io_input: Option<Vec<IoSequenceItem>>,
    pub sent: Vec<Vec<IoSequenceItem>>,
    pub transfer_responses: Vec<Vec<bool>>,
    pub jtag_transactions: Vec<ExpectedJtagTransaction>,
    pub expected_transfer_count: usize,
    pub performed_transfer_count: usize,
    pub swd_settings: SwdSettings,
    pub protocol: WireProtocol,
    pub no_protocol: bool,
    pub shifted: Vec<JtagSequence>,
    pub idle_cycles: u8,
}

fn ack_bits(response: &mut [bool], acknowledge: DapAcknowledge) {
    match acknowledge {
        DapAcknowledge::Okay => response[8] = true,
        DapAcknowledge::Wait => response[9] = true,
        DapAcknowledge::Fault => response[10] = true,
        DapAcknowledge::NoAck => {}
    }
}

impl MockJaylink {
    pub fn new() -> Self {
        Self {
            io_input: None,
            sent: vec![],
            transfer_responses: vec![vec![]],
            jtag_transactions: vec![],
            expected_transfer_count: 1,
            performed_transfer_count: 0,
            swd_settings: SwdSettings::default(),
            protocol: WireProtocol::Swd,
            no_protocol: false,
            shifted: vec![],
            idle_cycles: 0,
        }
    }

    pub fn select_protocol(&mut self, protocol: WireProtocol) -> Result<(), DebugProbeError> {
        self.protocol = protocol;
        Ok(())
    }

    pub fn add_write_response(&mut self, acknowledge: DapAcknowledge, idle_cycles: usize) {
        let last_transfer = self.transfer_responses.last_mut().unwrap();
        // 8 request bits, turnaround, 3 acknowledge bits, 2 turnaround bits,
        // the data and the idle cycles.
        let write_length = 8 + 1 + 3 + 2 + 32 + idle_cycles;
        let mut response = vec![false; write_length];
        ack_bits(&mut response, acknowledge);
        last_transfer.extend(response);
    }

    pub fn add_jtag_abort(&mut self) {
        self.jtag_transactions.push(ExpectedJtagTransaction {
            ir_address: JTAG_ABORT_IR_VALUE,
            address: 0,
            value: 0,
            read: false,
            result: 0,
        });
        self.expected_transfer_count += 1;
    }

    pub fn add_jtag_response(
        &mut self,
        port: RegisterAddress,
        read: bool,
        acknowlege: DapAcknowledge,
        output_value: u32,
        input_value: u32,
    ) {
        let address = port.lsb() as u32;
        let mut response = (output_value as u64) << 3;
        let status = match acknowlege {
            DapAcknowledge::Okay => JTAG_STATUS_OK,
            DapAcknowledge::Wait => JTAG_STATUS_WAIT,
            _ => 0b111,
        };
        response |= status;
        self.jtag_transactions.push(ExpectedJtagTransaction {
            ir_address: if matches!(port, RegisterAddress::DpRegister(_)) {
                JTAG_DEBUG_PORT_IR_VALUE
            } else {
                JTAG_ACCESS_PORT_IR_VALUE
            },
            address,
            value: input_value,
            read,
            result: response,
        });
        self.expected_transfer_count += 1;
    }

    pub fn add_read_response(&mut self, acknowledge: DapAcknowledge, value: u32) {
        let last_transfer = self.transfer_responses.last_mut().unwrap();
        let read_length = 8 + 1 + 3 + 32 + 2;
        let mut response = vec![false; read_length];
        ack_bits(&mut response, acknowledge);
        for i in 0..32 {
            response[11 + i] = value & (1 << i) != 0;
        }
        response[11 + 32] = value.count_ones() % 2 == 1;
        last_transfer.extend(response);
    }

    pub fn add_idle_cycles(&mut self, len: usize) {
        let last_transfer = self.transfer_responses.last_mut().unwrap();
        last_transfer.extend(std::iter::repeat_n(false, len))
    }

    pub fn add_transfer(&mut self) {
        self.transfer_responses.push(Vec::new());
        self.expected_transfer_count += 1;
    }
}

impl JtagAccess for MockJaylink {
    fn write_register(
        &mut self,
        address: u32,
        data: &[u8],
        len: u32,
    ) -> Result<Vec<bool>, DebugProbeError> {
        let mut jtag_value = 0u64;
        for (i, byte) in data[..5].iter().enumerate() {
            jtag_value |= (*byte as u64) << (8 * i);
        }
        // Always 35 bit transfers
        assert_eq!(len, JTAG_DR_BIT_LENGTH);
        let jtag_transaction = self.jtag_transactions.remove(0);
        assert_eq!(
            jtag_transaction.ir_address,
            address,
            "Address mismatch with {} remaining transactions",
            self.jtag_transactions.len()
        );
        if jtag_transaction.ir_address != JTAG_ABORT_IR_VALUE {
            let value = (jtag_value >> 3) as u32;
            let rnw = jtag_value & 1 == 1;
            let dap_address = ((jtag_value & 0x6) << 1) as u32;
            assert_eq!(dap_address, jtag_transaction.address);
            assert_eq!(rnw, jtag_transaction.read);
            assert_eq!(value, jtag_transaction.value);
        }
        self.performed_transfer_count += 1;
        let ret = jtag_transaction.result;
        Ok((0..40).map(|i| (ret >> i) & 1 == 1).collect())
    }

    fn read_register(&mut self, _address: u32, _len: u32) -> Result<Vec<bool>, DebugProbeError> {
        Err(DebugProbeError::NotImplemented {
            function_name: "read_register".to_string(),
        })
    }

    fn set_idle_cycles(&mut self, idle_cycles: u8) -> Result<(), DebugProbeError> {
        self.idle_cycles = idle_cycles;
        Ok(())
    }

    fn idle_cycles(&self) -> u8 {
        self.idle_cycles
    }

    fn shift_raw_sequence(&mut self, sequence: JtagSequence) -> Result<Vec<bool>, DebugProbeError> {
        self.shifted.push(sequence);
        Ok(vec![])
    }
}

impl RawSwdIo for MockJaylink {
    fn swd_io(&mut self, swdio: &[IoSequenceItem]) -> Result<Vec<bool>, DebugProbeError> {
        self.io_input = Some(swdio.to_vec());
        self.sent.push(swdio.to_vec());
        let transfer_response = self.transfer_responses.remove(0);
        let io_bits = swdio.len();
        assert_eq!(
            transfer_response.len(),
            io_bits,
            "Length mismatch for transfer {}/{}. Transferred {} bits, expected {}",
            self.performed_transfer_count + 1,
            self.expected_transfer_count,
            io_bits,
            transfer_response.len(),
        );
        self.performed_transfer_count += 1;
        Ok(transfer_response)
    }

    fn swj_pins(
        &mut self,
        _pin_out: u32,
        _pin_select: u32,
        _pin_wait: u32,
    ) -> Result<u32, DebugProbeError> {
        Err(DebugProbeError::CommandNotSupportedByProbe {
            command_name: "swj_pins".to_string(),
        })
    }

    fn swd_settings(&self) -> SwdSettings {
        self.swd_settings
    }
}

impl DebugProbe for MockJaylink {
    fn active_protocol(&self) -> Option<WireProtocol> {
        if self.no_protocol {
            None
        } else {
            Some(self.protocol)
        }
    }
}

fn ap(address: u8) -> RegisterAddress {
    ApAddress::V1(address).into()
}

fn dp(address: DpRegisterAddress) -> RegisterAddress {
    address.into()
}

#[test]
fn read_register() {
    let read_value = 12;
    let mut mock = MockJaylink::new();
    mock.add_read_response(DapAcknowledge::Okay, 0);
    mock.add_read_response(DapAcknowledge::Okay, read_value);
    mock.add_idle_cycles(mock.swd_settings.idle_cycles_after_transfer);
    let result = raw_read_register(&mut mock, ap(4)).unwrap();
    assert_eq!(result, read_value);
}

#[test]
fn read_register_jtag() {
    let read_value = 12;
    let mut mock = MockJaylink::new();
    let result = mock.select_protocol(WireProtocol::Jtag);
    assert!(result.is_ok());
    // Read request
    mock.add_jtag_response(ap(4), true, DapAcknowledge::Okay, 0, 0);
    mock.add_jtag_response(dp(DpRegisterAddress::rdbuff()), true, DapAcknowledge::Okay, read_value, 0);
    // Check CTRL
    mock.add_jtag_response(dp(DpRegisterAddress::ctrl()), true, DapAcknowledge::Okay, 0, 0);
    mock.add_jtag_response(dp(DpRegisterAddress::rdbuff()), true, DapAcknowledge::Okay, 0, 0);
    let result = raw_read_register(&mut mock, ap(4)).unwrap();
    assert_eq!(result, read_value);
}

#[test]
fn read_register_with_wait_response() {
    let read_value = 47;
    let mut mock = MockJaylink::new();
    mock.add_read_response(DapAcknowledge::Okay, 0);
    mock.add_read_response(DapAcknowledge::Wait, 0);
    mock.add_idle_cycles(mock.swd_settings.idle_cycles_after_transfer);
    // When a wait response is received, the sticky overrun bit has to be cleared
    mock.add_transfer();
    mock.add_write_response(
        DapAcknowledge::Okay,
        mock.swd_settings.num_idle_cycles_between_writes,
    );
    mock.add_idle_cycles(mock.swd_settings.idle_cycles_after_transfer);
    mock.add_transfer();
    mock.add_read_response(DapAcknowledge::Okay, read_value);
    mock.add_idle_cycles(mock.swd_settings.idle_cycles_after_transfer);
    let result = raw_read_register(&mut mock, ap(4)).unwrap();
    assert_eq!(result, read_value);
}

#[test]
fn read_register_with_wait_response_jtag() {
    let read_value = 47;
    let mut mock = MockJaylink::new();
    let result = mock.select_protocol(WireProtocol::Jtag);
    assert!(result.is_ok());
    // Read
    mock.add_jtag_response(ap(4), true, DapAcknowledge::Okay, 0, 0);
    mock.add_jtag_response(dp(DpRegisterAddress::rdbuff()), true, DapAcknowledge::Wait, 0, 0);
    // When a wait response is received, the sticky overrun bit has to be cleared
    mock.add_jtag_abort();
    // Retry
    mock.add_jtag_response(ap(4), true, DapAcknowledge::Okay, 0, 0);
    mock.add_jtag_response(dp(DpRegisterAddress::rdbuff()), true, DapAcknowledge::Okay, read_value, 0);
    // Check CTRL
    mock.add_jtag_response(dp(DpRegisterAddress::ctrl()), true, DapAcknowledge::Okay, 0, 0);
    mock.add_jtag_response(dp(DpRegisterAddress::rdbuff()), true, DapAcknowledge::Okay, 0, 0);
    let result = raw_read_register(&mut mock, ap(4)).unwrap();
    assert_eq!(result, read_value);
}

#[test]
fn write_register() {
    let mut mock = MockJaylink::new();
    let idle_cycles = mock.swd_settings.num_idle_cycles_between_writes;
    mock.add_write_response(DapAcknowledge::Okay, idle_cycles);
    mock.add_idle_cycles(mock.swd_settings.idle_cycles_before_write_verify);
    mock.add_read_response(DapAcknowledge::Okay, 0);
    mock.add_idle_cycles(mock.swd_settings.idle_cycles_after_transfer);
    raw_write_register(&mut mock, ap(4), 0x123).expect("Failed to write register");
}

#[test]
fn write_register_jtag() {
    let mut mock = MockJaylink::new();
    let result = mock.select_protocol(WireProtocol::Jtag);
    assert!(result.is_ok());
    mock.add_jtag_response(ap(4), false, DapAcknowledge::Okay, 0x0, 0x123);
    mock.add_jtag_response(dp(DpRegisterAddress::rdbuff()), true, DapAcknowledge::Okay, 0x123, 0x0);
    // Check CTRL
    mock.add_jtag_response(dp(DpRegisterAddress::ctrl()), true, DapAcknowledge::Okay, 0, 0);
    mock.add_jtag_response(dp(DpRegisterAddress::rdbuff()), true, DapAcknowledge::Okay, 0, 0);
    raw_write_register(&mut mock, ap(4), 0x123).expect("Failed to write register");
}

#[test]
fn write_register_with_wait_response() {
    let mut mock = MockJaylink::new();
    let idle_cycles = mock.swd_settings.num_idle_cycles_between_writes;
    mock.add_write_response(DapAcknowledge::Okay, idle_cycles);
    mock.add_idle_cycles(mock.swd_settings.idle_cycles_before_write_verify);
    mock.add_read_response(DapAcknowledge::Wait, 0);
    mock.add_idle_cycles(mock.swd_settings.idle_cycles_after_transfer);
    // Expect a Write to the ABORT register.
    mock.add_transfer();
    mock.add_write_response(DapAcknowledge::Okay, idle_cycles);
    mock.add_idle_cycles(mock.swd_settings.idle_cycles_after_transfer);
    // Second try to write register, with increased idle cycles.
    mock.add_transfer();
    mock.add_read_response(DapAcknowledge::Okay, 0);
    mock.add_idle_cycles(mock.swd_settings.idle_cycles_after_transfer);
    raw_write_register(&mut mock, ap(4), 0x123).expect("Failed to write register");
}

#[test]
fn write_register_with_wait_response_jtag() {
    let mut mock = MockJaylink::new();
    let result = mock.select_protocol(WireProtocol::Jtag);
    assert!(result.is_ok());
    mock.add_jtag_response(ap(4), false, DapAcknowledge::Okay, 0x0, 0x123);
    mock.add_jtag_response(dp(DpRegisterAddress::rdbuff()), true, DapAcknowledge::Wait, 0x0, 0x0);
    // Expect a Write to the ABORT register.
    mock.add_jtag_abort();
    // Second try to write register.
    mock.add_jtag_response(ap(4), false, DapAcknowledge::Okay, 0x0, 0x123);
    mock.add_jtag_response(dp(DpRegisterAddress::rdbuff()), true, DapAcknowledge::Okay, 0x123, 0x0);
    // Check CTRL
    mock.add_jtag_response(dp(DpRegisterAddress::ctrl()), true, DapAcknowledge::Okay, 0, 0);
    mock.add_jtag_response(dp(DpRegisterAddress::rdbuff()), true, DapAcknowledge::Okay, 0, 0);
    raw_write_register(&mut mock, ap(4), 0x123).expect("Failed to write register");
}

#[test]
fn single_dp_register_read() {
    let register_value = 32354;
    let mut transfers = vec![DapTransfer::read(dp(DpRegisterAddress::dpidr()))];
    let mut mock = MockJaylink::new();
    mock.add_read_response(DapAcknowledge::Okay, register_value);
    mock.add_idle_cycles(mock.swd_settings.idle_cycles_after_transfer);
    perform_transfers(&mut mock, &mut transfers).expect("Failed to perform transfer");
    let transfer_result = &transfers[0];
    assert_eq!(transfer_result.status, TransferStatus::Okay);
    assert_eq!(transfer_result.value, register_value);
}

#[test]
fn single_ap_register_read() {
    let register_value = 0x11_22_33_44u32;
    let mut transfers = vec![DapTransfer::read(ap(0))];
    let mut mock = MockJaylink::new();
    mock.add_read_response(DapAcknowledge::Okay, 0);
    mock.add_read_response(DapAcknowledge::Okay, register_value);
    mock.add_idle_cycles(mock.swd_settings.idle_cycles_after_transfer);
    perform_transfers(&mut mock, &mut transfers).expect("Failed to perform transfer");
    let transfer_result = &transfers[0];
    assert_eq!(transfer_result.status, TransferStatus::Okay);
    assert_eq!(transfer_result.value, register_value);
}

#[test]
fn ap_then_dp_register_read() {
    // An access port read followed by a debug port read: the debug port
    // read itself brings in the access port result.
    let ap_read_value = 0x123223;
    let dp_read_value = 0xFFAABB;
    let mut transfers = vec![
        DapTransfer::read(ap(4)),
        DapTransfer::read(dp(DpRegisterAddress { address: 3, bank: None })),
    ];
    let mut mock = MockJaylink::new();
    mock.add_read_response(DapAcknowledge::Okay, 0);
    mock.add_read_response(DapAcknowledge::Okay, ap_read_value);
    mock.add_read_response(DapAcknowledge::Okay, dp_read_value);
    mock.add_idle_cycles(mock.swd_settings.idle_cycles_after_transfer);
    perform_transfers(&mut mock, &mut transfers).expect("Failed to perform transfer");
    assert_eq!(transfers[0].status, TransferStatus::Okay);
    assert_eq!(transfers[0].value, ap_read_value);
    assert_eq!(transfers[1].status, TransferStatus::Okay);
    assert_eq!(transfers[1].value, dp_read_value);
}

#[test]
fn dp_then_ap_register_read() {
    // A debug port read followed by an access port read: an RDBUFF read
    // at the end brings in the access port result.
    let ap_read_value = 0x123223;
    let dp_read_value = 0xFFAABB;
    let mut transfers = vec![
        DapTransfer::read(dp(DpRegisterAddress { address: 3, bank: None })),
        DapTransfer::read(ap(4)),
    ];
    let mut mock = MockJaylink::new();
    mock.add_read_response(DapAcknowledge::Okay, dp_read_value);
    mock.add_read_response(DapAcknowledge::Okay, 0);
    mock.add_read_response(DapAcknowledge::Okay, ap_read_value);
    mock.add_idle_cycles(mock.swd_settings.idle_cycles_after_transfer);
    perform_transfers(&mut mock, &mut transfers).expect("Failed to perform transfer");
    assert_eq!(transfers[0].status, TransferStatus::Okay);
    assert_eq!(transfers[0].value, dp_read_value);
    assert_eq!(transfers[1].status, TransferStatus::Okay);
    assert_eq!(transfers[1].value, ap_read_value);
}

#[test]
fn multiple_ap_read() {
    // Two access port reads need a single RDBUFF read.
    let ap_read_values = [1, 2];
    let mut transfers = vec![DapTransfer::read(ap(4)), DapTransfer::read(ap(4))];
    let mut mock = MockJaylink::new();
    mock.add_read_response(DapAcknowledge::Okay, 0);
    mock.add_read_response(DapAcknowledge::Okay, ap_read_values[0]);
    mock.add_read_response(DapAcknowledge::Okay, ap_read_values[1]);
    mock.add_idle_cycles(mock.swd_settings.idle_cycles_after_transfer);
    perform_transfers(&mut mock, &mut transfers).expect("Failed to perform transfer");
    assert_eq!(transfers[0].status, TransferStatus::Okay);
    assert_eq!(transfers[0].value, ap_read_values[0]);
    assert_eq!(transfers[1].status, TransferStatus::Okay);
    assert_eq!(transfers[1].value, ap_read_values[1]);
}

#[test]
fn multiple_dp_read() {
    // Two debug port reads need no extra read.
    let dp_read_values = [1, 2];
    let mut transfers = vec![
        DapTransfer::read(dp(DpRegisterAddress::ctrl())),
        DapTransfer::read(dp(DpRegisterAddress::ctrl())),
    ];
    let mut mock = MockJaylink::new();
    mock.add_read_response(DapAcknowledge::Okay, dp_read_values[0]);
    mock.add_read_response(DapAcknowledge::Okay, dp_read_values[1]);
    mock.add_idle_cycles(mock.swd_settings.idle_cycles_after_transfer);
    perform_transfers(&mut mock, &mut transfers).expect("Failed to perform transfer");
    assert_eq!(transfers[0].status, TransferStatus::Okay);
    assert_eq!(transfers[0].value, dp_read_values[0]);
    assert_eq!(transfers[1].status, TransferStatus::Okay);
    assert_eq!(transfers[1].value, dp_read_values[1]);
}

#[test]
fn single_dp_register_write() {
    let mut transfers = vec![DapTransfer::write(dp(DpRegisterAddress::abort()), 0x1234_5678)];
    let mut mock = MockJaylink::new();
    mock.add_write_response(
        DapAcknowledge::Okay,
        mock.swd_settings.num_idle_cycles_between_writes,
    );
    mock.add_idle_cycles(mock.swd_settings.idle_cycles_after_transfer);
    perform_transfers(&mut mock, &mut transfers).expect("Failed to perform transfer");
    let transfer_result = &transfers[0];
    assert_eq!(transfer_result.status, TransferStatus::Okay);
}

#[test]
fn single_ap_register_write() {
    let mut transfers = vec![DapTransfer::write(ap(0), 0x1234_5678)];
    let mut mock = MockJaylink::new();
    mock.add_write_response(
        DapAcknowledge::Okay,
        mock.swd_settings.num_idle_cycles_between_writes,
    );
    // An extra read checks that the write succeeded.
    mock.add_idle_cycles(mock.swd_settings.idle_cycles_before_write_verify);
    mock.add_read_response(DapAcknowledge::Okay, 0);
    mock.add_idle_cycles(mock.swd_settings.idle_cycles_after_transfer);
    perform_transfers(&mut mock, &mut transfers).expect("Failed to perform transfer");
    let transfer_result = &transfers[0];
    assert_eq!(transfer_result.status, TransferStatus::Okay);
}

#[test]
fn multiple_ap_register_write() {
    let mut transfers = vec![
        DapTransfer::write(ap(0), 0x1234_5678),
        DapTransfer::write(ap(0), 0xABABABAB),
    ];
    let mut mock = MockJaylink::new();
    mock.add_write_response(
        DapAcknowledge::Okay,
        mock.swd_settings.num_idle_cycles_between_writes,
    );
    mock.add_write_response(
        DapAcknowledge::Okay,
        mock.swd_settings.num_idle_cycles_between_writes,
    );
    mock.add_idle_cycles(mock.swd_settings.idle_cycles_before_write_verify);
    mock.add_read_response(DapAcknowledge::Okay, 0);
    mock.add_idle_cycles(mock.swd_settings.idle_cycles_after_transfer);
    perform_transfers(&mut mock, &mut transfers).expect("Failed to perform transfer");
    assert_eq!(transfers[0].status, TransferStatus::Okay);
    assert_eq!(transfers[1].status, TransferStatus::Okay);
}

fn abort_write_frame(value: u32, idle_cycles: usize) -> Vec<IoSequenceItem> {
    let mut t = DapTransfer::write(dp(DpRegisterAddress::abort()), value);
    t.idle_cycles_after = idle_cycles;
    t.io_sequence().io_items().to_vec()
}

#[test]
fn clearing_sticky_flags_twice_sends_the_same_write() {
    let mut mock = MockJaylink::new();
    let settings = mock.swd_settings;
    for _ in 0..2 {
        if mock.performed_transfer_count > 0 || !mock.transfer_responses[0].is_empty() {
            mock.add_transfer();
        }
        mock.add_write_response(DapAcknowledge::Okay, settings.num_idle_cycles_between_writes);
        mock.add_idle_cycles(settings.idle_cycles_before_write_verify);
    }
    clear_overrun_and_sticky_err(&mut mock, WireProtocol::Swd, &settings).unwrap();
    clear_overrun_and_sticky_err(&mut mock, WireProtocol::Swd, &settings).unwrap();
    assert_eq!(mock.sent.len(), 2);
    assert_eq!(mock.sent[0], mock.sent[1]);
    assert_eq!(mock.sent[0], abort_write_frame(ABORT_CLEAR_STICKY, 10));
}

#[test]
fn read_register_fault_clears_sticky_flags() {
    let mut mock = MockJaylink::new();
    mock.add_read_response(DapAcknowledge::Okay, 0);
    mock.add_read_response(DapAcknowledge::Fault, 0);
    mock.add_idle_cycles(mock.swd_settings.idle_cycles_after_transfer);
    // CTRL/STAT shows a sticky error
    mock.add_transfer();
    mock.add_read_response(DapAcknowledge::Okay, 0x22);
    mock.add_idle_cycles(mock.swd_settings.idle_cycles_after_transfer);
    // which is cleared
    mock.add_transfer();
    mock.add_write_response(DapAcknowledge::Okay, mock.swd_settings.num_idle_cycles_between_writes);
    mock.add_idle_cycles(mock.swd_settings.idle_cycles_before_write_verify);
    let result = raw_read_register(&mut mock, ap(4));
    assert_eq!(result, Err(ArmError::Dap(DapError::FaultResponse)));
    assert!(mock.transfer_responses.is_empty());
    assert_eq!(mock.sent[2], abort_write_frame(ABORT_CLEAR_STICKY, 10));
}

#[test]
fn write_register_fault_without_sticky_flags() {
    let mut mock = MockJaylink::new();
    let idle_cycles = mock.swd_settings.num_idle_cycles_between_writes;
    mock.add_write_response(DapAcknowledge::Fault, idle_cycles);
    mock.add_idle_cycles(mock.swd_settings.idle_cycles_before_write_verify);
    mock.add_read_response(DapAcknowledge::Okay, 0);
    mock.add_idle_cycles(mock.swd_settings.idle_cycles_after_transfer);
    // CTRL/STAT is clean: nothing to clear
    mock.add_transfer();
    mock.add_read_response(DapAcknowledge::Okay, 0);
    mock.add_idle_cycles(mock.swd_settings.idle_cycles_after_transfer);
    let result = raw_write_register(&mut mock, ap(4), 5);
    assert_eq!(result, Err(ArmError::Dap(DapError::FaultResponse)));
    assert!(mock.transfer_responses.is_empty());
}

#[test]
fn read_register_without_acknowledge_is_protocol_error() {
    let mut mock = MockJaylink::new();
    mock.add_read_response(DapAcknowledge::Okay, 0);
    mock.add_read_response(DapAcknowledge::NoAck, 0);
    mock.add_idle_cycles(mock.swd_settings.idle_cycles_after_transfer);
    let result = raw_read_register(&mut mock, ap(4));
    assert_eq!(result, Err(ArmError::Dap(DapError::Protocol(WireProtocol::Swd))));
}

#[test]
fn read_register_with_parity_error() {
    let mut mock = MockJaylink::new();
    mock.add_read_response(DapAcknowledge::Okay, 0x55);
    mock.add_idle_cycles(mock.swd_settings.idle_cycles_after_transfer);
    // flip a data bit of the answer
    mock.transfer_responses[0][12] = !mock.transfer_responses[0][12];
    let result = raw_read_register(&mut mock, dp(DpRegisterAddress::dpidr()));
    assert_eq!(result, Err(ArmError::Dap(DapError::IncorrectParity)));
}

#[test]
fn read_block_of_access_port() {
    let mut mock = MockJaylink::new();
    mock.add_read_response(DapAcknowledge::Okay, 0);
    mock.add_read_response(DapAcknowledge::Okay, 1);
    mock.add_read_response(DapAcknowledge::Okay, 2);
    mock.add_idle_cycles(mock.swd_settings.idle_cycles_after_transfer);
    let mut values = vec![0u32; 2];
    raw_read_block(&mut mock, ap(0xC), &mut values).unwrap();
    assert_eq!(values, vec![1, 2]);
}

#[test]
fn empty_blocks_do_nothing() {
    let mut mock = MockJaylink::new();
    let mut values: Vec<u32> = vec![];
    assert_eq!(raw_read_block(&mut mock, ap(0xC), &mut values), Ok(()));
    assert_eq!(raw_write_block(&mut mock, ap(0xC), &[]), Ok(()));
    assert!(mock.sent.is_empty());
}

#[test]
fn write_block_of_access_port() {
    let mut mock = MockJaylink::new();
    let idle_cycles = mock.swd_settings.num_idle_cycles_between_writes;
    mock.add_write_response(DapAcknowledge::Okay, idle_cycles);
    mock.add_write_response(DapAcknowledge::Okay, idle_cycles);
    mock.add_idle_cycles(mock.swd_settings.idle_cycles_before_write_verify);
    mock.add_read_response(DapAcknowledge::Okay, 0);
    mock.add_idle_cycles(mock.swd_settings.idle_cycles_after_transfer);
    assert_eq!(raw_write_block(&mut mock, ap(0xC), &[7, 8]), Ok(()));
}

#[test]
fn retries_exhausted_abort_the_transaction() {
    let mut mock = MockJaylink::new();
    mock.swd_settings.num_retries_after_wait = 1;
    mock.add_read_response(DapAcknowledge::Okay, 0);
    mock.add_read_response(DapAcknowledge::Wait, 0);
    mock.add_idle_cycles(mock.swd_settings.idle_cycles_after_transfer);
    // the sticky flags are cleared
    mock.add_transfer();
    mock.add_write_response(DapAcknowledge::Okay, mock.swd_settings.num_idle_cycles_between_writes);
    mock.add_idle_cycles(mock.swd_settings.idle_cycles_before_write_verify);
    // then the transaction is aborted
    mock.add_transfer();
    mock.add_write_response(DapAcknowledge::Okay, mock.swd_settings.num_idle_cycles_between_writes);
    mock.add_idle_cycles(mock.swd_settings.idle_cycles_before_write_verify);
    let result = raw_read_register(&mut mock, ap(4));
    assert_eq!(result, Err(ArmError::Dap(DapError::WaitResponse)));
    assert_eq!(mock.sent[2], abort_write_frame(0x1, 10));
}

#[test]
fn no_attempt_allowed() {
    let mut mock = MockJaylink::new();
    mock.swd_settings.num_retries_after_wait = 0;
    let result = raw_read_register(&mut mock, ap(4));
    assert_eq!(result, Err(ArmError::NotPerformed));
    assert!(mock.sent.is_empty());
}

#[test]
fn no_protocol_selected() {
    let mut mock = MockJaylink::new();
    mock.no_protocol = true;
    let result = raw_read_register(&mut mock, ap(4));
    assert_eq!(result, Err(ArmError::Probe(DebugProbeError::NoProtocolSelected)));
    let mut transfers = vec![DapTransfer::read(ap(4))];
    assert_eq!(
        perform_transfers(&mut mock, &mut transfers),
        Err(ArmError::Probe(DebugProbeError::NoProtocolSelected))
    );
    assert_eq!(swj_sequence(&mut mock, 4, 0), Err(DebugProbeError::NoProtocolSelected));
}

#[test]
fn short_answer_is_an_error() {
    let mut mock = MockJaylink::new();
    // the mock checks the length; hand back a short answer by hand instead
    struct Short(MockJaylink);
    impl RawSwdIo for Short {
        fn swd_io(&mut self, swdio: &[IoSequenceItem]) -> Result<Vec<bool>, DebugProbeError> {
            Ok(vec![true; swdio.len() - 1])
        }
        fn swj_pins(&mut self, a: u32, b: u32, c: u32) -> Result<u32, DebugProbeError> {
            self.0.swj_pins(a, b, c)
        }
        fn swd_settings(&self) -> SwdSettings {
            self.0.swd_settings
        }
    }
    impl JtagAccess for Short {
        fn write_register(&mut self, a: u32, d: &[u8], l: u32) -> Result<Vec<bool>, DebugProbeError> {
            self.0.write_register(a, d, l)
        }
        fn read_register(&mut self, a: u32, l: u32) -> Result<Vec<bool>, DebugProbeError> {
            self.0.read_register(a, l)
        }
        fn set_idle_cycles(&mut self, i: u8) -> Result<(), DebugProbeError> {
            self.0.set_idle_cycles(i)
        }
        fn idle_cycles(&self) -> u8 {
            self.0.idle_cycles()
        }
        fn shift_raw_sequence(&mut self, s: JtagSequence) -> Result<Vec<bool>, DebugProbeError> {
            self.0.shift_raw_sequence(s)
        }
    }
    impl DebugProbe for Short {
        fn active_protocol(&self) -> Option<WireProtocol> {
            self.0.active_protocol()
        }
    }
    mock.protocol = WireProtocol::Swd;
    let mut short = Short(mock);
    let result = raw_read_register(&mut short, dp(DpRegisterAddress::dpidr()));
    assert_eq!(
        result,
        Err(ArmError::Probe(DebugProbeError::IncompleteResponse { expected: 54, received: 53 }))
    );
}

#[test]
fn jtag_sticky_error_marks_batch_faulted() {
    let mut mock = MockJaylink::new();
    mock.select_protocol(WireProtocol::Jtag).unwrap();
    mock.add_jtag_response(ap(4), true, DapAcknowledge::Okay, 0, 0);
    mock.add_jtag_response(dp(DpRegisterAddress::rdbuff()), true, DapAcknowledge::Okay, 12, 0);
    mock.add_jtag_response(dp(DpRegisterAddress::ctrl()), true, DapAcknowledge::Okay, 0, 0);
    // CTRL/STAT with the sticky error flag
    mock.add_jtag_response(dp(DpRegisterAddress::rdbuff()), true, DapAcknowledge::Okay, 0x20, 0);
    // written back to clear it
    mock.add_jtag_response(dp(DpRegisterAddress::ctrl()), false, DapAcknowledge::Okay, 0, 0x20);
    let mut transfers = vec![DapTransfer::read(ap(4))];
    perform_transfers(&mut mock, &mut transfers).unwrap();
    assert_eq!(transfers[0].status, TransferStatus::Failed(DapError::FaultResponse));
    assert!(mock.jtag_transactions.is_empty());
    assert_eq!(mock.idle_cycles, 0);
}

#[test]
fn jtag_read_register_fault_diagnosis() {
    let mut mock = MockJaylink::new();
    mock.select_protocol(WireProtocol::Jtag).unwrap();
    mock.add_jtag_response(ap(4), true, DapAcknowledge::Okay, 0, 0);
    mock.add_jtag_response(dp(DpRegisterAddress::rdbuff()), true, DapAcknowledge::Okay, 12, 0);
    mock.add_jtag_response(dp(DpRegisterAddress::ctrl()), true, DapAcknowledge::Okay, 0, 0);
    mock.add_jtag_response(dp(DpRegisterAddress::rdbuff()), true, DapAcknowledge::Okay, 0x20, 0);
    mock.add_jtag_response(dp(DpRegisterAddress::ctrl()), false, DapAcknowledge::Okay, 0, 0x20);
    // CTRL/STAT read to find the reason
    mock.add_jtag_response(dp(DpRegisterAddress::ctrl()), true, DapAcknowledge::Okay, 0, 0);
    mock.add_jtag_response(dp(DpRegisterAddress::rdbuff()), true, DapAcknowledge::Okay, 0x20, 0);
    mock.add_jtag_response(dp(DpRegisterAddress::ctrl()), true, DapAcknowledge::Okay, 0, 0);
    mock.add_jtag_response(dp(DpRegisterAddress::rdbuff()), true, DapAcknowledge::Okay, 0, 0);
    // and the flags are cleared
    mock.add_jtag_abort();
    let result = raw_read_register(&mut mock, ap(4));
    assert_eq!(result, Err(ArmError::Dap(DapError::FaultResponse)));
    assert!(mock.jtag_transactions.is_empty());
}

#[test]
fn swj_sequence_over_swd() {
    let mut mock = MockJaylink::new();
    mock.add_idle_cycles(4);
    swj_sequence(&mut mock, 4, 0b1001).unwrap();
    assert_eq!(
        mock.sent[0],
        vec![
            IoSequenceItem::Output(true),
            IoSequenceItem::Output(false),
            IoSequenceItem::Output(false),
            IoSequenceItem::Output(true),
        ]
    );
}

#[test]
fn swj_sequence_over_jtag() {
    let mut mock = MockJaylink::new();
    mock.select_protocol(WireProtocol::Jtag).unwrap();
    swj_sequence(&mut mock, 5, 0b00011).unwrap();
    assert_eq!(
        mock.shifted,
        vec![
            JtagSequence { tdo_capture: false, tms: true, data: vec![false; 2] },
            JtagSequence { tdo_capture: false, tms: false, data: vec![false; 3] },
        ]
    );
}

#[test]
fn jtag_sequence_shifts_bits() {
    let mut mock = MockJaylink::new();
    jtag_sequence(&mut mock, 3, true, 0b101).unwrap();
    assert_eq!(
        mock.shifted,
        vec![JtagSequence { tdo_capture: false, tms: true, data: vec![true, false, true] }]
    );
}

#[test]
fn fault_on_ctrl_read_clears_at_once() {
    let mut mock = MockJaylink::new();
    let settings = mock.swd_settings;
    mock.add_write_response(DapAcknowledge::Okay, settings.num_idle_cycles_between_writes);
    mock.add_idle_cycles(settings.idle_cycles_before_write_verify);
    let ctrl = dp(DpRegisterAddress::ctrl());
    let mut t = DapTransfer::read(ctrl);
    t.status = TransferStatus::Failed(DapError::FaultResponse);
    let r = finish_read(&mut mock, WireProtocol::Swd, &settings, ctrl, &t);
    assert_eq!(r, Err(ArmError::Dap(DapError::FaultResponse)));
    assert_eq!(mock.sent, vec![abort_write_frame(ABORT_CLEAR_STICKY, 10)]);
}

#[test]
fn diagnosis_without_sticky_flags_sends_nothing() {
    let mut mock = MockJaylink::new();
    let settings = mock.swd_settings;
    assert_eq!(finish_diagnosis(&mut mock, WireProtocol::Swd, &settings, 0x10), Ok(()));
    assert!(mock.sent.is_empty());
}

#[test]
fn block_fault_keeps_earlier_values() {
    let mut mock = MockJaylink::new();
    let settings = mock.swd_settings;
    mock.add_write_response(DapAcknowledge::Okay, settings.num_idle_cycles_between_writes);
    mock.add_idle_cycles(settings.idle_cycles_before_write_verify);
    let mut a = DapTransfer::read(ap(4));
    a.status = TransferStatus::Okay;
    a.value = 5;
    let mut b = DapTransfer::read(ap(4));
    b.status = TransferStatus::Failed(DapError::FaultResponse);
    b.value = 6;
    let mut values = vec![0, 9];
    let r = finish_block(&mut mock, WireProtocol::Swd, &settings, &vec![a, b], &mut values, true);
    assert_eq!(r, Err(ArmError::Dap(DapError::FaultResponse)));
    assert_eq!(values, vec![5, 9]);
    assert_eq!(mock.sent.len(), 1);
}
