//! The transaction primitives themselves: command logging, scripted
//! replies, bulk transfers and the operating-mode frames.

use sx_radio::shared::{OpCode, RadioError, Register, Register6x};
use sx_radio::spi_interface::{BusOpKind, Interface};
use sx_radio::{
    OperatingMode, Radio, RadioConfig, RadioConfig6x, RadioConfig8x, SleepConfig,
};

fn radio_6x_with_timeouts(tx_ms: u32, rx_ms: u32) -> Radio {
    let mut config = RadioConfig6x::default();
    config.tx_timeout = tx_ms;
    config.rx_timeout = rx_ms;
    Radio {
        interface: Interface::new(false, vec![]),
        config: RadioConfig::R6x(config),
    }
}

#[test]
fn op_mode_frames_6x() {
    let mut radio = radio_6x_with_timeouts(0, 0);
    radio.set_op_mode(OperatingMode::Sleep(SleepConfig::WarmStart)).unwrap();
    radio.set_op_mode(OperatingMode::StbyRc).unwrap();
    radio.set_op_mode(OperatingMode::StbyOsc).unwrap();
    radio.set_op_mode(OperatingMode::Fs).unwrap();
    // 1000 ms is 64000 counts of 15.625 µs: 0x00fa00.
    radio.set_op_mode(OperatingMode::Tx(1000)).unwrap();
    radio.set_op_mode(OperatingMode::Rx(2000)).unwrap();
    let log = &radio.interface.log;
    assert_eq!(log[0].frame, vec![0x84, 0x04]);
    assert_eq!(log[1].frame, vec![0x80, 0x00]);
    assert_eq!(log[2].frame, vec![0x80, 0x01]);
    assert_eq!(log[3].frame, vec![0xc1]);
    assert_eq!(log[4].frame, vec![0x83, 0x00, 0xfa, 0x00]);
    assert_eq!(log[5].frame, vec![0x82, 0x01, 0xf4, 0x00]);
}

#[test]
fn op_mode_timeouts_8x_use_the_16_bit_count() {
    let mut radio = Radio {
        interface: Interface::new(true, vec![]),
        config: RadioConfig::R8x(RadioConfig8x::default()),
    };
    radio.set_op_mode(OperatingMode::Tx(100)).unwrap();
    // 100 ms is 6400 counts: period base 0, then 0x1900.
    assert_eq!(radio.interface.log[0].frame, vec![0x83, 0x00, 0x19, 0x00]);
    // Over the 16-bit field the count saturates to the continuous-mode
    // sentinel.
    radio.set_op_mode(OperatingMode::Rx(5000)).unwrap();
    assert_eq!(radio.interface.log[1].frame, vec![0x82, 0x00, 0xff, 0xff]);
}

#[test]
fn start_transmission_routes_irqs_and_enters_tx() {
    let mut radio = radio_6x_with_timeouts(1000, 0);
    radio.start_transmission().unwrap();
    let log = &radio.interface.log;
    assert_eq!(log.len(), 2);
    assert_eq!(
        log[0].frame,
        vec![0x08, 0x02, 0x01, 0x02, 0x01, 0, 0, 0x00, 0x00]
    );
    assert_eq!(log[1].frame, vec![0x83, 0x00, 0xfa, 0x00]);
}

#[test]
fn reset_and_writes_are_logged_in_order() {
    let mut iface = Interface::new(false, vec![]);
    iface.reset();
    iface.write(vec![0x80, 0x00]).unwrap();
    iface.write_op_word(OpCode::SetStandby, 1).unwrap();
    iface
        .write_reg_word(Register::Reg6x(Register6x::RxGain), 0x94)
        .unwrap();
    assert_eq!(iface.log.len(), 4);
    assert_eq!(iface.log[0].kind, BusOpKind::Reset);
    assert!(iface.log[0].frame.is_empty());
    assert_eq!(iface.log[1].frame, vec![0x80, 0x00]);
    assert_eq!(iface.log[2].frame, vec![0x80, 0x01]);
    assert_eq!(iface.log[3].frame, vec![0x0d, 0x08, 0xac, 0x94]);
}

#[test]
fn reads_consume_replies_in_order() {
    let mut iface = Interface::new(false, vec![
        vec![0, 0, 0x11, 0, 0],
        vec![0, 0, 0, 0, 0x22, 0],
        vec![0, 0, 0, 0, 0x33, 0x44],
    ]);
    assert_eq!(iface.read_op_word(OpCode::GetIrqStatus), Ok(0x11));
    assert_eq!(
        iface.read_reg_word(Register::Reg6x(Register6x::TxModulation)),
        Ok(0x22)
    );
    assert_eq!(
        iface.read_reg_word_16(Register::Reg6x(Register6x::TxModulation)),
        Ok(0x3344)
    );
    assert!(iface.replies.is_empty());
    // A fourth read has nothing left to answer it.
    assert_eq!(iface.read_op_word(OpCode::GetIrqStatus), Err(RadioError::Spi));
}

#[test]
fn a_wrongly_sized_reply_is_a_bus_fault() {
    // read_op_word exchanges five bytes; a three-byte reply cannot be it.
    let mut iface = Interface::new(false, vec![vec![0, 0, 0x11]]);
    assert_eq!(iface.read_op_word(OpCode::GetIrqStatus), Err(RadioError::Spi));
    // The reply stays queued: the exchange never completed.
    assert_eq!(iface.replies.len(), 1);
    assert!(iface.log.is_empty());
}

#[test]
fn wait_on_busy_reports_a_stuck_line() {
    let mut iface = Interface::new(false, vec![]);
    assert_eq!(iface.wait_on_busy(), Ok(()));
    iface.busy = true;
    assert_eq!(iface.wait_on_busy(), Err(RadioError::BusyTimeout));
}

#[test]
fn write_with_payload_stages_and_logs_the_bulk_frame() {
    let mut iface = Interface::new(false, vec![]);
    iface.write_with_payload(&[0xaa, 0xbb, 0xcc], 2).unwrap();
    assert_eq!(iface.log[0].kind, BusOpKind::Command);
    assert_eq!(iface.log[0].frame, vec![0x0e, 0x02, 0xaa, 0xbb, 0xcc]);
    // The staging buffer keeps the frame for the asynchronous path.
    assert_eq!(&iface.write_buf[..5], &[0x0e, 0x02, 0xaa, 0xbb, 0xcc]);
}

#[test]
fn read_with_payload_lands_the_answered_frame_in_the_read_buffer() {
    let mut iface = Interface::new(true, vec![vec![9, 8, 7, 0x51, 0x52]]);
    iface.read_with_payload(2, 4).unwrap();
    // The SX128x read-buffer opcode, the offset, and three zero slots.
    assert_eq!(iface.log[0].frame, vec![0x1b, 0x04, 0x00, 0x00, 0x00]);
    assert_eq!(&iface.read_buf[..5], &[9, 8, 7, 0x51, 0x52]);
    assert_eq!(iface.read_buf[5], 0);
}

#[test]
fn rx_payload_from_buf_copies_the_recorded_length() {
    let mut iface = Interface::new(false, vec![]);
    iface.read_buf[0] = 5;
    iface.read_buf[1] = 6;
    iface.read_buf[2] = 7;
    iface.rx_payload_len = 2;
    assert_eq!(iface.rx_payload_from_buf(), vec![5, 6]);
}
