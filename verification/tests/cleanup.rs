//! End-to-end receive/transmit cleanup scenarios: good packets, CRC
//! failures with the IRQ still cleared, timeouts, status faults and device
//! errors.

use sx_radio::spi_interface::{BusOpKind, Interface};
use sx_radio::shared::RadioError;
use sx_radio::{
    CommandStatus, OperatingModeRead, Radio, RadioConfig, RadioConfig6x, RadioConfig8x,
    RxBufferStatus,
};

fn radio_6x(replies: Vec<Vec<u8>>) -> Radio {
    Radio {
        interface: Interface::new(false, replies),
        config: RadioConfig::R6x(RadioConfig6x::default()),
    }
}

fn radio_8x(replies: Vec<Vec<u8>>) -> Radio {
    Radio {
        interface: Interface::new(true, replies),
        config: RadioConfig::R8x(RadioConfig8x::default()),
    }
}

// Status byte of the SX126x: mode at bits 6:4, command status at 3:1.
fn status_byte_6x(mode: u8, status: u8) -> u8 {
    (mode << 4) | (status << 1)
}

const CLEAR_RX_IRQ_6X: [u8; 3] = [0x02, 0x02, 0x02];

#[test]
fn cleanup_rx_data_available_reads_payload() {
    let replies = vec![
        // Standby RC (2) with data available (2).
        vec![0, status_byte_6x(2, 2)],
        // IRQ word with the CRC bits clear.
        vec![0, 0, 0x00, 0x02],
        // Buffer status: five bytes starting at offset zero.
        vec![0, 0x34, 5, 0],
        // Event-mask register for the post-receive workaround.
        vec![0, 0, 0, 0, 0x00, 0],
        // No device errors.
        vec![0, 0, 0, 0],
        // The answered read-buffer frame: three slots, then the payload.
        vec![0, 0, 0, 0xd1, 0xd2, 0xd3, 0xd4, 0xd5],
    ];
    let mut radio = radio_6x(replies);
    let (bs, status) = radio.cleanup_rx().unwrap();
    assert_eq!(
        bs,
        RxBufferStatus { status: 0x34, payload_len: 5, rx_start_buf_pointer: 0 }
    );
    assert_eq!(status, CommandStatus::DataAvailable);
    // The payload, and only the payload, landed in the read buffer.
    assert_eq!(&radio.interface.read_buf[..5], &[0xd1, 0xd2, 0xd3, 0xd4, 0xd5]);
    assert_eq!(radio.interface.read_buf[5], 0);
    assert_eq!(radio.interface.rx_payload_len, 5);
    assert_eq!(radio.interface.rx_payload_start, 0);
    assert_eq!(
        radio.interface.rx_payload_from_buf(),
        vec![0xd1, 0xd2, 0xd3, 0xd4, 0xd5]
    );
    // The receive-done and timeout IRQ flags were cleared in between.
    assert!(radio
        .interface
        .log
        .iter()
        .any(|op| op.kind == BusOpKind::Command && op.frame == CLEAR_RX_IRQ_6X));
    // The final exchange read the payload from offset zero.
    let last = radio.interface.log.last().unwrap();
    assert_eq!(last.kind, BusOpKind::Exchange);
    assert_eq!(&last.frame[..3], &[0x1e, 0x00, 0x00]);
    assert_eq!(last.frame.len(), 8);
}

#[test]
fn cleanup_rx_crc_error_still_clears_irq() {
    let replies = vec![
        vec![0, status_byte_6x(2, 2)],
        // IRQ word with a CRC bit set (bit 6, wrong CRC).
        vec![0, 0, 0x00, 0x40],
    ];
    let mut radio = radio_6x(replies);
    assert_eq!(radio.cleanup_rx(), Err(RadioError::Crc));
    // The IRQ-clear command was still issued before returning.
    let last = radio.interface.log.last().unwrap();
    assert_eq!(last.kind, BusOpKind::Command);
    assert_eq!(last.frame, CLEAR_RX_IRQ_6X);
    // No buffer read was attempted.
    assert_eq!(radio.interface.log.len(), 3);
}

#[test]
fn cleanup_rx_header_crc_error_detected_too() {
    let replies = vec![
        vec![0, status_byte_6x(2, 2)],
        // Bit 5: header CRC error.
        vec![0, 0, 0x00, 0x20],
    ];
    let mut radio = radio_6x(replies);
    assert_eq!(radio.cleanup_rx(), Err(RadioError::Crc));
}

#[test]
fn cleanup_rx_timeout_is_not_an_error() {
    let replies = vec![
        // Standby RC with a command timeout (3).
        vec![0, status_byte_6x(2, 3)],
        vec![0, 0x12, 9, 4],
        vec![0, 0, 0, 0, 0x00, 0],
        vec![0, 0, 0, 0],
    ];
    let mut radio = radio_6x(replies);
    let (bs, status) = radio.cleanup_rx().unwrap();
    assert_eq!(status, CommandStatus::CommandTimeout);
    assert_eq!(bs.payload_len, 9);
    assert_eq!(bs.rx_start_buf_pointer, 4);
    // A timeout short-circuits the payload read: the read buffer is
    // untouched.
    assert!(radio.interface.read_buf.iter().all(|b| *b == 0));
    // The buffer status was still recorded.
    assert_eq!(radio.interface.rx_payload_len, 9);
    assert_eq!(radio.interface.rx_payload_start, 4);
}

#[test]
fn cleanup_rx_bad_status_clears_irq_and_fails() {
    let replies = vec![
        // Frequency synthesis (4) with transmit done (6): not acceptable
        // after a receive.
        vec![0, status_byte_6x(4, 6)],
    ];
    let mut radio = radio_6x(replies);
    assert_eq!(
        radio.cleanup_rx(),
        Err(RadioError::Status((
            OperatingModeRead::Fs,
            CommandStatus::CommandTxDone
        )))
    );
    let last = radio.interface.log.last().unwrap();
    assert_eq!(last.frame, CLEAR_RX_IRQ_6X);
}

#[test]
fn cleanup_rx_device_error_6x() {
    let replies = vec![
        vec![0, status_byte_6x(2, 3)],
        vec![0, 0, 0, 0],
        vec![0, 0, 0, 0, 0x00, 0],
        // A nonzero device-error word.
        vec![0, 0, 0x00, 0x08],
    ];
    let mut radio = radio_6x(replies);
    assert_eq!(radio.cleanup_rx(), Err(RadioError::Device));
}

#[test]
fn cleanup_rx_applies_post_receive_workaround_6x() {
    let replies = vec![
        vec![0, status_byte_6x(2, 3)],
        vec![0, 0, 0, 0],
        // The event mask reads back 0x01; the workaround ORs in 0x02.
        vec![0, 0, 0, 0, 0x01, 0],
        vec![0, 0, 0, 0],
    ];
    let mut radio = radio_6x(replies);
    radio.cleanup_rx().unwrap();
    let log = &radio.interface.log;
    // Stop the internal timer, then unmask its event.
    assert!(log.iter().any(|op| op.frame == [0x0d, 0x09, 0x02, 0x00]));
    assert!(log.iter().any(|op| op.frame == [0x0d, 0x09, 0x44, 0x03]));
}

#[test]
fn cleanup_rx_8x_skips_the_6x_only_steps() {
    let replies = vec![
        // SX128x status byte: mode at bits 7:5, status at 4:2.
        vec![(2u8 << 5) | (2 << 2), 0],
        vec![0, 0, 0, 0],
        vec![0, 0x40, 2, 0],
        vec![0, 0, 0, 0xbe, 0xef],
    ];
    let mut radio = radio_8x(replies);
    let (bs, status) = radio.cleanup_rx().unwrap();
    assert_eq!(status, CommandStatus::DataAvailable);
    assert_eq!(bs.payload_len, 2);
    assert_eq!(&radio.interface.read_buf[..2], &[0xbe, 0xef]);
    // status, IRQ word, clear, buffer status, payload: five operations,
    // with no erratum and no device-error read on this family.
    assert_eq!(radio.interface.log.len(), 5);
    // The SX128x clear opcode and bit positions differ: receive-done is
    // bit 1, timeout bit 14.
    assert_eq!(radio.interface.log[2].frame, vec![0x97, 0x40, 0x02]);
}

#[test]
fn cleanup_rx_without_any_reply_is_a_bus_fault() {
    let mut radio = radio_6x(vec![]);
    assert_eq!(radio.cleanup_rx(), Err(RadioError::Spi));
    assert!(radio.interface.log.is_empty());
}

#[test]
fn cleanup_tx_requires_standby_and_tx_done() {
    let replies = vec![
        vec![0, status_byte_6x(2, 6)],
        // No device errors.
        vec![0, 0, 0, 0],
    ];
    let mut radio = radio_6x(replies);
    assert_eq!(radio.cleanup_tx(), Ok(()));
    // Transmit-done and timeout flags cleared first: bits 0 and 9.
    assert_eq!(radio.interface.log[0].frame, vec![0x02, 0x02, 0x01]);
}

#[test]
fn cleanup_tx_timeout_is_always_an_error() {
    let replies = vec![vec![0, status_byte_6x(2, 3)]];
    let mut radio = radio_6x(replies);
    assert_eq!(
        radio.cleanup_tx(),
        Err(RadioError::Status((
            OperatingModeRead::StbyRc,
            CommandStatus::CommandTimeout
        )))
    );
}

#[test]
fn cleanup_tx_device_error_6x() {
    let replies = vec![
        vec![0, status_byte_6x(2, 6)],
        vec![0, 0, 0x00, 0x01],
    ];
    let mut radio = radio_6x(replies);
    assert_eq!(radio.cleanup_tx(), Err(RadioError::Device));
}

#[test]
fn full_lifecycle_init_send_cleanup_6x() {
    let replies = vec![
        // Initialisation: the TX clamp register reads back zero.
        vec![0, 0, 0, 0, 0x00, 0],
        // Send: the TX modulation register reads back zero.
        vec![0, 0, 0, 0, 0x00, 0],
        // Cleanup: standby with transmit done, then no device errors.
        vec![0, status_byte_6x(2, 6)],
        vec![0, 0, 0, 0],
    ];
    let interface = Interface::new(false, replies);
    let mut radio = Radio::new(RadioConfig::R6x(RadioConfig6x::default()), interface).unwrap();
    let after_init = radio.interface.log.len();
    radio.send_payload(&[0x10, 0x20, 0x30], 868_100_000).unwrap();
    assert_eq!(radio.interface.log.len(), after_init + 9);
    radio.cleanup_tx().unwrap();
    assert!(radio.interface.replies.is_empty());
}

#[test]
fn cleanup_tx_8x_has_no_device_error_read() {
    let replies = vec![vec![(2u8 << 5) | (6 << 2), 0]];
    let mut radio = radio_8x(replies);
    assert_eq!(radio.cleanup_tx(), Ok(()));
    assert_eq!(radio.interface.log.len(), 2);
}
