//! End-to-end transmit scenarios: the exact ordered command frames a send
//! puts on the wire, and the payload-size guard.

use sx_radio::spi_interface::{BusOpKind, Interface};
use sx_radio::shared::RadioError;
use sx_radio::{Radio, RadioConfig, RadioConfig6x, RadioConfig8x};

fn radio_6x(replies: Vec<Vec<u8>>) -> Radio {
    Radio {
        interface: Interface::new(false, replies),
        config: RadioConfig::R6x(RadioConfig6x::default()),
    }
}

fn radio_8x(replies: Vec<Vec<u8>>) -> Radio {
    Radio {
        interface: Interface::new(true, replies),
        config: RadioConfig::R8x(RadioConfig8x::default()),
    }
}

#[test]
fn send_issues_the_expected_sequence_6x() {
    // One scripted reply: the TX modulation register reads back 0x04.
    let mut radio = radio_6x(vec![vec![0, 0, 0, 0, 0x04, 0]]);
    radio.send_payload(&[0xaa, 0xbb], 915_000_000).unwrap();

    let log = &radio.interface.log;
    assert_eq!(log.len(), 9);
    // 1. Standby with the RC oscillator.
    assert_eq!(log[0].kind, BusOpKind::Command);
    assert_eq!(log[0].frame, vec![0x80, 0x00]);
    // 2./3. Modulation-quality erratum: read-modify-write of the TX
    // modulation register; the default 500 kHz bandwidth clears the bit.
    assert_eq!(log[1].kind, BusOpKind::Exchange);
    assert_eq!(log[1].frame, vec![0x1d, 0x08, 0x89, 0, 0, 0]);
    assert_eq!(log[2].frame, vec![0x0d, 0x08, 0x89, 0x00]);
    // 4. Frequency: 915 MHz encodes to 0x39300000 at the 2^-25 step.
    assert_eq!(log[3].frame, vec![0x86, 0x39, 0x30, 0x00, 0x00]);
    // 5. Buffer base addresses.
    assert_eq!(log[4].frame, vec![0x8f, 0x00, 0x00]);
    // 6. The two payload bytes behind the write-buffer opcode.
    assert_eq!(log[5].frame, vec![0x0e, 0x00, 0xaa, 0xbb]);
    // 7. Packet parameters with the payload length updated to 2.
    assert_eq!(
        log[6].frame,
        vec![0x8c, 0x00, 0x0c, 0x00, 0x02, 0x01, 0x00, 0, 0, 0]
    );
    // 8. IRQ routing: transmit-done and timeout, both also on DIO1.
    assert_eq!(
        log[7].frame,
        vec![0x08, 0x02, 0x01, 0x02, 0x01, 0, 0, 0x00, 0x00]
    );
    // 9. Transmit mode with the configured zero timeout.
    assert_eq!(log[8].frame, vec![0x83, 0x00, 0x00, 0x00]);
}

#[test]
fn send_updates_the_stored_configuration() {
    let mut radio = radio_6x(vec![vec![0, 0, 0, 0, 0, 0]]);
    radio.send_payload(&[1, 2, 3], 868_000_000).unwrap();
    match &radio.config {
        RadioConfig::R6x(c) => {
            assert_eq!(c.rf_freq, 868_000_000);
            assert_eq!(c.packet_params.payload_len, 3);
        }
        RadioConfig::R8x(_) => unreachable!(),
    }
}

#[test]
fn send_sequence_8x_has_no_erratum_step() {
    let mut radio = radio_8x(vec![]);
    radio.send_payload(&[0x55], 2_400_000_000).unwrap();
    let log = &radio.interface.log;
    assert_eq!(log.len(), 7);
    assert_eq!(log[0].frame, vec![0x80, 0x00]);
    // 2.4 GHz encodes to 12_098_954 = 0xb89d8a over three bytes.
    assert_eq!(log[1].frame, vec![0x86, 0xb8, 0x9d, 0x8a]);
    assert_eq!(log[2].frame, vec![0x8f, 0x00, 0x00]);
    // The SX128x write-buffer opcode differs.
    assert_eq!(log[3].frame, vec![0x1a, 0x00, 0x55]);
    // Packet parameters: preamble mantissa 12, variable header, length 1,
    // CRC enabled (0x20), standard IQ (0x40).
    assert_eq!(log[4].frame, vec![0x8c, 0x0c, 0x00, 0x01, 0x20, 0x40, 0, 0]);
    // IRQ routing with the SX128x bit positions: transmit-done bit 0,
    // timeout bit 14.
    assert_eq!(
        log[5].frame,
        vec![0x8d, 0x40, 0x01, 0x40, 0x01, 0, 0, 0x00, 0x00]
    );
    assert_eq!(log[6].frame, vec![0x83, 0x00, 0x00, 0x00]);
}

#[test]
fn oversized_payload_fails_and_writes_nothing_6x() {
    let mut radio = radio_6x(vec![vec![0, 0, 0, 0, 0, 0]]);
    let payload = [0u8; 256];
    assert_eq!(
        radio.send_payload(&payload, 915_000_000),
        Err(RadioError::PayloadSize(256))
    );
    // No bus operation was issued and no reply consumed.
    assert!(radio.interface.log.is_empty());
    assert_eq!(radio.interface.replies.len(), 1);
    // The configuration was not touched either.
    match &radio.config {
        RadioConfig::R6x(c) => {
            assert_eq!(c.rf_freq, 915_000_000);
            assert_eq!(c.packet_params.payload_len, 0);
        }
        RadioConfig::R8x(_) => unreachable!(),
    }
}

#[test]
fn oversized_payload_fails_and_writes_nothing_8x() {
    // The SX128x buffer holds 256 bytes; 257 is over it.
    let mut radio = radio_8x(vec![]);
    let payload = [0u8; 257];
    assert_eq!(
        radio.send_payload(&payload, 2_400_000_000),
        Err(RadioError::PayloadSize(257))
    );
    assert!(radio.interface.log.is_empty());
}

#[test]
fn payload_at_capacity_is_accepted_6x() {
    let mut radio = radio_6x(vec![vec![0, 0, 0, 0, 0, 0]]);
    let payload = [0x11u8; 255];
    radio.send_payload(&payload, 915_000_000).unwrap();
    // The write-buffer frame holds opcode, offset and all 255 bytes.
    assert_eq!(radio.interface.log[5].frame.len(), 257);
}

#[test]
fn busy_line_fails_with_busy_timeout() {
    let mut radio = radio_6x(vec![vec![0, 0, 0, 0, 0, 0]]);
    radio.interface.busy = true;
    assert_eq!(
        radio.send_payload(&[1], 915_000_000),
        Err(RadioError::BusyTimeout)
    );
    assert!(radio.interface.log.is_empty());
}

#[test]
fn receive_issues_the_expected_sequence_6x() {
    let mut radio = radio_6x(vec![]);
    radio.receive(64, 915_000_000).unwrap();
    let log = &radio.interface.log;
    assert_eq!(log.len(), 6);
    assert_eq!(log[0].frame, vec![0x80, 0x00]);
    assert_eq!(log[1].frame, vec![0x86, 0x39, 0x30, 0x00, 0x00]);
    assert_eq!(log[2].frame, vec![0x8f, 0x00, 0x00]);
    // Packet parameters carry the caller's maximum payload length.
    assert_eq!(
        log[3].frame,
        vec![0x8c, 0x00, 0x0c, 0x00, 64, 0x01, 0x00, 0, 0, 0]
    );
    // IRQ routing: receive-done and timeout on DIO3.
    assert_eq!(
        log[4].frame,
        vec![0x08, 0x02, 0x02, 0x00, 0x00, 0, 0, 0x02, 0x02]
    );
    // Receive mode with the configured zero timeout.
    assert_eq!(log[5].frame, vec![0x82, 0x00, 0x00, 0x00]);
}

#[test]
fn empty_payload_is_accepted() {
    let mut radio = radio_6x(vec![vec![0, 0, 0, 0, 0, 0]]);
    radio.send_payload(&[], 915_000_000).unwrap();
    // The write-buffer frame carries only the opcode and the offset.
    assert_eq!(radio.interface.log[5].frame, vec![0x0e, 0x00]);
}

#[test]
fn send_carries_the_configured_tx_timeout() {
    let mut config = RadioConfig6x::default();
    config.tx_timeout = 1000;
    let mut radio = Radio {
        interface: Interface::new(false, vec![vec![0, 0, 0, 0, 0, 0]]),
        config: RadioConfig::R6x(config),
    };
    radio.send_payload(&[0x01], 915_000_000).unwrap();
    // 1000 ms is 64000 counts of 15.625 µs.
    assert_eq!(
        radio.interface.log.last().unwrap().frame,
        vec![0x83, 0x00, 0xfa, 0x00]
    );
}

#[test]
fn short_preamble_fails_mid_send_after_the_buffer_write_6x() {
    let mut config = RadioConfig6x::default();
    config.packet_params.preamble_len = 5;
    let mut radio = Radio {
        interface: Interface::new(false, vec![vec![0, 0, 0, 0, 0, 0]]),
        config: RadioConfig::R6x(config),
    };
    assert_eq!(
        radio.send_payload(&[0x01], 915_000_000),
        Err(RadioError::Config)
    );
    // Standby, the erratum pair, frequency, buffer base and the payload
    // write went out; the framing command did not.
    assert_eq!(radio.interface.log.len(), 6);
    assert_eq!(radio.interface.log[5].frame, vec![0x0e, 0x00, 0x01]);
}

#[test]
fn preamble_below_ten_rejected_on_receive_6x() {
    let mut config = RadioConfig6x::default();
    config.packet_params.preamble_len = 9;
    let mut radio = Radio {
        interface: Interface::new(false, vec![]),
        config: RadioConfig::R6x(config),
    };
    assert_eq!(radio.receive(64, 915_000_000), Err(RadioError::Config));
}
