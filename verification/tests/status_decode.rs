//! Status decoding: every defined 3-bit code maps to its typed value, and
//! every undefined code fails hard with the raw value, on both families.

use sx_radio::shared::RadioError;
use sx_radio::spi_interface::Interface;
use sx_radio::status::{decode_command_status, decode_operating_mode};
use sx_radio::{CommandStatus, OperatingModeRead, Radio, RadioConfig, RadioConfig6x, RadioConfig8x};

#[test]
fn operating_mode_all_eight_codes() {
    let expected: [Result<OperatingModeRead, RadioError>; 8] = [
        Err(RadioError::UnexpectedStatus(0)),
        Err(RadioError::UnexpectedStatus(1)),
        Ok(OperatingModeRead::StbyRc),
        Ok(OperatingModeRead::StbyOsc),
        Ok(OperatingModeRead::Fs),
        Ok(OperatingModeRead::Rx),
        Ok(OperatingModeRead::Tx),
        Err(RadioError::UnexpectedStatus(7)),
    ];
    for code in 0u8..8 {
        assert_eq!(decode_operating_mode(code), expected[code as usize]);
    }
}

#[test]
fn command_status_all_eight_codes_6x() {
    let expected: [Result<CommandStatus, RadioError>; 8] = [
        Err(RadioError::UnexpectedStatus(0)),
        // The reserved code 1 is a hard error on this family, never a
        // substituted success.
        Err(RadioError::UnexpectedStatus(1)),
        Ok(CommandStatus::DataAvailable),
        Ok(CommandStatus::CommandTimeout),
        Ok(CommandStatus::CommandProcessingError),
        Ok(CommandStatus::FailureToExecuteCommand),
        Ok(CommandStatus::CommandTxDone),
        Err(RadioError::UnexpectedStatus(7)),
    ];
    for code in 0u8..8 {
        assert_eq!(decode_command_status(code, false), expected[code as usize]);
    }
}

#[test]
fn command_status_all_eight_codes_8x() {
    let expected: [Result<CommandStatus, RadioError>; 8] = [
        Err(RadioError::UnexpectedStatus(0)),
        Ok(CommandStatus::CommandProcessSuccess8x),
        Ok(CommandStatus::DataAvailable),
        Ok(CommandStatus::CommandTimeout),
        Ok(CommandStatus::CommandProcessingError),
        Ok(CommandStatus::FailureToExecuteCommand),
        Ok(CommandStatus::CommandTxDone),
        Err(RadioError::UnexpectedStatus(7)),
    ];
    for code in 0u8..8 {
        assert_eq!(decode_command_status(code, true), expected[code as usize]);
    }
}

fn radio_6x(replies: Vec<Vec<u8>>) -> Radio {
    Radio {
        interface: Interface::new(false, replies),
        config: RadioConfig::R6x(RadioConfig6x::default()),
    }
}

fn radio_8x(replies: Vec<Vec<u8>>) -> Radio {
    Radio {
        interface: Interface::new(true, replies),
        config: RadioConfig::R8x(RadioConfig8x::default()),
    }
}

#[test]
fn get_status_6x_reads_second_byte() {
    // Mode at bits 6:4, command status at bits 3:1 of the second byte.
    let byte = (2u8 << 4) | (2 << 1);
    let mut radio = radio_6x(vec![vec![0, byte]]);
    assert_eq!(
        radio.get_status(),
        Ok((OperatingModeRead::StbyRc, CommandStatus::DataAvailable))
    );
    // The exchange put the get-status frame on the wire.
    assert_eq!(radio.interface.log[0].frame, vec![0xc0, 0x00]);
}

#[test]
fn get_status_8x_reads_first_byte() {
    // Mode at bits 7:5, command status at bits 4:2 of the first byte.
    let byte = (6u8 << 5) | (1 << 2);
    let mut radio = radio_8x(vec![vec![byte, 0]]);
    assert_eq!(
        radio.get_status(),
        Ok((OperatingModeRead::Tx, CommandStatus::CommandProcessSuccess8x))
    );
}

#[test]
fn get_status_undefined_mode_fails_hard() {
    // Mode code 0 has no mapping.
    let byte = (0u8 << 4) | (2 << 1);
    let mut radio = radio_6x(vec![vec![0, byte]]);
    assert_eq!(radio.get_status(), Err(RadioError::UnexpectedStatus(0)));
}

#[test]
fn get_status_reserved_code_fails_hard_on_6x() {
    // Mode 1 is reserved; the decoder must not substitute a default.
    let byte = (1u8 << 4) | (2 << 1);
    let mut radio = radio_6x(vec![vec![0, byte]]);
    assert_eq!(radio.get_status(), Err(RadioError::UnexpectedStatus(1)));
}

#[test]
fn get_status_without_reply_is_a_bus_fault() {
    let mut radio = radio_6x(vec![]);
    assert_eq!(radio.get_status(), Err(RadioError::Spi));
}

#[test]
fn get_rx_buffer_status_fields() {
    let mut radio = radio_6x(vec![vec![0x2c, 0xab, 17, 3]]);
    let bs = radio.get_rx_buffer_status().unwrap();
    assert_eq!(bs.status, 0xab);
    assert_eq!(bs.payload_len, 17);
    assert_eq!(bs.rx_start_buf_pointer, 3);
}

#[test]
fn get_packet_status_fields() {
    let mut radio = radio_6x(vec![vec![0, 0x2c, 80, 10, 76]]);
    let ps = radio.get_packet_status().unwrap();
    assert_eq!(ps.status, 0x2c);
    assert_eq!(ps.rssi, 80);
    assert_eq!(ps.snr, 10);
    assert_eq!(ps.signal_rssi, 76);
}

#[test]
fn get_rssi_inst_halves_and_negates() {
    let mut radio = radio_6x(vec![vec![0, 0, 80]]);
    assert_eq!(radio.get_rssi_inst(), Ok(-40));
    let mut radio = radio_6x(vec![vec![0, 0, 81]]);
    assert_eq!(radio.get_rssi_inst(), Ok(-40));
    let mut radio = radio_6x(vec![vec![0, 0, 255]]);
    assert_eq!(radio.get_rssi_inst(), Ok(-127));
}

#[test]
fn get_statistics_fields() {
    let mut radio = radio_6x(vec![vec![0, 0x2c, 0x01, 0x02, 0x00, 0x03, 0x00, 0x04]]);
    let st = radio.get_statistics().unwrap();
    assert_eq!(st.status, 0x2c);
    assert_eq!(st.num_received, 0x0102);
    assert_eq!(st.num_crc_error, 3);
    assert_eq!(st.num_length_error, 4);
}

#[test]
fn get_device_errors_word() {
    let mut radio = radio_6x(vec![vec![0, 0, 0x01, 0x80]]);
    assert_eq!(radio.get_device_errors(), Ok(0x0180));
}

#[test]
fn get_irq_status_low_byte() {
    let mut radio = radio_6x(vec![vec![0, 0, 0x42, 0, 0]]);
    assert_eq!(radio.get_irq_status(), Ok(0x42));
    assert_eq!(radio.interface.log[0].frame, vec![0x12, 0, 0, 0, 0]);
}
