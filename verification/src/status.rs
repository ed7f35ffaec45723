//! Decoding of the status bytes, IRQ words, buffer status, packet status
//! and error counters that the device reports.
//!
//! The two families place the fields differently: the SX126x reports in the
//! second byte of a status exchange with the mode at bits 6:4 and the
//! command status at bits 3:1; the SX128x reports in the first byte with the
//! mode at bits 7:5 and the command status at bits 4:2. A 3-bit code with no
//! defined mapping is a hard `UnexpectedStatus` error, never a silently
//! substituted default: it indicates a transaction or timing fault upstream.

use vstd::prelude::*;

use crate::shared::{spec_be16, be16, OpCode, RadioError};
use crate::spi_interface::{BusOpKind, Interface};
use crate::{CommandStatus, OperatingModeRead, Radio, RxBufferStatus, RxPacketStatusLora,
    RxStatistics6x};

verus! {

/// The status byte of a status-exchange reply: second byte on the SX126x,
/// first on the SX128x.
pub open spec fn spec_status_byte(reply: Seq<u8>, r8x: bool) -> u8 {
    if r8x {
        reply[0]
    } else {
        reply[1]
    }
}

/// The 3-bit operating-mode field of a status byte.
pub open spec fn spec_mode_bits(b: u8, r8x: bool) -> u8 {
    if r8x {
        (b >> 5) & 0x07
    } else {
        (b >> 4) & 0x07
    }
}

/// The 3-bit command-status field of a status byte.
pub open spec fn spec_cmd_bits(b: u8, r8x: bool) -> u8 {
    if r8x {
        (b >> 2) & 0x07
    } else {
        (b >> 1) & 0x07
    }
}

/// The typed operating mode for each defined 3-bit code; every other code,
/// including the reserved-for-future-use ones, is an `UnexpectedStatus`.
pub open spec fn spec_decode_operating_mode(code: u8) -> Result<OperatingModeRead, RadioError> {
    if code == 2 {
        Ok(OperatingModeRead::StbyRc)
    } else if code == 3 {
        Ok(OperatingModeRead::StbyOsc)
    } else if code == 4 {
        Ok(OperatingModeRead::Fs)
    } else if code == 5 {
        Ok(OperatingModeRead::Rx)
    } else if code == 6 {
        Ok(OperatingModeRead::Tx)
    } else {
        Err(RadioError::UnexpectedStatus(code))
    }
}

/// The typed command status for each defined 3-bit code. Code 1 is defined
/// on the SX128x only; everywhere else an undefined code is an
/// `UnexpectedStatus`.
pub open spec fn spec_decode_command_status(code: u8, r8x: bool) -> Result<
    CommandStatus,
    RadioError,
> {
    if code == 1 && r8x {
        Ok(CommandStatus::CommandProcessSuccess8x)
    } else if code == 2 {
        Ok(CommandStatus::DataAvailable)
    } else if code == 3 {
        Ok(CommandStatus::CommandTimeout)
    } else if code == 4 {
        Ok(CommandStatus::CommandProcessingError)
    } else if code == 5 {
        Ok(CommandStatus::FailureToExecuteCommand)
    } else if code == 6 {
        Ok(CommandStatus::CommandTxDone)
    } else {
        Err(RadioError::UnexpectedStatus(code))
    }
}

/// What a whole status-exchange reply decodes to: the mode field is decoded
/// first, so if both fields are undefined the error carries the mode code.
pub open spec fn spec_status_result(reply: Seq<u8>, r8x: bool) -> Result<
    (OperatingModeRead, CommandStatus),
    RadioError,
> {
    let b = spec_status_byte(reply, r8x);
    match spec_decode_operating_mode(spec_mode_bits(b, r8x)) {
        Err(e) => Err(e),
        Ok(mode) => match spec_decode_command_status(spec_cmd_bits(b, r8x), r8x) {
            Err(e) => Err(e),
            Ok(status) => Ok((mode, status)),
        },
    }
}

/// Frame of the get-status exchange; the opcode is shared by both families.
pub open spec fn status_frame(r8x: bool) -> Seq<u8> {
    seq![OpCode::GetStatus.spec_val(r8x), 0]
}

/// Frame of the get-RX-buffer-status exchange.
pub open spec fn rx_buffer_status_frame(r8x: bool) -> Seq<u8> {
    seq![OpCode::GetRxBufferStatus.spec_val(r8x), 0, 0, 0]
}

/// Frame of the get-packet-status exchange.
pub open spec fn packet_status_frame(r8x: bool) -> Seq<u8> {
    seq![OpCode::GetPacketStatus.spec_val(r8x), 0, 0, 0, 0]
}

/// Frame of the instantaneous-RSSI exchange.
pub open spec fn rssi_frame(r8x: bool) -> Seq<u8> {
    seq![OpCode::GetRSSIInst.spec_val(r8x), 0, 0]
}

/// Frame of the receive-statistics exchange (SX126x only).
pub open spec fn statistics_frame() -> Seq<u8> {
    seq![OpCode::GetStatistics.spec_val_6x(), 0, 0, 0, 0, 0, 0, 0]
}

/// Frame of the device-error-count exchange (SX126x only).
pub open spec fn device_errors_frame() -> Seq<u8> {
    seq![OpCode::GetDeviceErrors.spec_val_6x(), 0, 0, 0]
}

/// Extract the 3-bit operating-mode field from a status byte.
pub fn mode_bits(b: u8, r8x: bool) -> (r: u8)
    ensures
        r == spec_mode_bits(b, r8x),
        r < 8,
{
    let r = if r8x {
        (b >> 5) & 0x07
    } else {
        (b >> 4) & 0x07
    };
    proof {
        assert((b >> 5) & 0x07 < 8 && (b >> 4) & 0x07 < 8) by (bit_vector);
    }
    r
}

/// Extract the 3-bit command-status field from a status byte.
pub fn cmd_bits(b: u8, r8x: bool) -> (r: u8)
    ensures
        r == spec_cmd_bits(b, r8x),
        r < 8,
{
    let r = if r8x {
        (b >> 2) & 0x07
    } else {
        (b >> 1) & 0x07
    };
    proof {
        assert((b >> 2) & 0x07 < 8 && (b >> 1) & 0x07 < 8) by (bit_vector);
    }
    r
}

/// Decode a 3-bit operating-mode code, failing hard on undefined codes.
pub fn decode_operating_mode(code: u8) -> (r: Result<OperatingModeRead, RadioError>)
    ensures
        r == spec_decode_operating_mode(code),
{
    match code {
        2 => Ok(OperatingModeRead::StbyRc),
        3 => Ok(OperatingModeRead::StbyOsc),
        4 => Ok(OperatingModeRead::Fs),
        5 => Ok(OperatingModeRead::Rx),
        6 => Ok(OperatingModeRead::Tx),
        _ => Err(RadioError::UnexpectedStatus(code)),
    }
}

/// Decode a 3-bit command-status code, failing hard on undefined codes.
pub fn decode_command_status(code: u8, r8x: bool) -> (r: Result<CommandStatus, RadioError>)
    ensures
        r == spec_decode_command_status(code, r8x),
{
    match code {
        1 => {
            if r8x {
                Ok(CommandStatus::CommandProcessSuccess8x)
            } else {
                Err(RadioError::UnexpectedStatus(code))
            }
        },
        2 => Ok(CommandStatus::DataAvailable),
        3 => Ok(CommandStatus::CommandTimeout),
        4 => Ok(CommandStatus::CommandProcessingError),
        5 => Ok(CommandStatus::FailureToExecuteCommand),
        6 => Ok(CommandStatus::CommandTxDone),
        _ => Err(RadioError::UnexpectedStatus(code)),
    }
}

impl Radio {
    /// Query the device status and decode it into the typed
    /// (operating mode, command status) pair.
    pub fn get_status(&mut self) -> (r: Result<(OperatingModeRead, CommandStatus), RadioError>)
        requires
            old(self).wf(),
        ensures
            final(self).wf(),
            final(self).config == old(self).config,
            Interface::same_env(old(self).interface, final(self).interface),
            Interface::same_bufs(old(self).interface, final(self).interface),
            old(self).interface.busy ==> r == Err::<(OperatingModeRead, CommandStatus),
                RadioError,
            >(RadioError::BusyTimeout) && *final(self) == *old(self),
            !old(self).interface.busy && Interface::reply_fits(old(self).pending(), 2) ==> {
                &&& final(self).ops() == old(self).ops().push(
                    (BusOpKind::Exchange, status_frame(old(self).is_r8x())),
                )
                &&& final(self).pending() == old(self).pending().drop_first()
                &&& r == spec_status_result(old(self).pending()[0], old(self).is_r8x())
            },
            !old(self).interface.busy && !Interface::reply_fits(old(self).pending(), 2) ==> r
                == Err::<(OperatingModeRead, CommandStatus), RadioError>(RadioError::Spi)
                && *final(self) == *old(self),
    {
        let r8x = self.interface.r8x;
        let c = OpCode::GetStatus.val(r8x);
        let mut frame: Vec<u8> = Vec::new();
        frame.push(c);
        frame.push(0);
        proof {
            assert(frame@ =~= status_frame(old(self).is_r8x()));
        }
        let reply = match self.interface.read(frame) {
            Ok(rep) => rep,
            Err(e) => {
                return Err(e);
            },
        };
        let b = if r8x {
            reply[0]
        } else {
            reply[1]
        };
        let om = mode_bits(b, r8x);
        let cs = cmd_bits(b, r8x);
        let operating_mode = match decode_operating_mode(om) {
            Ok(m) => m,
            Err(e) => {
                return Err(e);
            },
        };
        let command_status = match decode_command_status(cs, r8x) {
            Ok(s) => s,
            Err(e) => {
                return Err(e);
            },
        };
        Ok((operating_mode, command_status))
    }

    /// Read where the last received payload landed in the device buffer.
    pub fn get_rx_buffer_status(&mut self) -> (r: Result<RxBufferStatus, RadioError>)
        requires
            old(self).wf(),
        ensures
            final(self).wf(),
            final(self).config == old(self).config,
            Interface::same_env(old(self).interface, final(self).interface),
            Interface::same_bufs(old(self).interface, final(self).interface),
            old(self).interface.busy ==> r == Err::<RxBufferStatus, RadioError>(
                RadioError::BusyTimeout,
            ) && *final(self) == *old(self),
            !old(self).interface.busy && Interface::reply_fits(old(self).pending(), 4) ==> {
                &&& final(self).ops() == old(self).ops().push(
                    (BusOpKind::Exchange, rx_buffer_status_frame(old(self).is_r8x())),
                )
                &&& final(self).pending() == old(self).pending().drop_first()
                &&& r == Ok::<RxBufferStatus, RadioError>(
                    RxBufferStatus {
                        status: old(self).pending()[0][1],
                        payload_len: old(self).pending()[0][2],
                        rx_start_buf_pointer: old(self).pending()[0][3],
                    },
                )
            },
            !old(self).interface.busy && !Interface::reply_fits(old(self).pending(), 4) ==> r
                == Err::<RxBufferStatus, RadioError>(RadioError::Spi) && *final(self) == *old(
                self,
            ),
    {
        let c = OpCode::GetRxBufferStatus.val(self.interface.r8x);
        let mut frame: Vec<u8> = Vec::new();
        frame.push(c);
        frame.push(0);
        frame.push(0);
        frame.push(0);
        proof {
            assert(frame@ =~= rx_buffer_status_frame(old(self).is_r8x()));
        }
        let reply = match self.interface.read(frame) {
            Ok(rep) => rep,
            Err(e) => {
                return Err(e);
            },
        };
        Ok(
            RxBufferStatus {
                status: reply[1],
                payload_len: reply[2],
                rx_start_buf_pointer: reply[3],
            },
        )
    }

    /// Read the link statistics of the last received LoRa packet, raw.
    pub fn get_packet_status(&mut self) -> (r: Result<RxPacketStatusLora, RadioError>)
        requires
            old(self).wf(),
        ensures
            final(self).wf(),
            final(self).config == old(self).config,
            Interface::same_env(old(self).interface, final(self).interface),
            Interface::same_bufs(old(self).interface, final(self).interface),
            old(self).interface.busy ==> r == Err::<RxPacketStatusLora, RadioError>(
                RadioError::BusyTimeout,
            ) && *final(self) == *old(self),
            !old(self).interface.busy && Interface::reply_fits(old(self).pending(), 5) ==> {
                &&& final(self).ops() == old(self).ops().push(
                    (BusOpKind::Exchange, packet_status_frame(old(self).is_r8x())),
                )
                &&& final(self).pending() == old(self).pending().drop_first()
                &&& r == Ok::<RxPacketStatusLora, RadioError>(
                    RxPacketStatusLora {
                        status: old(self).pending()[0][1],
                        rssi: old(self).pending()[0][2],
                        snr: old(self).pending()[0][3],
                        signal_rssi: old(self).pending()[0][4],
                    },
                )
            },
            !old(self).interface.busy && !Interface::reply_fits(old(self).pending(), 5) ==> r
                == Err::<RxPacketStatusLora, RadioError>(RadioError::Spi) && *final(self) == *old(
                self,
            ),
    {
        let c = OpCode::GetPacketStatus.val(self.interface.r8x);
        let mut frame: Vec<u8> = Vec::new();
        frame.push(c);
        frame.push(0);
        frame.push(0);
        frame.push(0);
        frame.push(0);
        proof {
            assert(frame@ =~= packet_status_frame(old(self).is_r8x()));
        }
        let reply = match self.interface.read(frame) {
            Ok(rep) => rep,
            Err(e) => {
                return Err(e);
            },
        };
        Ok(
            RxPacketStatusLora {
                status: reply[1],
                rssi: reply[2],
                snr: reply[3],
                signal_rssi: reply[4],
            },
        )
    }

    /// Read the instantaneous RSSI; the result is −(raw / 2) dBm.
    pub fn get_rssi_inst(&mut self) -> (r: Result<i8, RadioError>)
        requires
            old(self).wf(),
        ensures
            final(self).wf(),
            final(self).config == old(self).config,
            Interface::same_env(old(self).interface, final(self).interface),
            Interface::same_bufs(old(self).interface, final(self).interface),
            old(self).interface.busy ==> r == Err::<i8, RadioError>(RadioError::BusyTimeout)
                && *final(self) == *old(self),
            !old(self).interface.busy && Interface::reply_fits(old(self).pending(), 3) ==> {
                &&& final(self).ops() == old(self).ops().push(
                    (BusOpKind::Exchange, rssi_frame(old(self).is_r8x())),
                )
                &&& final(self).pending() == old(self).pending().drop_first()
                &&& r matches Ok(v) && v as int == -((old(self).pending()[0][2] as int) / 2)
            },
            !old(self).interface.busy && !Interface::reply_fits(old(self).pending(), 3) ==> r
                == Err::<i8, RadioError>(RadioError::Spi) && *final(self) == *old(self),
    {
        let c = OpCode::GetRSSIInst.val(self.interface.r8x);
        let mut frame: Vec<u8> = Vec::new();
        frame.push(c);
        frame.push(0);
        frame.push(0);
        proof {
            assert(frame@ =~= rssi_frame(old(self).is_r8x()));
        }
        let reply = match self.interface.read(frame) {
            Ok(rep) => rep,
            Err(e) => {
                return Err(e);
            },
        };
        let half = reply[2] / 2;
        Ok(-(half as i8))
    }

    /// Read the receive counters. The command exists on the SX126x only.
    pub fn get_statistics(&mut self) -> (r: Result<RxStatistics6x, RadioError>)
        requires
            old(self).wf(),
            !old(self).is_r8x(),
        ensures
            final(self).wf(),
            final(self).config == old(self).config,
            Interface::same_env(old(self).interface, final(self).interface),
            Interface::same_bufs(old(self).interface, final(self).interface),
            old(self).interface.busy ==> r == Err::<RxStatistics6x, RadioError>(
                RadioError::BusyTimeout,
            ) && *final(self) == *old(self),
            !old(self).interface.busy && Interface::reply_fits(old(self).pending(), 8) ==> {
                &&& final(self).ops() == old(self).ops().push(
                    (BusOpKind::Exchange, statistics_frame()),
                )
                &&& final(self).pending() == old(self).pending().drop_first()
                &&& r == Ok::<RxStatistics6x, RadioError>(
                    RxStatistics6x {
                        status: old(self).pending()[0][1],
                        num_received: spec_be16(
                            old(self).pending()[0][2],
                            old(self).pending()[0][3],
                        ),
                        num_crc_error: spec_be16(
                            old(self).pending()[0][4],
                            old(self).pending()[0][5],
                        ),
                        num_length_error: spec_be16(
                            old(self).pending()[0][6],
                            old(self).pending()[0][7],
                        ),
                    },
                )
            },
            !old(self).interface.busy && !Interface::reply_fits(old(self).pending(), 8) ==> r
                == Err::<RxStatistics6x, RadioError>(RadioError::Spi) && *final(self) == *old(
                self,
            ),
    {
        let c = OpCode::GetStatistics.val_6x();
        let mut frame: Vec<u8> = Vec::new();
        frame.push(c);
        frame.push(0);
        frame.push(0);
        frame.push(0);
        frame.push(0);
        frame.push(0);
        frame.push(0);
        frame.push(0);
        proof {
            assert(frame@ =~= statistics_frame());
        }
        let reply = match self.interface.read(frame) {
            Ok(rep) => rep,
            Err(e) => {
                return Err(e);
            },
        };
        Ok(
            RxStatistics6x {
                status: reply[1],
                num_received: be16(reply[2], reply[3]),
                num_crc_error: be16(reply[4], reply[5]),
                num_length_error: be16(reply[6], reply[7]),
            },
        )
    }

    /// Read the device error-count word. The standalone command exists on
    /// the SX126x only; the controller consults it only on that family.
    pub fn get_device_errors(&mut self) -> (r: Result<u16, RadioError>)
        requires
            old(self).wf(),
        ensures
            final(self).wf(),
            final(self).config == old(self).config,
            Interface::same_env(old(self).interface, final(self).interface),
            Interface::same_bufs(old(self).interface, final(self).interface),
            old(self).interface.busy ==> r == Err::<u16, RadioError>(RadioError::BusyTimeout)
                && *final(self) == *old(self),
            !old(self).interface.busy && Interface::reply_fits(old(self).pending(), 4) ==> {
                &&& final(self).ops() == old(self).ops().push(
                    (BusOpKind::Exchange, device_errors_frame()),
                )
                &&& final(self).pending() == old(self).pending().drop_first()
                &&& r == Ok::<u16, RadioError>(
                    spec_be16(old(self).pending()[0][2], old(self).pending()[0][3]),
                )
            },
            !old(self).interface.busy && !Interface::reply_fits(old(self).pending(), 4) ==> r
                == Err::<u16, RadioError>(RadioError::Spi) && *final(self) == *old(self),
    {
        let c = OpCode::GetDeviceErrors.val_6x();
        let mut frame: Vec<u8> = Vec::new();
        frame.push(c);
        frame.push(0);
        frame.push(0);
        frame.push(0);
        proof {
            assert(frame@ =~= device_errors_frame());
        }
        let reply = match self.interface.read(frame) {
            Ok(rep) => rep,
            Err(e) => {
                return Err(e);
            },
        };
        Ok(be16(reply[2], reply[3]))
    }
}

} // verus!
