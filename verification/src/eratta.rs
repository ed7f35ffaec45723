//! Erratum workarounds the SX126x datasheet prescribes; the SX128x needs
//! none of them, so every one of these applies to the SX126x only.

use vstd::prelude::*;

use crate::shared::{RadioError, Register, Register6x};
use crate::spi_interface::{reg_read_frame, reg_write_frame, BusOpKind, Interface};
use crate::{PacketType, Radio, RadioConfig};

verus! {

/// The three fixed writes of the RX-gain retention workaround.
pub open spec fn rxgain_retention_ops() -> Seq<(BusOpKind, Seq<u8>)> {
    seq![
        (
            BusOpKind::Command,
            reg_write_frame(Register::Reg6x(Register6x::RxGainRetention0), 0x01, false),
        ),
        (
            BusOpKind::Command,
            reg_write_frame(Register::Reg6x(Register6x::RxGainRetention1), 0x08, false),
        ),
        (
            BusOpKind::Command,
            reg_write_frame(Register::Reg6x(Register6x::RxGainRetention2), 0xac, false),
        ),
    ]
}

/// The value the modulation-quality workaround writes back: the narrower
/// bandwidths need the bit set, the widest needs it cleared.
pub open spec fn mod_quality_value(config: crate::RadioConfig6x, v: u8) -> u8 {
    if config.packet_type == PacketType::Lora && config.modulation_params.mod_bandwidth
        == crate::params::LoraBandwidth6x::BW500 {
        v & 0xfb
    } else {
        v | 0x04
    }
}

/// The read-modify-write pair of the TX clamp workaround, given the value
/// the clamp register read back.
pub open spec fn tx_clamp_ops(clamp: u8) -> Seq<(BusOpKind, Seq<u8>)> {
    seq![
        (
            BusOpKind::Exchange,
            reg_read_frame(Register::Reg6x(Register6x::TxClampConfig), false),
        ),
        (
            BusOpKind::Command,
            reg_write_frame(Register::Reg6x(Register6x::TxClampConfig), clamp | 0x1e, false),
        ),
    ]
}

/// The read-modify-write pair of the modulation-quality workaround, given
/// the value the TX modulation register read back.
pub open spec fn mod_quality_ops(config: crate::RadioConfig6x, txmod: u8) -> Seq<
    (BusOpKind, Seq<u8>),
> {
    seq![
        (
            BusOpKind::Exchange,
            reg_read_frame(Register::Reg6x(Register6x::TxModulation), false),
        ),
        (
            BusOpKind::Command,
            reg_write_frame(
                Register::Reg6x(Register6x::TxModulation),
                mod_quality_value(config, txmod),
                false,
            ),
        ),
    ]
}

/// The operations of the implicit-header timeout workaround, given the
/// value the event-mask register read back.
pub open spec fn implicit_header_ops(evmask: u8) -> Seq<(BusOpKind, Seq<u8>)> {
    seq![
        (
            BusOpKind::Command,
            reg_write_frame(Register::Reg6x(Register6x::RtcControl), 0x00, false),
        ),
        (
            BusOpKind::Exchange,
            reg_read_frame(Register::Reg6x(Register6x::EventMask), false),
        ),
        (
            BusOpKind::Command,
            reg_write_frame(
                Register::Reg6x(Register6x::EventMask),
                evmask | 0x02,
                false,
            ),
        ),
    ]
}

impl Radio {
    /// Retain the RX gain setting across receive cycles: three fixed
    /// register writes, applied once at initialisation.
    pub fn set_rxgain_retention(&mut self) -> (r: Result<(), RadioError>)
        requires
            old(self).wf(),
            !old(self).is_r8x(),
        ensures
            final(self).wf(),
            final(self).config == old(self).config,
            Interface::same_env(old(self).interface, final(self).interface),
            Interface::same_bufs(old(self).interface, final(self).interface),
            final(self).pending() == old(self).pending(),
            old(self).interface.busy ==> r == Err::<(), RadioError>(RadioError::BusyTimeout)
                && *final(self) == *old(self),
            !old(self).interface.busy ==> r is Ok && final(self).ops() == old(self).ops()
                + rxgain_retention_ops(),
    {
        match self.interface.write_reg_word(Register::Reg6x(Register6x::RxGainRetention0), 0x01) {
            Err(e) => {
                return Err(e);
            },
            Ok(()) => {},
        }
        match self.interface.write_reg_word(Register::Reg6x(Register6x::RxGainRetention1), 0x08) {
            Err(e) => {
                return Err(e);
            },
            Ok(()) => {},
        }
        match self.interface.write_reg_word(Register::Reg6x(Register6x::RxGainRetention2), 0xac) {
            Err(e) => {
                return Err(e);
            },
            Ok(()) => {},
        }
        proof {
            assert(self.ops() =~= old(self).ops() + rxgain_retention_ops());
        }
        Ok(())
    }

    /// Correct the power-amplifier clamping defect: read the clamp
    /// configuration register and OR in the fixed mask, once at
    /// initialisation.
    pub fn tx_clamp_workaround(&mut self) -> (r: Result<(), RadioError>)
        requires
            old(self).wf(),
            !old(self).is_r8x(),
        ensures
            final(self).wf(),
            final(self).config == old(self).config,
            Interface::same_env(old(self).interface, final(self).interface),
            Interface::same_bufs(old(self).interface, final(self).interface),
            old(self).interface.busy ==> r == Err::<(), RadioError>(RadioError::BusyTimeout)
                && *final(self) == *old(self),
            !old(self).interface.busy && Interface::reply_fits(old(self).pending(), 6) ==> {
                &&& r is Ok
                &&& final(self).ops() == old(self).ops() + tx_clamp_ops(
                    old(self).pending()[0][4],
                )
                &&& final(self).pending() == old(self).pending().drop_first()
            },
            !old(self).interface.busy && !Interface::reply_fits(old(self).pending(), 6) ==> r
                == Err::<(), RadioError>(RadioError::Spi) && *final(self) == *old(self),
    {
        let val = match self.interface.read_reg_word(Register::Reg6x(Register6x::TxClampConfig)) {
            Ok(v) => v,
            Err(e) => {
                return Err(e);
            },
        };
        match self.interface.write_reg_word(
            Register::Reg6x(Register6x::TxClampConfig),
            val | 0x1e,
        ) {
            Err(e) => {
                return Err(e);
            },
            Ok(()) => {},
        }
        proof {
            assert(self.ops() =~= old(self).ops() + tx_clamp_ops(old(self).pending()[0][4]));
        }
        Ok(())
    }

    /// Keep the modulation quality intact before a transmission: a
    /// read-modify-write of the TX modulation register, where the bit
    /// depends on whether the active bandwidth is the chip's widest.
    pub fn mod_quality_workaround(&mut self) -> (r: Result<(), RadioError>)
        requires
            old(self).wf(),
            !old(self).is_r8x(),
        ensures
            final(self).wf(),
            final(self).config == old(self).config,
            Interface::same_env(old(self).interface, final(self).interface),
            Interface::same_bufs(old(self).interface, final(self).interface),
            old(self).interface.busy ==> r == Err::<(), RadioError>(RadioError::BusyTimeout)
                && *final(self) == *old(self),
            !old(self).interface.busy && Interface::reply_fits(old(self).pending(), 6) ==> {
                &&& r is Ok
                &&& final(self).ops() == old(self).ops() + mod_quality_ops(
                    old(self).config->R6x_0,
                    old(self).pending()[0][4],
                )
                &&& final(self).pending() == old(self).pending().drop_first()
            },
            !old(self).interface.busy && !Interface::reply_fits(old(self).pending(), 6) ==> r
                == Err::<(), RadioError>(RadioError::Spi) && *final(self) == *old(self),
    {
        let value = match self.interface.read_reg_word(Register::Reg6x(Register6x::TxModulation)) {
            Ok(v) => v,
            Err(e) => {
                return Err(e);
            },
        };
        let new_value = match &self.config {
            RadioConfig::R6x(config) => {
                if config.packet_type == PacketType::Lora
                    && config.modulation_params.mod_bandwidth
                    == crate::params::LoraBandwidth6x::BW500 {
                    value & 0xfb
                } else {
                    value | 0x04
                }
            },
            RadioConfig::R8x(_) => {
                proof {
                    assert(false);
                }
                0
            },
        };
        match self.interface.write_reg_word(
            Register::Reg6x(Register6x::TxModulation),
            new_value,
        ) {
            Err(e) => {
                return Err(e);
            },
            Ok(()) => {},
        }
        proof {
            assert(self.ops() =~= old(self).ops() + mod_quality_ops(
                old(self).config->R6x_0,
                old(self).pending()[0][4],
            ));
        }
        Ok(())
    }

    /// Stop the internal timer and unmask its event after any receive with
    /// an active timeout, preventing the implicit-header timeout deadlock:
    /// one fixed register write, then a read-modify-write of the event
    /// mask.
    pub fn implicit_header_to_workaround(&mut self) -> (r: Result<(), RadioError>)
        requires
            old(self).wf(),
            !old(self).is_r8x(),
        ensures
            final(self).wf(),
            final(self).config == old(self).config,
            Interface::same_env(old(self).interface, final(self).interface),
            Interface::same_bufs(old(self).interface, final(self).interface),
            old(self).interface.busy ==> r == Err::<(), RadioError>(RadioError::BusyTimeout)
                && *final(self) == *old(self),
            !old(self).interface.busy && Interface::reply_fits(old(self).pending(), 6) ==> {
                &&& r is Ok
                &&& final(self).ops() == old(self).ops() + implicit_header_ops(
                    old(self).pending()[0][4],
                )
                &&& final(self).pending() == old(self).pending().drop_first()
            },
            !old(self).interface.busy && !Interface::reply_fits(old(self).pending(), 6) ==> {
                &&& r == Err::<(), RadioError>(RadioError::Spi)
                &&& final(self).ops() == old(self).ops().push(
                    (
                        BusOpKind::Command,
                        reg_write_frame(Register::Reg6x(Register6x::RtcControl), 0x00, false),
                    ),
                )
                &&& final(self).pending() == old(self).pending()
            },
    {
        match self.interface.write_reg_word(Register::Reg6x(Register6x::RtcControl), 0x00) {
            Err(e) => {
                return Err(e);
            },
            Ok(()) => {},
        }
        let val = match self.interface.read_reg_word(Register::Reg6x(Register6x::EventMask)) {
            Ok(v) => v,
            Err(e) => {
                return Err(e);
            },
        };
        match self.interface.write_reg_word(
            Register::Reg6x(Register6x::EventMask),
            val | 0x02,
        ) {
            Err(e) => {
                return Err(e);
            },
            Ok(()) => {},
        }
        proof {
            assert(self.ops() =~= old(self).ops() + implicit_header_ops(
                old(self).pending()[0][4],
            ));
        }
        Ok(())
    }
}

} // verus!
