//! Initialisation protocol order, configuration rejection, and the raw
//! value tables of both chip families.

use sx_radio::params::{
    CrcEnabled, InvertIq, LoraBandwidth6x, LoraBandwidth8x, LoraCodingRate, LoraHeaderType,
    LoraSpreadingFactor,
};
use sx_radio::shared::{OpCode, RadioError, Register6x, Register8x};
use sx_radio::spi_interface::{BusOpKind, Interface};
use sx_radio::{
    FallbackMode, Irq, LoraNetwork, OutputPower6x, PacketType, Radio, RadioConfig, RadioConfig6x,
    RadioConfig8x, RampTime6x, RampTime8x,
};

#[test]
fn init_6x_issues_the_full_ordered_sequence() {
    // One scripted reply: the TX clamp register reads back 0x01.
    let interface = Interface::new(false, vec![vec![0, 0, 0, 0, 0x01, 0]]);
    let radio = Radio::new(RadioConfig::R6x(RadioConfig6x::default()), interface).unwrap();
    let log = &radio.interface.log;
    assert_eq!(log.len(), 19);
    assert_eq!(log[0].kind, BusOpKind::Reset);
    // Standby, then the packet type before any other configuration.
    assert_eq!(log[1].frame, vec![0x80, 0x00]);
    assert_eq!(log[2].frame, vec![0x8a, 0x01]);
    // Frequency.
    assert_eq!(log[3].frame, vec![0x86, 0x39, 0x30, 0x00, 0x00]);
    // Modulation: SF5, 500 kHz, CR 4/5, no low-data-rate optimisation.
    assert_eq!(log[4].frame, vec![0x8b, 0x05, 0x06, 0x01, 0x00, 0, 0, 0, 0]);
    // Framing: 12-symbol preamble, explicit header, CRC on, standard IQ.
    assert_eq!(
        log[5].frame,
        vec![0x8c, 0x00, 0x0c, 0x00, 0x00, 0x01, 0x00, 0, 0, 0]
    );
    // RX-gain retention erratum: three fixed register writes.
    assert_eq!(log[6].frame, vec![0x0d, 0x02, 0x9f, 0x01]);
    assert_eq!(log[7].frame, vec![0x0d, 0x02, 0xa0, 0x08]);
    assert_eq!(log[8].frame, vec![0x0d, 0x02, 0xa1, 0xac]);
    // TX clamp erratum: read, then write back with the mask ORed in.
    assert_eq!(log[9].frame, vec![0x1d, 0x08, 0xd8, 0, 0, 0]);
    assert_eq!(log[10].frame, vec![0x0d, 0x08, 0xd8, 0x1f]);
    // Regulator, PA configuration, fallback mode, RF-switch control.
    assert_eq!(log[11].frame, vec![0x96, 0x01]);
    assert_eq!(log[12].frame, vec![0x95, 0x04, 0x07, 0x00, 0x01]);
    assert_eq!(log[13].frame, vec![0x93, 0x20]);
    assert_eq!(log[14].frame, vec![0x9d, 0x01]);
    // Private-network sync word over its two registers.
    assert_eq!(log[15].frame, vec![0x0d, 0x07, 0x40, 0x14]);
    assert_eq!(log[16].frame, vec![0x0d, 0x07, 0x41, 0x24]);
    // Transmit power and ramp time, then the buffer base addresses.
    assert_eq!(log[17].frame, vec![0x8e, 0x16, 0x04]);
    assert_eq!(log[18].frame, vec![0x8f, 0x00, 0x00]);
}

#[test]
fn init_8x_issues_its_shorter_sequence() {
    let interface = Interface::new(true, vec![]);
    let radio = Radio::new(RadioConfig::R8x(RadioConfig8x::default()), interface).unwrap();
    let log = &radio.interface.log;
    assert_eq!(log.len(), 10);
    assert_eq!(log[0].kind, BusOpKind::Reset);
    assert_eq!(log[1].frame, vec![0x80, 0x00]);
    assert_eq!(log[2].frame, vec![0x8a, 0x01]);
    assert_eq!(log[3].frame, vec![0x86, 0xb8, 0x9d, 0x8a]);
    // Modulation, then the two register writes the datasheet requires
    // after it: the SF-dependent value for SF5, and the frequency-error
    // compensation enable.
    assert_eq!(log[4].frame, vec![0x8b, 0x50, 0x34, 0x01]);
    assert_eq!(log[5].frame, vec![0x18, 0x09, 0x25, 0x1e]);
    assert_eq!(log[6].frame, vec![0x18, 0x09, 0x3c, 0x01]);
    assert_eq!(log[7].frame, vec![0x8c, 0x0c, 0x00, 0x00, 0x20, 0x40, 0, 0]);
    assert_eq!(log[8].frame, vec![0x8e, 0x1f, 0x80]);
    assert_eq!(log[9].frame, vec![0x8f, 0x00, 0x00]);
}

#[test]
fn init_rejects_short_preambles_for_all_values_below_ten() {
    for preamble in 0u16..10 {
        let mut config = RadioConfig6x::default();
        config.packet_params.preamble_len = preamble;
        let interface = Interface::new(false, vec![vec![0, 0, 0, 0, 0, 0]]);
        let r = Radio::new(RadioConfig::R6x(config), interface);
        assert!(matches!(r, Err(RadioError::Config)), "preamble {}", preamble);
    }
    for preamble in [10u16, 12, 100, 65535] {
        let mut config = RadioConfig6x::default();
        config.packet_params.preamble_len = preamble;
        let interface = Interface::new(false, vec![vec![0, 0, 0, 0, 0, 0]]);
        assert!(Radio::new(RadioConfig::R6x(config), interface).is_ok());
    }
}

#[test]
fn init_with_busy_line_fails() {
    let mut interface = Interface::new(false, vec![vec![0, 0, 0, 0, 0, 0]]);
    interface.busy = true;
    let r = Radio::new(RadioConfig::R6x(RadioConfig6x::default()), interface);
    assert!(matches!(r, Err(RadioError::BusyTimeout)));
}

#[test]
fn init_6x_without_clamp_reply_is_a_bus_fault() {
    let interface = Interface::new(false, vec![]);
    let r = Radio::new(RadioConfig::R6x(RadioConfig6x::default()), interface);
    assert!(matches!(r, Err(RadioError::Spi)));
}

#[test]
fn spreading_factor_values_differ_by_family() {
    let pairs = [
        (LoraSpreadingFactor::SF5, 0x05, 0x50),
        (LoraSpreadingFactor::SF6, 0x06, 0x60),
        (LoraSpreadingFactor::SF7, 0x07, 0x70),
        (LoraSpreadingFactor::SF8, 0x08, 0x80),
        (LoraSpreadingFactor::SF9, 0x09, 0x90),
        (LoraSpreadingFactor::SF10, 0x0a, 0xa0),
        (LoraSpreadingFactor::SF11, 0x0b, 0xb0),
        (LoraSpreadingFactor::SF12, 0x0c, 0xc0),
    ];
    for (sf, v6, v8) in pairs {
        assert_eq!(sf.val_6x(), v6);
        assert_eq!(sf.val_8x(), v8);
    }
    assert_eq!(LoraSpreadingFactor::SF5.sf_cfg_val(), 0x1e);
    assert_eq!(LoraSpreadingFactor::SF7.sf_cfg_val(), 0x37);
    assert_eq!(LoraSpreadingFactor::SF12.sf_cfg_val(), 0x32);
}

#[test]
fn header_crc_iq_values() {
    assert_eq!(LoraHeaderType::VariableLength.val_6x(), 0x00);
    assert_eq!(LoraHeaderType::FixedLength.val_6x(), 0x01);
    assert_eq!(LoraHeaderType::VariableLength.val_8x(), 0x00);
    assert_eq!(LoraHeaderType::FixedLength.val_8x(), 0x80);
    assert_eq!(CrcEnabled::Disabled.val_6x(), 0);
    assert_eq!(CrcEnabled::Enabled.val_6x(), 1);
    assert_eq!(CrcEnabled::Disabled.val_8x(), 0);
    assert_eq!(CrcEnabled::Enabled.val_8x(), 0x20);
    assert_eq!(InvertIq::Standard.val_6x(), 0);
    assert_eq!(InvertIq::Inverted.val_6x(), 1);
    assert_eq!(InvertIq::Standard.val_8x(), 0x40);
    assert_eq!(InvertIq::Inverted.val_8x(), 0);
}

#[test]
fn irq_bit_positions() {
    assert_eq!(Irq::TxDone.val_6x(), 0);
    assert_eq!(Irq::RxDone.val_6x(), 1);
    assert_eq!(Irq::CrcErr.val_6x(), 6);
    assert_eq!(Irq::Timeout.val_6x(), 9);
    // The SX128x moves several of them.
    assert_eq!(Irq::TxDone.val_8x(), 0);
    assert_eq!(Irq::SyncWordValid.val_8x(), 2);
    assert_eq!(Irq::SyncWordError.val_8x(), 3);
    assert_eq!(Irq::CadDone.val_8x(), 12);
    assert_eq!(Irq::CadDetected.val_8x(), 13);
    assert_eq!(Irq::Timeout.val_8x(), 14);
    assert_eq!(Irq::PremableDetected.val_8x(), 15);
    assert_eq!(Irq::HeaderErr.val_8x(), 5);
}

#[test]
fn opcode_values_differ_by_family() {
    assert_eq!(OpCode::GetStatus.val_6x(), 0xc0);
    assert_eq!(OpCode::GetStatus.val_8x(), 0xc0);
    assert_eq!(OpCode::WriteBuffer.val_6x(), 0x0e);
    assert_eq!(OpCode::WriteBuffer.val_8x(), 0x1a);
    assert_eq!(OpCode::ReadBuffer.val_6x(), 0x1e);
    assert_eq!(OpCode::ReadBuffer.val_8x(), 0x1b);
    assert_eq!(OpCode::WriteRegister.val_8x(), 0x18);
    assert_eq!(OpCode::ReadRegister.val_8x(), 0x19);
    assert_eq!(OpCode::ClearIrqStatus.val_6x(), 0x02);
    assert_eq!(OpCode::ClearIrqStatus.val_8x(), 0x97);
    assert_eq!(OpCode::GetIrqStatus.val_6x(), 0x12);
    assert_eq!(OpCode::GetIrqStatus.val_8x(), 0x15);
    assert_eq!(OpCode::SetDioIrqParams.val_8x(), 0x8d);
    assert_eq!(OpCode::SetTx.val_8x(), 0x83);
}

#[test]
fn register_addresses() {
    assert_eq!(Register6x::TxModulation.addr(), 0x0889);
    assert_eq!(Register6x::TxClampConfig.addr(), 0x08d8);
    assert_eq!(Register6x::RtcControl.addr(), 0x0902);
    assert_eq!(Register6x::EventMask.addr(), 0x0944);
    assert_eq!(Register6x::LoraSyncWordMsb.addr(), 0x0740);
    assert_eq!(Register6x::RxGainRetention0.addr(), 0x029f);
    assert_eq!(Register8x::SfAdditionalConfiguration.addr(), 0x0925);
    assert_eq!(Register8x::FrequencyErrorCorrection.addr(), 0x093c);
    assert_eq!(Register8x::RxGain.addr(), 0x0891);
}

#[test]
fn power_and_ramp_values() {
    assert_eq!(OutputPower6x::Db14.val(), 0x0e);
    assert_eq!(OutputPower6x::Db22.val(), 0x16);
    assert_eq!(OutputPower6x::Db14.dutycycle_hpmax(), (0x02, 0x02));
    assert_eq!(OutputPower6x::Db17.dutycycle_hpmax(), (0x02, 0x03));
    assert_eq!(OutputPower6x::Db20.dutycycle_hpmax(), (0x03, 0x05));
    assert_eq!(OutputPower6x::Db22.dutycycle_hpmax(), (0x04, 0x07));
    assert_eq!(OutputPower6x::default(), OutputPower6x::Db22);
    assert_eq!(RampTime6x::R200.val(), 4);
    assert_eq!(RampTime8x::R10.val(), 0x80);
    assert_eq!(FallbackMode::StdbyRc.val(), 0x20);
    assert_eq!(LoraNetwork::Public.val(), 0x3444);
    assert_eq!(LoraNetwork::Private.val(), 0x1424);
    assert_eq!(PacketType::Lora.val(), 1);
    assert_eq!(LoraBandwidth6x::BW500.val(), 0x06);
    assert_eq!(LoraBandwidth6x::BW125.val(), 0x04);
    assert_eq!(LoraBandwidth8x::BW200.val(), 0x34);
    assert_eq!(LoraCodingRate::CR4_5.val(), 1);
    assert_eq!(LoraCodingRate::CRLI4_7.val(), 8);
}

#[test]
fn default_configurations() {
    let c6 = RadioConfig6x::default();
    assert_eq!(c6.packet_type, PacketType::Lora);
    assert_eq!(c6.rf_freq, 915_000_000);
    assert!(c6.use_dio2_as_rfswitch);
    assert!(c6.dc_dc_enabled);
    assert_eq!(c6.tx_timeout, 0);
    assert_eq!(c6.rx_timeout, 0);
    assert_eq!(c6.packet_params.preamble_len, 12);
    assert_eq!(c6.packet_params.payload_len, 0);
    let c8 = RadioConfig8x::default();
    assert_eq!(c8.packet_type, PacketType::Lora);
    assert_eq!(c8.rf_freq, 2_400_000_000);
    assert_eq!(c8.output_power, 13);
}

#[test]
fn set_high_rx_gain_writes_the_gain_register() {
    let interface = Interface::new(true, vec![]);
    let mut radio = Radio {
        interface,
        config: RadioConfig::R8x(RadioConfig8x::default()),
    };
    radio.set_high_rx_gain().unwrap();
    assert_eq!(radio.interface.log[0].frame, vec![0x18, 0x08, 0x91, 0xe5]);
}

#[test]
fn set_mod_params_8x_lora_appends_the_required_register_writes() {
    let mut radio = Radio {
        interface: Interface::new(true, vec![]),
        config: RadioConfig::R8x(RadioConfig8x::default()),
    };
    radio.set_mod_params().unwrap();
    let log = &radio.interface.log;
    assert_eq!(log.len(), 3);
    assert_eq!(log[0].frame, vec![0x8b, 0x50, 0x34, 0x01]);
    assert_eq!(log[1].frame, vec![0x18, 0x09, 0x25, 0x1e]);
    assert_eq!(log[2].frame, vec![0x18, 0x09, 0x3c, 0x01]);
}

#[test]
fn clear_irq_masks_by_family() {
    let mut radio = Radio {
        interface: Interface::new(false, vec![]),
        config: RadioConfig::R6x(RadioConfig6x::default()),
    };
    radio.clear_irq(&[Irq::TxDone, Irq::Timeout]).unwrap();
    assert_eq!(radio.interface.log[0].frame, vec![0x02, 0x02, 0x01]);
    radio.clear_irq(&[]).unwrap();
    assert_eq!(radio.interface.log[1].frame, vec![0x02, 0x00, 0x00]);
}
