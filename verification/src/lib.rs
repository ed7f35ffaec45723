//! Driver logic for the SX126x and SX128x LoRa radio transceivers.
//!
//! The two chip families share one command/configuration API; the
//! family-specific opcode and register encodings are selected by the tag
//! carried in the configuration. The transaction layer is modelled as plain
//! data: every command frame the driver issues is appended to an ordered log,
//! and every response the device gives is taken from a scripted queue of
//! replies. The wire-level byte exchange itself lives outside this crate.

pub mod configure;
pub mod eratta;
pub mod params;
pub mod shared;
pub mod spi_interface;
pub mod status;

use vstd::prelude::*;

use crate::params::{ModulationParams8x, ModulationParamsLora6x, PacketParams, PacketParamsLora};
use crate::shared::{be16, spec_be16, OpCode, RadioError, Register, Register6x, Register8x};
use crate::spi_interface::{op_read_frame, op_word_frame, reg_write_frame, BusOpKind, Interface,
    RADIO_BUF_SIZE};
use crate::status::{device_errors_frame, rx_buffer_status_frame, spec_status_result, status_frame};

verus! {

/// Protocol selector written with the set-packet-type command. Only LoRa is
/// in scope; the remaining variants preserve the command encoding.
#[derive(Clone, Copy, PartialEq, Eq, Structural, Debug)]
pub enum PacketType {
    Gfsk,
    Lora,
    /// SX128x only.
    Ranging,
    /// Long-range FHSS (FLRC on the SX128x).
    LrFhssFlrc,
    /// SX128x only.
    Ble,
}

impl PacketType {
    /// Command parameter value; the same on both chip families.
    pub open spec fn spec_val(self) -> u8 {
        match self {
            PacketType::Gfsk => 0,
            PacketType::Lora => 1,
            PacketType::Ranging => 2,
            PacketType::LrFhssFlrc => 3,
            PacketType::Ble => 4,
        }
    }

    pub fn val(&self) -> (r: u8)
        ensures
            r == self.spec_val(),
    {
        match self {
            PacketType::Gfsk => 0,
            PacketType::Lora => 1,
            PacketType::Ranging => 2,
            PacketType::LrFhssFlrc => 3,
            PacketType::Ble => 4,
        }
    }
}

/// SX126x only: selects the LoRa sync word that separates public and private
/// networks. The 16-bit value is split over two registers.
#[derive(Clone, Copy, PartialEq, Eq, Structural, Debug)]
pub enum LoraNetwork {
    Public,
    Private,
}

impl LoraNetwork {
    pub open spec fn spec_val(self) -> u16 {
        match self {
            LoraNetwork::Public => 0x3444,
            LoraNetwork::Private => 0x1424,
        }
    }

    pub fn val(&self) -> (r: u16)
        ensures
            r == self.spec_val(),
    {
        match self {
            LoraNetwork::Public => 0x3444,
            LoraNetwork::Private => 0x1424,
        }
    }
}

/// SX126x power-amplifier ramp time. Variant names give the time in µs.
#[derive(Clone, Copy, PartialEq, Eq, Structural, Debug)]
pub enum RampTime6x {
    R10,
    R20,
    R40,
    R80,
    R200,
    R800,
    R1700,
    R3400,
}

impl RampTime6x {
    pub open spec fn spec_val(self) -> u8 {
        match self {
            RampTime6x::R10 => 0,
            RampTime6x::R20 => 1,
            RampTime6x::R40 => 2,
            RampTime6x::R80 => 3,
            RampTime6x::R200 => 4,
            RampTime6x::R800 => 5,
            RampTime6x::R1700 => 6,
            RampTime6x::R3400 => 7,
        }
    }

    pub fn val(&self) -> (r: u8)
        ensures
            r == self.spec_val(),
    {
        match self {
            RampTime6x::R10 => 0,
            RampTime6x::R20 => 1,
            RampTime6x::R40 => 2,
            RampTime6x::R80 => 3,
            RampTime6x::R200 => 4,
            RampTime6x::R800 => 5,
            RampTime6x::R1700 => 6,
            RampTime6x::R3400 => 7,
        }
    }
}

/// SX128x power-amplifier ramp time. Variant names give the time in µs.
#[derive(Clone, Copy, PartialEq, Eq, Structural, Debug)]
pub enum RampTime8x {
    R02,
    R04,
    R06,
    R08,
    R10,
    R12,
    R16,
    R20,
}

impl RampTime8x {
    pub open spec fn spec_val(self) -> u8 {
        match self {
            RampTime8x::R02 => 0x00,
            RampTime8x::R04 => 0x20,
            RampTime8x::R06 => 0x40,
            RampTime8x::R08 => 0x60,
            RampTime8x::R10 => 0x80,
            RampTime8x::R12 => 0xa0,
            RampTime8x::R16 => 0xc0,
            RampTime8x::R20 => 0xe0,
        }
    }

    pub fn val(&self) -> (r: u8)
        ensures
            r == self.spec_val(),
    {
        match self {
            RampTime8x::R02 => 0x00,
            RampTime8x::R04 => 0x20,
            RampTime8x::R06 => 0x40,
            RampTime8x::R08 => 0x60,
            RampTime8x::R10 => 0x80,
            RampTime8x::R12 => 0xa0,
            RampTime8x::R16 => 0xc0,
            RampTime8x::R20 => 0xe0,
        }
    }
}

/// Interrupt sources. The value is the bit position inside the 16-bit IRQ
/// mask words; the two families assign a few of them differently.
#[derive(Clone, Copy, PartialEq, Eq, Structural, Debug)]
pub enum Irq {
    TxDone,
    RxDone,
    PremableDetected,
    SyncWordValid,
    HeaderValid,
    HeaderErr,
    CrcErr,
    CadDone,
    CadDetected,
    Timeout,
    LrFhssHop,
    /// SX128x only.
    SyncWordError,
}

impl Irq {
    /// Bit position on the SX126x.
    pub open spec fn spec_val_6x(self) -> u16 {
        match self {
            Irq::TxDone => 0,
            Irq::RxDone => 1,
            Irq::PremableDetected => 2,
            Irq::SyncWordValid => 3,
            Irq::HeaderValid => 4,
            Irq::HeaderErr => 5,
            Irq::CrcErr => 6,
            Irq::CadDone => 7,
            Irq::CadDetected => 8,
            Irq::Timeout => 9,
            Irq::LrFhssHop => 14,
            Irq::SyncWordError => 15,
        }
    }

    /// Bit position on the SX128x, where it differs from the SX126x.
    pub open spec fn spec_val_8x(self) -> u16 {
        match self {
            Irq::SyncWordValid => 2,
            Irq::SyncWordError => 3,
            Irq::CadDone => 12,
            Irq::CadDetected => 13,
            Irq::Timeout => 14,
            Irq::PremableDetected => 15,
            _ => self.spec_val_6x(),
        }
    }

    pub fn val_6x(&self) -> (r: u16)
        ensures
            r == self.spec_val_6x(),
            r < 16,
    {
        match self {
            Irq::TxDone => 0,
            Irq::RxDone => 1,
            Irq::PremableDetected => 2,
            Irq::SyncWordValid => 3,
            Irq::HeaderValid => 4,
            Irq::HeaderErr => 5,
            Irq::CrcErr => 6,
            Irq::CadDone => 7,
            Irq::CadDetected => 8,
            Irq::Timeout => 9,
            Irq::LrFhssHop => 14,
            Irq::SyncWordError => 15,
        }
    }

    pub fn val_8x(&self) -> (r: u16)
        ensures
            r == self.spec_val_8x(),
            r < 16,
    {
        match self {
            Irq::SyncWordValid => 2,
            Irq::SyncWordError => 3,
            Irq::CadDone => 12,
            Irq::CadDetected => 13,
            Irq::Timeout => 14,
            Irq::PremableDetected => 15,
            _ => self.val_6x(),
        }
    }
}

/// SX126x transmit power, hard-coded for the high-power amplifier.
/// Variant names give the power in dBm.
#[derive(Clone, Copy, PartialEq, Eq, Structural, Debug)]
pub enum OutputPower6x {
    /// 25 mW
    Db14,
    /// 50 mW
    Db17,
    /// 100 mW
    Db20,
    /// 158 mW
    Db22,
}

impl OutputPower6x {
    /// Raw value written with the set-TX-params command.
    pub open spec fn spec_val(self) -> u8 {
        match self {
            OutputPower6x::Db14 => 0x0e,
            OutputPower6x::Db17 => 0x11,
            OutputPower6x::Db20 => 0x14,
            OutputPower6x::Db22 => 0x16,
        }
    }

    pub fn val(&self) -> (r: u8)
        ensures
            r == self.spec_val(),
    {
        match self {
            OutputPower6x::Db14 => 0x0e,
            OutputPower6x::Db17 => 0x11,
            OutputPower6x::Db20 => 0x14,
            OutputPower6x::Db22 => 0x16,
        }
    }

    pub open spec fn spec_dutycycle_hpmax(self) -> (u8, u8) {
        match self {
            OutputPower6x::Db14 => (0x02, 0x02),
            OutputPower6x::Db17 => (0x02, 0x03),
            OutputPower6x::Db20 => (0x03, 0x05),
            OutputPower6x::Db22 => (0x04, 0x07),
        }
    }

    /// Power-amplifier duty cycle and HP maximum for the set-PA-config
    /// command. HP max stays at or below 7; larger values age the device.
    pub fn dutycycle_hpmax(&self) -> (r: (u8, u8))
        ensures
            r == self.spec_dutycycle_hpmax(),
    {
        match self {
            OutputPower6x::Db14 => (0x02, 0x02),
            OutputPower6x::Db17 => (0x02, 0x03),
            OutputPower6x::Db20 => (0x03, 0x05),
            OutputPower6x::Db22 => (0x04, 0x07),
        }
    }
}

impl Default for OutputPower6x {
    /// Full power.
    fn default() -> (r: Self)
        ensures
            r == OutputPower6x::Db22,
    {
        OutputPower6x::Db22
    }
}

/// SX126x only: the mode the radio falls back to after a completed transmit
/// or receive.
#[derive(Clone, Copy, PartialEq, Eq, Structural, Debug)]
pub enum FallbackMode {
    Fs,
    StdbyXosc,
    StdbyRc,
}

impl FallbackMode {
    pub open spec fn spec_val(self) -> u8 {
        match self {
            FallbackMode::Fs => 0x40,
            FallbackMode::StdbyXosc => 0x30,
            FallbackMode::StdbyRc => 0x20,
        }
    }

    pub fn val(&self) -> (r: u8)
        ensures
            r == self.spec_val(),
    {
        match self {
            FallbackMode::Fs => 0x40,
            FallbackMode::StdbyXosc => 0x30,
            FallbackMode::StdbyRc => 0x20,
        }
    }
}

/// Receive-mode flavours described by the SX126x datasheet.
#[derive(Clone, Copy, PartialEq, Eq, Structural, Debug)]
pub enum RxMode {
    Continuous,
    Single,
    SingleWithTimeout,
    Listen,
}

/// Start-up state retained while sleeping.
#[derive(Clone, Copy, PartialEq, Eq, Structural, Debug)]
pub enum SleepConfig {
    ColdStart,
    WarmStart,
}

impl SleepConfig {
    pub open spec fn spec_val(self) -> u8 {
        match self {
            SleepConfig::ColdStart => 0,
            SleepConfig::WarmStart => 1,
        }
    }

    pub fn val(&self) -> (r: u8)
        ensures
            r == self.spec_val(),
    {
        match self {
            SleepConfig::ColdStart => 0,
            SleepConfig::WarmStart => 1,
        }
    }
}

/// Commanded operating mode. Transmit and receive carry their timeout in
/// whole milliseconds; the device counts in units of 15.625 µs.
#[derive(Clone, Copy, PartialEq, Eq, Structural, Debug)]
pub enum OperatingMode {
    Sleep(SleepConfig),
    StbyRc,
    StbyOsc,
    Fs,
    /// Timeout in ms; 0 disables the device-side timeout.
    Tx(u32),
    /// Timeout in ms; 0 disables the device-side timeout.
    Rx(u32),
}

/// Operating mode as read back from a status byte. Sleep cannot be read.
#[derive(Clone, Copy, PartialEq, Eq, Structural, Debug)]
pub enum OperatingModeRead {
    StbyRc,
    StbyOsc,
    Fs,
    Tx,
    Rx,
}

/// Result of the get-RX-buffer-status command: where the last received
/// payload landed inside the device's internal buffer.
#[derive(Clone, Copy, PartialEq, Eq, Structural, Debug)]
pub struct RxBufferStatus {
    pub status: u8,
    pub payload_len: u8,
    pub rx_start_buf_pointer: u8,
}

/// Raw link-quality telemetry for the last received LoRa packet. Unit
/// conversion is left to the caller by design.
#[derive(Clone, Copy, PartialEq, Eq, Structural, Debug)]
pub struct RxPacketStatusLora {
    pub status: u8,
    /// Actual signal power is −rssi/2 dBm, averaged over the packet.
    pub rssi: u8,
    /// SNR estimate in two's-complement format.
    pub snr: u8,
    /// RSSI of the LoRa signal after despreading; −signal_rssi/2 dBm.
    pub signal_rssi: u8,
}

/// SX126x only: receive counters.
#[derive(Clone, Copy, PartialEq, Eq, Structural, Debug)]
pub struct RxStatistics6x {
    pub status: u8,
    pub num_received: u16,
    pub num_crc_error: u16,
    pub num_length_error: u16,
}

/// Command status read back from every status query.
#[derive(Clone, Copy, PartialEq, Eq, Structural, Debug)]
pub enum CommandStatus {
    /// SX128x only: the transceiver processed the command.
    CommandProcessSuccess8x,
    /// A packet was received and data can be retrieved.
    DataAvailable,
    /// A host transaction took too long and tripped the internal watchdog.
    CommandTimeout,
    /// Invalid opcode or wrong number of parameters.
    CommandProcessingError,
    /// The command was understood but could not be executed.
    FailureToExecuteCommand,
    /// Transmission of the current packet has finished.
    CommandTxDone,
}

/// All user-supplied and runtime-mutated settings for an SX126x.
#[derive(Clone, PartialEq, Eq, Structural, Debug)]
pub struct RadioConfig6x {
    pub packet_type: PacketType,
    /// RF centre frequency in Hz.
    pub rf_freq: u32,
    pub use_dio2_as_rfswitch: bool,
    pub dc_dc_enabled: bool,
    pub modulation_params: ModulationParamsLora6x,
    pub packet_params: PacketParamsLora,
    /// Transmit timeout in ms.
    pub tx_timeout: u32,
    /// Receive timeout in ms.
    pub rx_timeout: u32,
    pub fallback_mode: FallbackMode,
    pub ramp_time: RampTime6x,
    pub lora_network: LoraNetwork,
    pub output_power: OutputPower6x,
}

impl Default for RadioConfig6x {
    fn default() -> (r: Self)
        ensures
            r == RadioConfig6x::spec_default(),
    {
        RadioConfig6x {
            packet_type: PacketType::Lora,
            rf_freq: 915_000_000,
            use_dio2_as_rfswitch: true,
            dc_dc_enabled: true,
            modulation_params: ModulationParamsLora6x::default(),
            packet_params: PacketParamsLora::default(),
            tx_timeout: 0,
            rx_timeout: 0,
            fallback_mode: FallbackMode::StdbyRc,
            ramp_time: RampTime6x::R200,
            lora_network: LoraNetwork::Private,
            output_power: OutputPower6x::Db22,
        }
    }
}

impl RadioConfig6x {
    pub open spec fn spec_default() -> RadioConfig6x {
        RadioConfig6x {
            packet_type: PacketType::Lora,
            rf_freq: 915_000_000,
            use_dio2_as_rfswitch: true,
            dc_dc_enabled: true,
            modulation_params: ModulationParamsLora6x::spec_default(),
            packet_params: PacketParamsLora::spec_default(),
            tx_timeout: 0,
            rx_timeout: 0,
            fallback_mode: FallbackMode::StdbyRc,
            ramp_time: RampTime6x::R200,
            lora_network: LoraNetwork::Private,
            output_power: OutputPower6x::Db22,
        }
    }
}

/// All user-supplied and runtime-mutated settings for an SX128x.
#[derive(Clone, PartialEq, Eq, Structural, Debug)]
pub struct RadioConfig8x {
    pub packet_type: PacketType,
    /// RF centre frequency in Hz.
    pub rf_freq: u32,
    pub dc_dc_enabled: bool,
    pub modulation_params: ModulationParams8x,
    pub packet_params: PacketParams,
    /// Transmit timeout in ms.
    pub tx_timeout: u32,
    /// Receive timeout in ms.
    pub rx_timeout: u32,
    pub ramp_time: RampTime8x,
    /// In dBm, −18 through +13.
    pub output_power: i8,
}

impl Default for RadioConfig8x {
    fn default() -> (r: Self)
        ensures
            r == RadioConfig8x::spec_default(),
    {
        RadioConfig8x {
            packet_type: PacketType::Lora,
            rf_freq: 2_400_000_000,
            dc_dc_enabled: true,
            modulation_params: ModulationParams8x::default(),
            packet_params: PacketParams::default(),
            tx_timeout: 0,
            rx_timeout: 0,
            ramp_time: RampTime8x::R10,
            output_power: 13,
        }
    }
}

impl RadioConfig8x {
    pub open spec fn spec_default() -> RadioConfig8x {
        RadioConfig8x {
            packet_type: PacketType::Lora,
            rf_freq: 2_400_000_000,
            dc_dc_enabled: true,
            modulation_params: ModulationParams8x::spec_default(),
            packet_params: PacketParams::spec_default(),
            tx_timeout: 0,
            rx_timeout: 0,
            ramp_time: RampTime8x::R10,
            output_power: 13,
        }
    }
}

/// Tagged configuration for whichever chip family is active.
#[derive(Clone, PartialEq, Eq, Structural, Debug)]
pub enum RadioConfig {
    R6x(RadioConfig6x),
    R8x(RadioConfig8x),
}

/// Bound on the RF frequency under which the SX126x raw encoding is sure
/// to fit its 32-bit field.
pub const FREQ_MAX_6X: u32 = 4_095_999_000;

/// Bound on the RF frequency under which the SX128x raw encoding is sure
/// to fit its 24-bit field.
pub const FREQ_MAX_8X: u32 = 3_327_999_000;

/// A configuration the driver can encode: the frequency fits the family's
/// raw field, the packet type is one the family supports, and the
/// modulation and framing parameters belong to that packet type. The SX128x
/// transmit power must also lie in its documented −18 through +13 range.
pub open spec fn config_valid(config: RadioConfig) -> bool {
    match config {
        RadioConfig::R6x(c) => {
            &&& c.packet_type == PacketType::Lora
            &&& c.rf_freq <= FREQ_MAX_6X
        },
        RadioConfig::R8x(c) => {
            &&& c.rf_freq <= FREQ_MAX_8X
            &&& -18 <= c.output_power <= 13
            &&& match c.packet_type {
                PacketType::Lora => (c.modulation_params is Lora) && (c.packet_params is Lora),
                PacketType::LrFhssFlrc => (c.modulation_params is Flrc) && (c.packet_params
                    is Flrc),
                _ => false,
            }
        },
    }
}

/// The radio controller: owns the transaction interface and the active
/// configuration. The family tag of the two always agrees.
#[derive(Debug)]
pub struct Radio {
    pub interface: Interface,
    pub config: RadioConfig,
}

impl Radio {
    /// Which chip family the configuration selects.
    pub open spec fn is_r8x(self) -> bool {
        self.config is R8x
    }

    /// The bus operations issued so far, in order.
    pub open spec fn ops(self) -> Seq<(spi_interface::BusOpKind, Seq<u8>)> {
        self.interface.ops()
    }

    /// The scripted replies not yet consumed, in order.
    pub open spec fn pending(self) -> Seq<Seq<u8>> {
        self.interface.pending()
    }

    /// Well-formedness: the interface buffers have their fixed size, the
    /// interface's family tag agrees with the configuration's, and the
    /// configuration is one the driver can encode.
    pub open spec fn wf(self) -> bool {
        &&& self.interface.wf()
        &&& self.interface.r8x == self.is_r8x()
        &&& config_valid(self.config)
    }

    /// The configured transmit timeout in ms.
    pub open spec fn tx_timeout_of(config: RadioConfig) -> u32 {
        match config {
            RadioConfig::R6x(c) => c.tx_timeout,
            RadioConfig::R8x(c) => c.tx_timeout,
        }
    }

    /// The configured receive timeout in ms.
    pub open spec fn rx_timeout_of(config: RadioConfig) -> u32 {
        match config {
            RadioConfig::R6x(c) => c.rx_timeout,
            RadioConfig::R8x(c) => c.rx_timeout,
        }
    }

    /// The configured packet type.
    pub open spec fn packet_type_of(config: RadioConfig) -> PacketType {
        match config {
            RadioConfig::R6x(c) => c.packet_type,
            RadioConfig::R8x(c) => c.packet_type,
        }
    }
}

/// A 16-bit IRQ mask accumulated over a list of interrupt sources, starting
/// from `base`: one bit per source, at the family's bit position.
pub open spec fn spec_irq_bits(base: u16, irqs: Seq<Irq>, r8x: bool) -> u16
    decreases irqs.len(),
{
    if irqs.len() == 0 {
        base
    } else {
        spec_irq_bits(base, irqs.drop_last(), r8x) | (1u16 << (if r8x {
            irqs.last().spec_val_8x()
        } else {
            irqs.last().spec_val_6x()
        }))
    }
}

/// The set-DIO-IRQ-params frame: the enable mask covers both routed lists,
/// DIO1 and DIO3 carry their own lists, and DIO2 stays free for the RF
/// switch.
pub open spec fn set_irq_frame(dio1: Seq<Irq>, dio3: Seq<Irq>, r8x: bool) -> Seq<u8> {
    let irq_word = spec_irq_bits(spec_irq_bits(0, dio1, r8x), dio3, r8x);
    let dio1_word = spec_irq_bits(0, dio1, r8x);
    let dio3_word = spec_irq_bits(0, dio3, r8x);
    seq![
        OpCode::SetDioIrqParams.spec_val(r8x),
        (irq_word / 256) as u8,
        (irq_word % 256) as u8,
        (dio1_word / 256) as u8,
        (dio1_word % 256) as u8,
        0,
        0,
        (dio3_word / 256) as u8,
        (dio3_word % 256) as u8,
    ]
}

/// The clear-IRQ-status frame for a list of interrupt sources.
pub open spec fn clear_irq_frame(irqs: Seq<Irq>, r8x: bool) -> Seq<u8> {
    let irq_word = spec_irq_bits(0, irqs, r8x);
    seq![
        OpCode::ClearIrqStatus.spec_val(r8x),
        (irq_word / 256) as u8,
        (irq_word % 256) as u8,
    ]
}

/// The set-buffer-base-address frame; both regions start at zero here.
pub open spec fn buffer_base_frame(r8x: bool) -> Seq<u8> {
    seq![OpCode::SetBufferBaseAddress.spec_val(r8x), 0, 0]
}

/// The write-buffer frame: opcode, offset zero, then the payload bytes.
pub open spec fn write_buffer_frame(payload: Seq<u8>, r8x: bool) -> Seq<u8> {
    seq![OpCode::WriteBuffer.spec_val(r8x), 0] + payload
}

/// The sync-word operations: the SX126x splits the 16-bit word over two
/// registers; the SX128x is left at its reset value by design.
pub open spec fn sync_word_ops(network: LoraNetwork, r8x: bool) -> Seq<(BusOpKind, Seq<u8>)> {
    if r8x {
        Seq::empty()
    } else {
        seq![
            (
                BusOpKind::Command,
                reg_write_frame(
                    Register::Reg6x(Register6x::LoraSyncWordMsb),
                    (network.spec_val() / 256) as u8,
                    false,
                ),
            ),
            (
                BusOpKind::Command,
                reg_write_frame(
                    Register::Reg6x(Register6x::LoraSyncWordLsb),
                    (network.spec_val() % 256) as u8,
                    false,
                ),
            ),
        ]
    }
}

impl Radio {
    /// Build both 16-bit mask words and issue the set-DIO-IRQ-params
    /// command: the sources on `dio1` and `dio3` are all enabled, and each
    /// DIO line gets its own list. DIO2 is left free to drive the RF
    /// switch.
    fn set_irq(&mut self, dio1: &[Irq], dio3: &[Irq]) -> (r: Result<(), RadioError>)
        requires
            old(self).wf(),
        ensures
            final(self).wf(),
            final(self).config == old(self).config,
            Interface::same_env(old(self).interface, final(self).interface),
            Interface::same_bufs(old(self).interface, final(self).interface),
            old(self).interface.busy ==> r == Err::<(), RadioError>(RadioError::BusyTimeout)
                && *final(self) == *old(self),
            !old(self).interface.busy ==> r is Ok && final(self).ops() == old(self).ops().push(
                (BusOpKind::Command, set_irq_frame(dio1@, dio3@, old(self).is_r8x())),
            ) && final(self).pending() == old(self).pending(),
    {
        let r8x = self.interface.r8x;
        let mut irq_word: u16 = 0;
        let mut dio1_word: u16 = 0;
        let mut dio3_word: u16 = 0;
        let mut i: usize = 0;
        while i < dio1.len()
            invariant
                i <= dio1@.len(),
                irq_word == spec_irq_bits(0, dio1@.take(i as int), r8x),
                dio1_word == spec_irq_bits(0, dio1@.take(i as int), r8x),
            decreases dio1@.len() - i,
        {
            let irq = dio1[i];
            let v = if r8x {
                irq.val_8x()
            } else {
                irq.val_6x()
            };
            irq_word = irq_word | (1u16 << v);
            dio1_word = dio1_word | (1u16 << v);
            proof {
                assert(dio1@.take(i + 1).drop_last() =~= dio1@.take(i as int));
                assert(dio1@.take(i + 1).last() == dio1@[i as int]);
            }
            i = i + 1;
        }
        proof {
            assert(dio1@.take(dio1@.len() as int) =~= dio1@);
        }
        let mut j: usize = 0;
        while j < dio3.len()
            invariant
                j <= dio3@.len(),
                irq_word == spec_irq_bits(
                    spec_irq_bits(0, dio1@, r8x),
                    dio3@.take(j as int),
                    r8x,
                ),
                dio3_word == spec_irq_bits(0, dio3@.take(j as int), r8x),
            decreases dio3@.len() - j,
        {
            let irq = dio3[j];
            let v = if r8x {
                irq.val_8x()
            } else {
                irq.val_6x()
            };
            irq_word = irq_word | (1u16 << v);
            dio3_word = dio3_word | (1u16 << v);
            proof {
                assert(dio3@.take(j + 1).drop_last() =~= dio3@.take(j as int));
                assert(dio3@.take(j + 1).last() == dio3@[j as int]);
            }
            j = j + 1;
        }
        proof {
            assert(dio3@.take(dio3@.len() as int) =~= dio3@);
        }
        let mut frame: Vec<u8> = Vec::new();
        frame.push(OpCode::SetDioIrqParams.val(r8x));
        frame.push((irq_word / 256) as u8);
        frame.push((irq_word % 256) as u8);
        frame.push((dio1_word / 256) as u8);
        frame.push((dio1_word % 256) as u8);
        frame.push(0);
        frame.push(0);
        frame.push((dio3_word / 256) as u8);
        frame.push((dio3_word % 256) as u8);
        proof {
            assert(frame@ =~= set_irq_frame(dio1@, dio3@, old(self).is_r8x()));
        }
        self.interface.write(frame)
    }

    /// Clear the IRQ flags of the given interrupt sources.
    pub fn clear_irq(&mut self, irqs: &[Irq]) -> (r: Result<(), RadioError>)
        requires
            old(self).wf(),
        ensures
            final(self).wf(),
            final(self).config == old(self).config,
            Interface::same_env(old(self).interface, final(self).interface),
            Interface::same_bufs(old(self).interface, final(self).interface),
            old(self).interface.busy ==> r == Err::<(), RadioError>(RadioError::BusyTimeout)
                && *final(self) == *old(self),
            !old(self).interface.busy ==> r is Ok && final(self).ops() == old(self).ops().push(
                (BusOpKind::Command, clear_irq_frame(irqs@, old(self).is_r8x())),
            ) && final(self).pending() == old(self).pending(),
    {
        let r8x = self.interface.r8x;
        let mut irq_word: u16 = 0;
        let mut i: usize = 0;
        while i < irqs.len()
            invariant
                i <= irqs@.len(),
                irq_word == spec_irq_bits(0, irqs@.take(i as int), r8x),
            decreases irqs@.len() - i,
        {
            let irq = irqs[i];
            let v = if r8x {
                irq.val_8x()
            } else {
                irq.val_6x()
            };
            irq_word = irq_word | (1u16 << v);
            proof {
                assert(irqs@.take(i + 1).drop_last() =~= irqs@.take(i as int));
                assert(irqs@.take(i + 1).last() == irqs@[i as int]);
            }
            i = i + 1;
        }
        proof {
            assert(irqs@.take(irqs@.len() as int) =~= irqs@);
        }
        let mut frame: Vec<u8> = Vec::new();
        frame.push(OpCode::ClearIrqStatus.val(r8x));
        frame.push((irq_word / 256) as u8);
        frame.push((irq_word % 256) as u8);
        proof {
            assert(frame@ =~= clear_irq_frame(irqs@, old(self).is_r8x()));
        }
        self.interface.write(frame)
    }

    /// Write the LoRa sync word selecting the network. The 16-bit value is
    /// split over two SX126x registers; the SX128x keeps its reset value by
    /// design.
    fn set_sync_word(&mut self, network: LoraNetwork) -> (r: Result<(), RadioError>)
        requires
            old(self).wf(),
        ensures
            final(self).wf(),
            final(self).config == old(self).config,
            Interface::same_env(old(self).interface, final(self).interface),
            Interface::same_bufs(old(self).interface, final(self).interface),
            old(self).interface.busy && !old(self).is_r8x() ==> r == Err::<(), RadioError>(
                RadioError::BusyTimeout,
            ) && *final(self) == *old(self),
            !old(self).interface.busy || old(self).is_r8x() ==> r is Ok && final(self).ops()
                == old(self).ops() + sync_word_ops(network, old(self).is_r8x())
                && final(self).pending() == old(self).pending(),
    {
        if self.interface.r8x {
            proof {
                assert(self.ops() =~= old(self).ops() + sync_word_ops(network, true));
            }
            return Ok(());
        }
        let word = network.val();
        let hi = (word / 256) as u8;
        let lo = (word % 256) as u8;
        match self.interface.write_reg_word(Register::Reg6x(Register6x::LoraSyncWordMsb), hi) {
            Err(e) => {
                return Err(e);
            },
            Ok(()) => {},
        }
        match self.interface.write_reg_word(Register::Reg6x(Register6x::LoraSyncWordLsb), lo) {
            Err(e) => {
                return Err(e);
            },
            Ok(()) => {},
        }
        proof {
            assert(self.ops() =~= old(self).ops() + sync_word_ops(network, false));
        }
        Ok(())
    }

    /// Read back the low byte of the IRQ status word.
    pub fn get_irq_status(&mut self) -> (r: Result<u8, RadioError>)
        requires
            old(self).wf(),
        ensures
            final(self).wf(),
            final(self).config == old(self).config,
            Interface::same_env(old(self).interface, final(self).interface),
            Interface::same_bufs(old(self).interface, final(self).interface),
            old(self).interface.busy ==> r == Err::<u8, RadioError>(RadioError::BusyTimeout)
                && *final(self) == *old(self),
            !old(self).interface.busy && Interface::reply_fits(old(self).pending(), 5) ==> {
                &&& r == Ok::<u8, RadioError>(old(self).pending()[0][2])
                &&& final(self).ops() == old(self).ops().push(
                    (
                        BusOpKind::Exchange,
                        op_read_frame(OpCode::GetIrqStatus, old(self).is_r8x()),
                    ),
                )
                &&& final(self).pending() == old(self).pending().drop_first()
            },
            !old(self).interface.busy && !Interface::reply_fits(old(self).pending(), 5) ==> r
                == Err::<u8, RadioError>(RadioError::Spi) && *final(self) == *old(self),
    {
        self.interface.read_op_word(OpCode::GetIrqStatus)
    }

    /// Raise the SX128x receive gain to its highest setting by rewriting
    /// the gain register with its sensitivity bits set.
    pub fn set_high_rx_gain(&mut self) -> (r: Result<(), RadioError>)
        requires
            old(self).wf(),
            old(self).is_r8x(),
        ensures
            final(self).wf(),
            final(self).config == old(self).config,
            Interface::same_env(old(self).interface, final(self).interface),
            Interface::same_bufs(old(self).interface, final(self).interface),
            old(self).interface.busy ==> r == Err::<(), RadioError>(RadioError::BusyTimeout)
                && *final(self) == *old(self),
            !old(self).interface.busy ==> r is Ok && final(self).ops() == old(self).ops().push(
                (BusOpKind::Command, reg_write_frame(Register::Reg8x(Register8x::RxGain), 0xe5, true)),
            ) && final(self).pending() == old(self).pending(),
    {
        // Rewrite the register's default value with the two sensitivity
        // bits set.
        let word = 0x25 | (3u8 << 6);
        proof {
            assert(0x25u8 | (3u8 << 6) == 0xe5) by (bit_vector);
        }
        self.interface.write_reg_word(Register::Reg8x(Register8x::RxGain), word)
    }

    /// Route the transmit-done and timeout IRQs to DIO1 and enter transmit
    /// mode with the configured timeout. Run once the payload write to the
    /// device buffer is complete; the transmission itself finishes
    /// asynchronously.
    pub fn start_transmission(&mut self) -> (r: Result<(), RadioError>)
        requires
            old(self).wf(),
        ensures
            final(self).wf(),
            final(self).config == old(self).config,
            Interface::same_env(old(self).interface, final(self).interface),
            Interface::same_bufs(old(self).interface, final(self).interface),
            old(self).interface.busy ==> r == Err::<(), RadioError>(RadioError::BusyTimeout)
                && *final(self) == *old(self),
            !old(self).interface.busy ==> r is Ok && final(self).ops() == old(self).ops() + seq![
                (
                    BusOpKind::Command,
                    set_irq_frame(
                        seq![Irq::TxDone, Irq::Timeout],
                        Seq::<Irq>::empty(),
                        old(self).is_r8x(),
                    ),
                ),
                (
                    BusOpKind::Command,
                    op_mode_frame_of_tx(old(self).config, old(self).is_r8x()),
                ),
            ] && final(self).pending() == old(self).pending(),
    {
        let dio1 = [Irq::TxDone, Irq::Timeout];
        match self.set_irq(&dio1, &[]) {
            Err(e) => {
                return Err(e);
            },
            Ok(()) => {},
        }
        proof {
            assert(dio1@ =~= seq![Irq::TxDone, Irq::Timeout]);
        }
        let timeout = match &self.config {
            RadioConfig::R6x(c) => c.tx_timeout,
            RadioConfig::R8x(c) => c.tx_timeout,
        };
        match self.set_op_mode(OperatingMode::Tx(timeout)) {
            Err(e) => {
                return Err(e);
            },
            Ok(()) => {},
        }
        proof {
            assert(self.ops() =~= old(self).ops() + seq![
                (
                    BusOpKind::Command,
                    set_irq_frame(
                        seq![Irq::TxDone, Irq::Timeout],
                        Seq::<Irq>::empty(),
                        old(self).is_r8x(),
                    ),
                ),
                (
                    BusOpKind::Command,
                    op_mode_frame_of_tx(old(self).config, old(self).is_r8x()),
                ),
            ]);
        }
        Ok(())
    }
}

/// The transmit-mode command frame for a configuration's transmit timeout.
pub open spec fn op_mode_frame_of_tx(config: RadioConfig, r8x: bool) -> Seq<u8> {
    configure::op_mode_frame(OperatingMode::Tx(Radio::tx_timeout_of(config)), r8x)
}

/// A boolean as the single command byte the device expects for it.
pub open spec fn bool_byte(b: bool) -> u8 {
    if b {
        1
    } else {
        0
    }
}

/// Every bus operation of a successful SX126x initialisation, in the
/// mandatory order: reset, standby, packet type, frequency, modulation,
/// framing, the one-time erratum workarounds, regulator, power amplifier,
/// fallback mode, RF-switch control, sync word, transmit power, and the
/// buffer base addresses. `clamp` is the value the TX clamp register read
/// back during its workaround.
pub open spec fn init_ops_6x(config: RadioConfig, clamp: u8) -> Seq<(BusOpKind, Seq<u8>)> {
    let c = config->R6x_0;
    seq![
        (BusOpKind::Reset, Seq::<u8>::empty()),
        (BusOpKind::Command, configure::op_mode_frame(OperatingMode::StbyRc, false)),
        (
            BusOpKind::Command,
            op_word_frame(OpCode::SetPacketType, c.packet_type.spec_val(), false),
        ),
        (BusOpKind::Command, configure::rf_freq_frame(config)),
    ] + configure::mod_params_ops(config) + seq![
        (BusOpKind::Command, configure::packet_params_frame(config)),
    ] + eratta::rxgain_retention_ops() + eratta::tx_clamp_ops(clamp) + seq![
        (
            BusOpKind::Command,
            op_word_frame(OpCode::SetRegulatorMode, bool_byte(c.dc_dc_enabled), false),
        ),
        (BusOpKind::Command, configure::pa_config_frame(config)),
        (
            BusOpKind::Command,
            op_word_frame(OpCode::SetTxFallbackMode, c.fallback_mode.spec_val(), false),
        ),
        (
            BusOpKind::Command,
            op_word_frame(OpCode::SetDIO2AsRfSwitchCtrl, bool_byte(c.use_dio2_as_rfswitch), false),
        ),
    ] + sync_word_ops(c.lora_network, false) + seq![
        (BusOpKind::Command, configure::tx_params_frame(config)),
        (BusOpKind::Command, buffer_base_frame(false)),
    ]
}

/// Every bus operation of a successful SX128x initialisation. The
/// regulator, power-amplifier, fallback, RF-switch and sync-word steps of
/// the SX126x are left out on this family by design.
pub open spec fn init_ops_8x(config: RadioConfig) -> Seq<(BusOpKind, Seq<u8>)> {
    let c = config->R8x_0;
    seq![
        (BusOpKind::Reset, Seq::<u8>::empty()),
        (BusOpKind::Command, configure::op_mode_frame(OperatingMode::StbyRc, true)),
        (
            BusOpKind::Command,
            op_word_frame(OpCode::SetPacketType, c.packet_type.spec_val(), true),
        ),
        (BusOpKind::Command, configure::rf_freq_frame(config)),
    ] + configure::mod_params_ops(config) + seq![
        (BusOpKind::Command, configure::packet_params_frame(config)),
        (BusOpKind::Command, configure::tx_params_frame(config)),
        (BusOpKind::Command, buffer_base_frame(true)),
    ]
}

/// The largest payload the active family's device buffer accepts.
pub open spec fn spec_payload_cap(r8x: bool) -> int {
    if r8x {
        256
    } else {
        255
    }
}

/// The largest RF frequency the active family's raw field can encode.
pub open spec fn spec_freq_max(r8x: bool) -> u32 {
    if r8x {
        FREQ_MAX_8X
    } else {
        FREQ_MAX_6X
    }
}

/// A configuration with the frequency and payload length a send or receive
/// call supplies; everything else is kept.
pub open spec fn updated_config(config: RadioConfig, rf_freq: u32, len: u8) -> RadioConfig {
    match config {
        RadioConfig::R6x(c) => RadioConfig::R6x(
            RadioConfig6x {
                rf_freq,
                packet_params: PacketParamsLora { payload_len: len, ..c.packet_params },
                ..c
            },
        ),
        RadioConfig::R8x(c) => RadioConfig::R8x(
            RadioConfig8x {
                rf_freq,
                packet_params: match c.packet_params {
                    PacketParams::Lora(p) => PacketParams::Lora(
                        PacketParamsLora { payload_len: len, ..p },
                    ),
                    PacketParams::Flrc(p) => PacketParams::Flrc(
                        crate::params::PacketParamsFlrc { payload_len: len, ..p },
                    ),
                },
                ..c
            },
        ),
    }
}

/// Every bus operation of a successful transmission, in order: standby,
/// the per-transmission modulation-quality workaround on the SX126x,
/// frequency, buffer base addresses, the payload write, packet framing
/// with the new payload length, IRQ routing for transmit-done and timeout,
/// and the transmit-mode command. `config` is the configuration as updated
/// by the call; `txmod` is the value the TX modulation register read back.
pub open spec fn send_ops(config: RadioConfig, payload: Seq<u8>, txmod: u8) -> Seq<
    (BusOpKind, Seq<u8>),
> {
    match config {
        RadioConfig::R6x(c) => seq![
            (BusOpKind::Command, configure::op_mode_frame(OperatingMode::StbyRc, false)),
        ] + eratta::mod_quality_ops(c, txmod) + seq![
            (BusOpKind::Command, configure::rf_freq_frame(config)),
            (BusOpKind::Command, buffer_base_frame(false)),
            (BusOpKind::Command, write_buffer_frame(payload, false)),
            (BusOpKind::Command, configure::packet_params_frame(config)),
            (
                BusOpKind::Command,
                set_irq_frame(seq![Irq::TxDone, Irq::Timeout], Seq::<Irq>::empty(), false),
            ),
            (BusOpKind::Command, configure::op_mode_frame(OperatingMode::Tx(c.tx_timeout), false)),
        ],
        RadioConfig::R8x(c) => seq![
            (BusOpKind::Command, configure::op_mode_frame(OperatingMode::StbyRc, true)),
            (BusOpKind::Command, configure::rf_freq_frame(config)),
            (BusOpKind::Command, buffer_base_frame(true)),
            (BusOpKind::Command, write_buffer_frame(payload, true)),
            (BusOpKind::Command, configure::packet_params_frame(config)),
            (
                BusOpKind::Command,
                set_irq_frame(seq![Irq::TxDone, Irq::Timeout], Seq::<Irq>::empty(), true),
            ),
            (BusOpKind::Command, configure::op_mode_frame(OperatingMode::Tx(c.tx_timeout), true)),
        ],
    }
}

/// Every bus operation of a successful receive start, in order: standby,
/// frequency, buffer base addresses, packet framing with the caller's
/// maximum payload length, IRQ routing for receive-done and timeout, and
/// the receive-mode command. `config` is the configuration as updated by
/// the call.
pub open spec fn receive_ops(config: RadioConfig) -> Seq<(BusOpKind, Seq<u8>)> {
    let r8x = config is R8x;
    seq![
        (BusOpKind::Command, configure::op_mode_frame(OperatingMode::StbyRc, r8x)),
        (BusOpKind::Command, configure::rf_freq_frame(config)),
        (BusOpKind::Command, buffer_base_frame(r8x)),
        (BusOpKind::Command, configure::packet_params_frame(config)),
        (
            BusOpKind::Command,
            set_irq_frame(Seq::<Irq>::empty(), seq![Irq::RxDone, Irq::Timeout], r8x),
        ),
        (
            BusOpKind::Command,
            configure::op_mode_frame(OperatingMode::Rx(Radio::rx_timeout_of(config)), r8x),
        ),
    ]
}

/// Frame of the get-IRQ-status exchange.
pub open spec fn irq_status_frame(r8x: bool) -> Seq<u8> {
    seq![OpCode::GetIrqStatus.spec_val(r8x), 0, 0, 0]
}

/// Frame of the read-buffer exchange: opcode, start offset, one response
/// slot, then one slot per payload byte.
pub open spec fn read_buffer_frame(start: u8, len: u8, r8x: bool) -> Seq<u8> {
    seq![OpCode::ReadBuffer.spec_val(r8x), start, 0] + Seq::new(len as nat, |i: int| 0u8)
}

/// Whether an IRQ-status reply reports a header or payload CRC error, the
/// two bits the receive path must check before trusting a packet.
pub open spec fn spec_crc_error(reply: Seq<u8>) -> bool {
    crate::shared::spec_be16(reply[2], reply[3]) & 0x60 != 0
}

/// The buffer status a get-RX-buffer-status reply decodes to.
pub open spec fn spec_rx_buffer_status(reply: Seq<u8>) -> RxBufferStatus {
    RxBufferStatus { status: reply[1], payload_len: reply[2], rx_start_buf_pointer: reply[3] }
}

/// The mode/status pairs the receive cleanup accepts: standby with data
/// available, or standby after a device-side timeout.
pub open spec fn rx_status_ok(m: OperatingModeRead, s: CommandStatus) -> bool {
    m == OperatingModeRead::StbyRc && (s == CommandStatus::DataAvailable || s
        == CommandStatus::CommandTimeout)
}

impl Radio {
    /// Update the stored frequency and payload length from a send or
    /// receive call.
    fn update_config(&mut self, rf_freq: u32, len: u8)
        ensures
            final(self).config == updated_config(old(self).config, rf_freq, len),
            final(self).interface == old(self).interface,
    {
        match &mut self.config {
            RadioConfig::R6x(config) => {
                config.rf_freq = rf_freq;
                config.packet_params.payload_len = len;
            },
            RadioConfig::R8x(config) => {
                config.rf_freq = rf_freq;
                match &mut config.packet_params {
                    PacketParams::Lora(p) => {
                        p.payload_len = len;
                    },
                    PacketParams::Flrc(p) => {
                        p.payload_len = len;
                    },
                }
            },
        }
    }

    /// Write a payload into the device buffer and start transmitting it at
    /// the given frequency. A payload over the family's buffer capacity is
    /// rejected with its length before anything is written. The call
    /// returns once the transmit-mode command is issued; completion is
    /// observed later through `cleanup_tx`. The stored payload length
    /// keeps the low byte of the length, as the framing field is one byte
    /// wide.
    pub fn send_payload(&mut self, payload: &[u8], rf_freq: u32) -> (r: Result<(), RadioError>)
        requires
            old(self).wf(),
            rf_freq <= spec_freq_max(old(self).is_r8x()),
        ensures
            final(self).wf(),
            final(self).is_r8x() == old(self).is_r8x(),
            Interface::same_env(old(self).interface, final(self).interface),
            Interface::same_bufs(old(self).interface, final(self).interface),
            payload@.len() > spec_payload_cap(old(self).is_r8x()) ==> r == Err::<(), RadioError>(
                RadioError::PayloadSize(payload@.len() as usize),
            ) && *final(self) == *old(self),
            payload@.len() <= spec_payload_cap(old(self).is_r8x()) ==> final(self).config
                == updated_config(
                old(self).config,
                rf_freq,
                (payload@.len() % 256) as u8,
            ),
            payload@.len() <= spec_payload_cap(old(self).is_r8x()) && old(self).interface.busy
                ==> r == Err::<(), RadioError>(RadioError::BusyTimeout) && final(self).ops()
                == old(self).ops() && final(self).pending() == old(self).pending(),
            payload@.len() <= spec_payload_cap(old(self).is_r8x()) && !old(self).interface.busy
                && !old(self).is_r8x() && !Interface::reply_fits(old(self).pending(), 6) ==> r
                == Err::<(), RadioError>(RadioError::Spi) && final(self).ops() == old(self).ops().push(
                (BusOpKind::Command, configure::op_mode_frame(OperatingMode::StbyRc, false)),
            ) && final(self).pending() == old(self).pending(),
            ({
                let cfg = updated_config(old(self).config, rf_freq, (payload@.len() % 256) as u8);
                let txmod = if old(self).is_r8x() {
                    0u8
                } else {
                    old(self).pending()[0][4]
                };
                &&& payload@.len() <= spec_payload_cap(old(self).is_r8x())
                    && !old(self).interface.busy && (old(self).is_r8x()
                    || Interface::reply_fits(old(self).pending(), 6))
                    && configure::packet_params_rejected(cfg) ==> r == Err::<(), RadioError>(
                    RadioError::Config,
                ) && final(self).ops() == old(self).ops() + send_ops(cfg, payload@, txmod).take(6)
                    && final(self).pending() == old(self).pending().drop_first()
                &&& payload@.len() <= spec_payload_cap(old(self).is_r8x())
                    && !old(self).interface.busy && (old(self).is_r8x()
                    || Interface::reply_fits(old(self).pending(), 6))
                    && !configure::packet_params_rejected(cfg) ==> r is Ok && final(self).ops()
                    == old(self).ops() + send_ops(cfg, payload@, txmod) && final(self).pending()
                    == (if old(self).is_r8x() {
                    old(self).pending()
                } else {
                    old(self).pending().drop_first()
                })
            }),
    {
        let payload_len = payload.len();
        let r8x = self.interface.r8x;
        let cap: usize = if r8x {
            256
        } else {
            255
        };
        if payload_len > cap {
            return Err(RadioError::PayloadSize(payload_len));
        }
        let len_byte = (payload_len % 256) as u8;
        self.update_config(rf_freq, len_byte);
        let ghost cfg = self.config;

        match self.set_op_mode(OperatingMode::StbyRc) {
            Err(e) => {
                return Err(e);
            },
            Ok(()) => {},
        }
        if !r8x {
            // Work around the modulation-quality erratum before each
            // transmission.
            match self.mod_quality_workaround() {
                Err(e) => {
                    return Err(e);
                },
                Ok(()) => {},
            }
        }
        match self.set_rf_freq() {
            Err(e) => {
                return Err(e);
            },
            Ok(()) => {},
        }

        let mut ba: Vec<u8> = Vec::new();
        ba.push(OpCode::SetBufferBaseAddress.val(r8x));
        ba.push(0);
        ba.push(0);
        proof {
            assert(ba@ =~= buffer_base_frame(r8x));
        }
        match self.interface.write(ba) {
            Err(e) => {
                return Err(e);
            },
            Ok(()) => {},
        }

        let mut wb: Vec<u8> = Vec::new();
        wb.push(OpCode::WriteBuffer.val(r8x));
        wb.push(0);
        let mut i: usize = 0;
        while i < payload.len()
            invariant
                i <= payload@.len(),
                wb@ == seq![OpCode::WriteBuffer.spec_val(r8x), 0u8] + payload@.take(i as int),
            decreases payload@.len() - i,
        {
            let b = payload[i];
            wb.push(b);
            proof {
                assert(wb@ =~= seq![OpCode::WriteBuffer.spec_val(r8x), 0u8] + payload@.take(
                    i + 1,
                ));
            }
            i = i + 1;
        }
        proof {
            assert(payload@.take(payload@.len() as int) =~= payload@);
            assert(wb@ =~= write_buffer_frame(payload@, r8x));
        }
        match self.interface.write(wb) {
            Err(e) => {
                return Err(e);
            },
            Ok(()) => {},
        }

        match self.set_packet_params() {
            Err(e) => {
                proof {
                    assert(self.ops() =~= old(self).ops() + send_ops(
                        cfg,
                        payload@,
                        (if old(self).is_r8x() {
                            0u8
                        } else {
                            old(self).pending()[0][4]
                        }),
                    ).take(6));
                }
                return Err(e);
            },
            Ok(()) => {},
        }

        match self.start_transmission() {
            Err(e) => {
                return Err(e);
            },
            Ok(()) => {},
        }
        proof {
            assert(self.ops() =~= old(self).ops() + send_ops(
                cfg,
                payload@,
                (if old(self).is_r8x() {
                    0u8
                } else {
                    old(self).pending()[0][4]
                }),
            ));
        }
        Ok(())
    }

    /// Put the radio into receive mode at the given frequency, accepting
    /// payloads up to the given length. A timeout of zero means single
    /// shot without a device-side timeout and a saturated all-ones count
    /// means continuous reception; both pass through the encoded field
    /// unchanged. Completion is observed later through `cleanup_rx`.
    pub fn receive(&mut self, max_payload_len: u8, rf_freq: u32) -> (r: Result<(), RadioError>)
        requires
            old(self).wf(),
            rf_freq <= spec_freq_max(old(self).is_r8x()),
        ensures
            final(self).wf(),
            final(self).is_r8x() == old(self).is_r8x(),
            Interface::same_env(old(self).interface, final(self).interface),
            Interface::same_bufs(old(self).interface, final(self).interface),
            final(self).pending() == old(self).pending(),
            final(self).config == updated_config(old(self).config, rf_freq, max_payload_len),
            old(self).interface.busy ==> r == Err::<(), RadioError>(RadioError::BusyTimeout)
                && final(self).ops() == old(self).ops(),
            ({
                let cfg = updated_config(old(self).config, rf_freq, max_payload_len);
                &&& !old(self).interface.busy && configure::packet_params_rejected(cfg) ==> r
                    == Err::<(), RadioError>(RadioError::Config) && final(self).ops() == old(self).ops() + receive_ops(cfg).take(3)
                &&& !old(self).interface.busy && !configure::packet_params_rejected(cfg) ==> r
                    is Ok && final(self).ops() == old(self).ops() + receive_ops(cfg)
            }),
    {
        let r8x = self.interface.r8x;
        self.update_config(rf_freq, max_payload_len);
        let ghost cfg = self.config;

        match self.set_op_mode(OperatingMode::StbyRc) {
            Err(e) => {
                return Err(e);
            },
            Ok(()) => {},
        }
        match self.set_rf_freq() {
            Err(e) => {
                return Err(e);
            },
            Ok(()) => {},
        }

        let mut ba: Vec<u8> = Vec::new();
        ba.push(OpCode::SetBufferBaseAddress.val(r8x));
        ba.push(0);
        ba.push(0);
        proof {
            assert(ba@ =~= buffer_base_frame(r8x));
        }
        match self.interface.write(ba) {
            Err(e) => {
                return Err(e);
            },
            Ok(()) => {},
        }

        match self.set_packet_params() {
            Err(e) => {
                proof {
                    assert(self.ops() =~= old(self).ops() + receive_ops(cfg).take(3));
                }
                return Err(e);
            },
            Ok(()) => {},
        }

        let dio3 = [Irq::RxDone, Irq::Timeout];
        match self.set_irq(&[], &dio3) {
            Err(e) => {
                return Err(e);
            },
            Ok(()) => {},
        }
        proof {
            assert(dio3@ =~= seq![Irq::RxDone, Irq::Timeout]);
        }

        let timeout = match &self.config {
            RadioConfig::R6x(c) => c.rx_timeout,
            RadioConfig::R8x(c) => c.rx_timeout,
        };
        match self.set_op_mode(OperatingMode::Rx(timeout)) {
            Err(e) => {
                return Err(e);
            },
            Ok(()) => {},
        }
        proof {
            assert(self.ops() =~= old(self).ops() + receive_ops(cfg));
        }
        Ok(())
    }

    /// Settle a finished transmission: clear the transmit-done and timeout
    /// IRQ flags, require the device to report standby with transmit done
    /// — a transmit timeout is always an error, unlike receive — and, on
    /// the SX126x, fail if the device error counter is nonzero.
    pub fn cleanup_tx(&mut self) -> (r: Result<(), RadioError>)
        requires
            old(self).wf(),
        ensures
            final(self).wf(),
            final(self).config == old(self).config,
            Interface::same_env(old(self).interface, final(self).interface),
            Interface::same_bufs(old(self).interface, final(self).interface),
            old(self).interface.busy ==> r == Err::<(), RadioError>(RadioError::BusyTimeout)
                && *final(self) == *old(self),
            ({
                let p = old(self).pending();
                let r8x = old(self).is_r8x();
                let clearop = (
                    BusOpKind::Command,
                    clear_irq_frame(seq![Irq::TxDone, Irq::Timeout], r8x),
                );
                let sfop = (BusOpKind::Exchange, status_frame(r8x));
                let st = spec_status_result(p[0], r8x);
                let accepted = st matches Ok(ms) && ms.0 == OperatingModeRead::StbyRc && ms.1
                    == CommandStatus::CommandTxDone;
                let errors = spec_be16(p[1][2], p[1][3]);
                &&& !old(self).interface.busy && !Interface::reply_fits(p, 2) ==> r == Err::<
                    (),
                    RadioError,
                >(RadioError::Spi) && final(self).ops() == old(self).ops().push(clearop)
                    && final(self).pending() == p
                &&& !old(self).interface.busy && Interface::reply_fits(p, 2) ==> (st matches Err(e)
                    ==> r == Err::<(), RadioError>(e) && final(self).ops() == old(self).ops()
                    + seq![clearop, sfop] && final(self).pending() == p.drop_first())
                &&& !old(self).interface.busy && Interface::reply_fits(p, 2) && !accepted ==> (st
                    matches Ok(ms) ==> r == Err::<(), RadioError>(RadioError::Status(ms))
                    && final(self).ops() == old(self).ops() + seq![clearop, sfop]
                    && final(self).pending() == p.drop_first())
                &&& !old(self).interface.busy && Interface::reply_fits(p, 2) && accepted && r8x
                    ==> r is Ok && final(self).ops() == old(self).ops() + seq![clearop, sfop]
                    && final(self).pending() == p.drop_first()
                &&& !old(self).interface.busy && Interface::reply_fits(p, 2) && accepted && !r8x
                    && !Interface::reply_fits(p.drop_first(), 4) ==> r == Err::<(), RadioError>(
                    RadioError::Spi,
                ) && final(self).ops() == old(self).ops() + seq![clearop, sfop]
                    && final(self).pending() == p.drop_first()
                &&& !old(self).interface.busy && Interface::reply_fits(p, 2) && accepted && !r8x
                    && Interface::reply_fits(p.drop_first(), 4) ==> {
                    &&& final(self).ops() == old(self).ops() + seq![
                        clearop,
                        sfop,
                        (BusOpKind::Exchange, device_errors_frame()),
                    ]
                    &&& final(self).pending() == p.drop_first().drop_first()
                    &&& errors != 0 ==> r == Err::<(), RadioError>(RadioError::Device)
                    &&& errors == 0 ==> r is Ok
                }
            }),
    {
        let irqs = [Irq::TxDone, Irq::Timeout];
        proof {
            assert(irqs@ =~= seq![Irq::TxDone, Irq::Timeout]);
        }
        match self.clear_irq(&irqs) {
            Err(e) => {
                return Err(e);
            },
            Ok(()) => {},
        }

        let status = match self.get_status() {
            Ok(s) => s,
            Err(e) => {
                proof {
                    if !old(self).interface.busy && Interface::reply_fits(
                        old(self).pending(),
                        2,
                    ) {
                        assert(self.ops() =~= old(self).ops() + seq![
                            (
                                BusOpKind::Command,
                                clear_irq_frame(
                                    seq![Irq::TxDone, Irq::Timeout],
                                    old(self).is_r8x(),
                                ),
                            ),
                            (BusOpKind::Exchange, status_frame(old(self).is_r8x())),
                        ]);
                    }
                }
                return Err(e);
            },
        };
        proof {
            assert(self.ops() =~= old(self).ops() + seq![
                (
                    BusOpKind::Command,
                    clear_irq_frame(seq![Irq::TxDone, Irq::Timeout], old(self).is_r8x()),
                ),
                (BusOpKind::Exchange, status_frame(old(self).is_r8x())),
            ]);
        }
        if status.0 != OperatingModeRead::StbyRc || status.1 != CommandStatus::CommandTxDone {
            // A receive cleanup tolerates timeouts, because no message may
            // arrive; after a transmit, anything but transmit-done means a
            // fault.
            return Err(RadioError::Status((status.0, status.1)));
        }

        // The standalone device-error command exists on the SX126x only.
        if !self.interface.r8x {
            let device_errors = match self.get_device_errors() {
                Ok(v) => v,
                Err(e) => {
                    return Err(e);
                },
            };
            proof {
                assert(self.ops() =~= old(self).ops() + seq![
                    (
                        BusOpKind::Command,
                        clear_irq_frame(seq![Irq::TxDone, Irq::Timeout], old(self).is_r8x()),
                    ),
                    (BusOpKind::Exchange, status_frame(old(self).is_r8x())),
                    (BusOpKind::Exchange, device_errors_frame()),
                ]);
            }
            if device_errors != 0 {
                return Err(RadioError::Device);
            }
        }

        Ok(())
    }

    /// Settle a completed reception. The device must report standby with
    /// either data available or a device-side timeout; anything else is a
    /// hard status error, with the IRQ flags still cleared before the
    /// error returns. With data available the IRQ word is checked first
    /// and a set CRC bit fails with a CRC error — again after clearing the
    /// IRQ — and without a buffer read. Otherwise the IRQ flags are
    /// cleared, the buffer status is read and recorded, the SX126x
    /// post-receive erratum workaround and device-error check run, and —
    /// only with data available — the payload bytes are copied from the
    /// reported buffer offset into the read buffer. A timeout is not an
    /// error: the caller receives the buffer status and the timeout.
    #[verifier::rlimit(60)]
    pub fn cleanup_rx(&mut self) -> (r: Result<(RxBufferStatus, CommandStatus), RadioError>)
        requires
            old(self).wf(),
        ensures
            final(self).wf(),
            final(self).config == old(self).config,
            Interface::same_env(old(self).interface, final(self).interface),
            final(self).interface.write_buf@ == old(self).interface.write_buf@,
            old(self).interface.busy ==> r == Err::<(RxBufferStatus, CommandStatus), RadioError>(
                RadioError::BusyTimeout,
            ) && *final(self) == *old(self),
            !old(self).interface.busy && !Interface::reply_fits(old(self).pending(), 2) ==> r
                == Err::<(RxBufferStatus, CommandStatus), RadioError>(RadioError::Spi) && *final(self) == *old(self),
            ({
                let p = old(self).pending();
                let r8x = old(self).is_r8x();
                let st = spec_status_result(p[0], r8x);
                let sfop = (BusOpKind::Exchange, status_frame(r8x));
                let clearop = (
                    BusOpKind::Command,
                    clear_irq_frame(seq![Irq::RxDone, Irq::Timeout], r8x),
                );
                let irqop = (BusOpKind::Exchange, irq_status_frame(r8x));
                let bsop = (BusOpKind::Exchange, rx_buffer_status_frame(r8x));
                let devop = (BusOpKind::Exchange, device_errors_frame());
                let rtcop = (
                    BusOpKind::Command,
                    reg_write_frame(Register::Reg6x(Register6x::RtcControl), 0x00, false),
                );
                let ms = st->Ok_0;
                let ok0 = (st is Ok) && rx_status_ok(ms.0, ms.1);
                let da = ms.1 == CommandStatus::DataAvailable;
                let k: int = if da {
                    2
                } else {
                    1
                };
                let pre = if da {
                    seq![sfop, irqop, clearop]
                } else {
                    seq![sfop, clearop]
                };
                let crc_checked = !da || (Interface::reply_fits(p.drop_first(), 4)
                    && !spec_crc_error(p[1]));
                let bs = spec_rx_buffer_status(p[k]);
                let j: int = if r8x {
                    k + 1
                } else {
                    k + 3
                };
                let ops1 = if r8x {
                    pre + seq![bsop]
                } else {
                    pre + seq![bsop] + eratta::implicit_header_ops(p[k + 1][4]) + seq![devop]
                };
                let six_ok = r8x || (Interface::reply_fits(p.skip(k + 1), 6)
                    && Interface::reply_fits(p.skip(k + 2), 4) && spec_be16(
                    p[k + 2][2],
                    p[k + 2][3],
                ) == 0);
                let busy_or_short = old(self).interface.busy || !Interface::reply_fits(p, 2);
                let rx_updated = final(self).interface.rx_payload_len == bs.payload_len && final(self).interface.rx_payload_start == bs.rx_start_buf_pointer;
                &&& !busy_or_short ==> (st matches Err(e) ==> r == Err::<
                    (RxBufferStatus, CommandStatus),
                    RadioError,
                >(e) && final(self).ops() == old(self).ops() + seq![sfop] && final(self).pending()
                    == p.drop_first() && Interface::same_bufs(
                    old(self).interface,
                    final(self).interface,
                ))
                &&& !busy_or_short && (st is Ok) && !ok0 ==> r == Err::<
                    (RxBufferStatus, CommandStatus),
                    RadioError,
                >(RadioError::Status(ms)) && final(self).ops() == old(self).ops() + seq![
                    sfop,
                    clearop,
                ] && final(self).pending() == p.drop_first() && Interface::same_bufs(
                    old(self).interface,
                    final(self).interface,
                )
                &&& !busy_or_short && ok0 && da && !Interface::reply_fits(p.drop_first(), 4)
                    ==> r == Err::<(RxBufferStatus, CommandStatus), RadioError>(RadioError::Spi)
                    && final(self).ops() == old(self).ops() + seq![sfop] && final(self).pending()
                    == p.drop_first() && Interface::same_bufs(
                    old(self).interface,
                    final(self).interface,
                )
                &&& !busy_or_short && ok0 && da && Interface::reply_fits(p.drop_first(), 4)
                    && spec_crc_error(p[1]) ==> r == Err::<
                    (RxBufferStatus, CommandStatus),
                    RadioError,
                >(RadioError::Crc) && final(self).ops() == old(self).ops() + seq![
                    sfop,
                    irqop,
                    clearop,
                ] && final(self).pending() == p.skip(2) && Interface::same_bufs(
                    old(self).interface,
                    final(self).interface,
                )
                &&& !busy_or_short && ok0 && crc_checked && !Interface::reply_fits(p.skip(k), 4)
                    ==> r == Err::<(RxBufferStatus, CommandStatus), RadioError>(RadioError::Spi)
                    && final(self).ops() == old(self).ops() + pre && final(self).pending()
                    == p.skip(k) && Interface::same_bufs(
                    old(self).interface,
                    final(self).interface,
                )
                &&& !busy_or_short && ok0 && crc_checked && Interface::reply_fits(p.skip(k), 4)
                    && !r8x && !Interface::reply_fits(p.skip(k + 1), 6) ==> r == Err::<
                    (RxBufferStatus, CommandStatus),
                    RadioError,
                >(RadioError::Spi) && final(self).ops() == old(self).ops() + pre + seq![
                    bsop,
                    rtcop,
                ] && final(self).pending() == p.skip(k + 1) && rx_updated
                    && final(self).interface.read_buf@ == old(self).interface.read_buf@
                &&& !busy_or_short && ok0 && crc_checked && Interface::reply_fits(p.skip(k), 4)
                    && !r8x && Interface::reply_fits(p.skip(k + 1), 6) && !Interface::reply_fits(
                    p.skip(k + 2),
                    4,
                ) ==> r == Err::<(RxBufferStatus, CommandStatus), RadioError>(RadioError::Spi)
                    && final(self).ops() == old(self).ops() + pre + seq![bsop]
                    + eratta::implicit_header_ops(p[k + 1][4]) && final(self).pending() == p.skip(
                    k + 2,
                ) && rx_updated && final(self).interface.read_buf@ == old(self).interface.read_buf@
                &&& !busy_or_short && ok0 && crc_checked && Interface::reply_fits(p.skip(k), 4)
                    && !r8x && Interface::reply_fits(p.skip(k + 1), 6) && Interface::reply_fits(
                    p.skip(k + 2),
                    4,
                ) && spec_be16(p[k + 2][2], p[k + 2][3]) != 0 ==> r == Err::<
                    (RxBufferStatus, CommandStatus),
                    RadioError,
                >(RadioError::Device) && final(self).ops() == old(self).ops() + ops1 && final(self).pending() == p.skip(k + 3) && rx_updated && final(self).interface.read_buf@
                    == old(self).interface.read_buf@
                &&& !busy_or_short && ok0 && crc_checked && Interface::reply_fits(p.skip(k), 4)
                    && six_ok && !da ==> r == Ok::<(RxBufferStatus, CommandStatus), RadioError>(
                    (bs, CommandStatus::CommandTimeout),
                ) && final(self).ops() == old(self).ops() + ops1 && final(self).pending()
                    == p.skip(j) && rx_updated && final(self).interface.read_buf@ == old(self).interface.read_buf@
                &&& !busy_or_short && ok0 && crc_checked && Interface::reply_fits(p.skip(k), 4)
                    && six_ok && da && !Interface::reply_fits(p.skip(j), bs.payload_len as int + 3)
                    ==> r == Err::<(RxBufferStatus, CommandStatus), RadioError>(RadioError::Spi)
                    && final(self).ops() == old(self).ops() + ops1 && final(self).pending()
                    == p.skip(j) && rx_updated && final(self).interface.read_buf@ == old(self).interface.read_buf@
                &&& !busy_or_short && ok0 && crc_checked && Interface::reply_fits(p.skip(k), 4)
                    && six_ok && da && Interface::reply_fits(p.skip(j), bs.payload_len as int + 3)
                    ==> r == Ok::<(RxBufferStatus, CommandStatus), RadioError>(
                    (bs, CommandStatus::DataAvailable),
                ) && final(self).ops() == old(self).ops() + ops1 + seq![
                    (
                        BusOpKind::Exchange,
                        read_buffer_frame(bs.rx_start_buf_pointer, bs.payload_len, r8x),
                    ),
                ] && final(self).pending() == p.skip(j + 1) && rx_updated
                    && final(self).interface.read_buf@ == p[j].skip(3) + old(self).interface.read_buf@.skip(bs.payload_len as int)
            }),
    {
        let ghost p = old(self).pending();
        let r8x = self.interface.r8x;
        let irqs = [Irq::RxDone, Irq::Timeout];
        proof {
            assert(irqs@ =~= seq![Irq::RxDone, Irq::Timeout]);
        }

        let (op_mode, cmd_status) = match self.get_status() {
            Ok(t) => t,
            Err(e) => {
                return Err(e);
            },
        };
        let da = cmd_status == CommandStatus::DataAvailable;

        if op_mode != OperatingModeRead::StbyRc || (cmd_status != CommandStatus::DataAvailable
            && cmd_status != CommandStatus::CommandTimeout) {
            // Even when the status is unacceptable, never leave the IRQ
            // flags set on the way out.
            match self.clear_irq(&irqs) {
                Err(e) => {
                    return Err(e);
                },
                Ok(()) => {},
            }
            proof {
                assert(self.ops() =~= old(self).ops() + seq![
                    (BusOpKind::Exchange, status_frame(old(self).is_r8x())),
                    (
                        BusOpKind::Command,
                        clear_irq_frame(seq![Irq::RxDone, Irq::Timeout], old(self).is_r8x()),
                    ),
                ]);
            }
            return Err(RadioError::Status((op_mode, cmd_status)));
        }

        if da {
            // Receive-done only means a packet arrived; its CRC may still
            // be wrong, so consult the IRQ word before trusting it.
            let mut isf: Vec<u8> = Vec::new();
            isf.push(OpCode::GetIrqStatus.val(r8x));
            isf.push(0);
            isf.push(0);
            isf.push(0);
            proof {
                assert(isf@ =~= irq_status_frame(old(self).is_r8x()));
            }
            let irq_reply = match self.interface.read(isf) {
                Ok(rep) => rep,
                Err(e) => {
                    return Err(e);
                },
            };
            let irq_status = be16(irq_reply[2], irq_reply[3]);
            // The two bits cover a header CRC error and a wrong payload
            // CRC.
            if irq_status & 0x60 != 0 {
                // Clear the IRQ even though this returns early.
                match self.clear_irq(&irqs) {
                    Err(e) => {
                        return Err(e);
                    },
                    Ok(()) => {},
                }
                proof {
                    assert(self.ops() =~= old(self).ops() + seq![
                        (BusOpKind::Exchange, status_frame(old(self).is_r8x())),
                        (BusOpKind::Exchange, irq_status_frame(old(self).is_r8x())),
                        (
                            BusOpKind::Command,
                            clear_irq_frame(seq![Irq::RxDone, Irq::Timeout], old(self).is_r8x()),
                        ),
                    ]);
                }
                return Err(RadioError::Crc);
            }
        }

        match self.clear_irq(&irqs) {
            Err(e) => {
                return Err(e);
            },
            Ok(()) => {},
        }
        proof {
            if da {
                assert(self.ops() =~= old(self).ops() + seq![
                    (BusOpKind::Exchange, status_frame(old(self).is_r8x())),
                    (BusOpKind::Exchange, irq_status_frame(old(self).is_r8x())),
                    (
                        BusOpKind::Command,
                        clear_irq_frame(seq![Irq::RxDone, Irq::Timeout], old(self).is_r8x()),
                    ),
                ]);
            } else {
                assert(self.ops() =~= old(self).ops() + seq![
                    (BusOpKind::Exchange, status_frame(old(self).is_r8x())),
                    (
                        BusOpKind::Command,
                        clear_irq_frame(seq![Irq::RxDone, Irq::Timeout], old(self).is_r8x()),
                    ),
                ]);
            }
        }
        let ghost pre_bs = *self;

        let buf_status = match self.get_rx_buffer_status() {
            Ok(b) => b,
            Err(e) => {
                return Err(e);
            },
        };
        self.interface.rx_payload_len = buf_status.payload_len;
        self.interface.rx_payload_start = buf_status.rx_start_buf_pointer;

        if !r8x {
            // Post-receive erratum workaround, then the device error
            // counter; both exist on this family only.
            match self.implicit_header_to_workaround() {
                Err(e) => {
                    return Err(e);
                },
                Ok(()) => {},
            }
            let device_errors = match self.get_device_errors() {
                Ok(v) => v,
                Err(e) => {
                    return Err(e);
                },
            };
            if device_errors != 0 {
                return Err(RadioError::Device);
            }
        }
        let ghost pre_read = *self;

        if da {
            let payload_len = buf_status.payload_len as usize;
            let mut frame: Vec<u8> = Vec::new();
            frame.push(OpCode::ReadBuffer.val(r8x));
            frame.push(buf_status.rx_start_buf_pointer);
            frame.push(0);
            let mut i: usize = 0;
            while i < payload_len
                invariant
                    i <= payload_len,
                    frame@ == seq![
                        OpCode::ReadBuffer.spec_val(pre_read.interface.r8x),
                        pre_read.interface.rx_payload_start,
                        0u8,
                    ] + Seq::new(i as nat, |q: int| 0u8),
                    r8x == pre_read.interface.r8x,
                    buf_status.rx_start_buf_pointer == pre_read.interface.rx_payload_start,
                    *self == pre_read,
                decreases payload_len - i,
            {
                frame.push(0);
                proof {
                    assert(frame@ =~= seq![
                        OpCode::ReadBuffer.spec_val(pre_read.interface.r8x),
                        pre_read.interface.rx_payload_start,
                        0u8,
                    ] + Seq::new((i + 1) as nat, |q: int| 0u8));
                }
                i = i + 1;
            }
            proof {
                assert(frame@ =~= read_buffer_frame(
                    buf_status.rx_start_buf_pointer,
                    buf_status.payload_len,
                    old(self).is_r8x(),
                ));
            }
            let reply = match self.interface.read(frame) {
                Ok(rep) => rep,
                Err(e) => {
                    return Err(e);
                },
            };
            // Move the payload, and only the payload, from the answered
            // frame into the read buffer.
            let ghost mid = *self;
            let mut t: usize = 0;
            while t < payload_len
                invariant
                    t <= payload_len,
                    payload_len + 3 == reply@.len(),
                    payload_len < RADIO_BUF_SIZE,
                    mid.interface.wf(),
                    self.interface.wf(),
                    self.config == mid.config,
                    self.interface.r8x == mid.interface.r8x,
                    self.interface.busy == mid.interface.busy,
                    self.interface.write_buf@ == mid.interface.write_buf@,
                    self.interface.rx_payload_len == mid.interface.rx_payload_len,
                    self.interface.rx_payload_start == mid.interface.rx_payload_start,
                    self.interface.log@ == mid.interface.log@,
                    self.interface.replies@ == mid.interface.replies@,
                    self.interface.read_buf@ == reply@.skip(3).take(t as int)
                        + mid.interface.read_buf@.skip(t as int),
                decreases payload_len - t,
            {
                let b = reply[3 + t];
                self.interface.read_buf.set(t, b);
                proof {
                    assert(self.interface.read_buf@ =~= reply@.skip(3).take(t + 1)
                        + mid.interface.read_buf@.skip(t + 1));
                }
                t = t + 1;
            }
            proof {
                assert(self.interface.read_buf@ =~= reply@.skip(3)
                    + mid.interface.read_buf@.skip(buf_status.payload_len as int));
            }
        }

        proof {
            let p = old(self).pending();
            let r8xg = old(self).is_r8x();
            let sfop = (BusOpKind::Exchange, status_frame(r8xg));
            let clearop = (
                BusOpKind::Command,
                clear_irq_frame(seq![Irq::RxDone, Irq::Timeout], r8xg),
            );
            let irqop = (BusOpKind::Exchange, irq_status_frame(r8xg));
            let bsop = (BusOpKind::Exchange, rx_buffer_status_frame(r8xg));
            let devop = (BusOpKind::Exchange, device_errors_frame());
            let kk: int = if da {
                2
            } else {
                1
            };
            let pre = if da {
                seq![sfop, irqop, clearop]
            } else {
                seq![sfop, clearop]
            };
            let ops1 = if r8xg {
                pre + seq![bsop]
            } else {
                pre + seq![bsop] + eratta::implicit_header_ops(p[kk + 1][4]) + seq![devop]
            };
            if da {
                assert(self.ops() =~= old(self).ops() + ops1 + seq![
                    (
                        BusOpKind::Exchange,
                        read_buffer_frame(
                            buf_status.rx_start_buf_pointer,
                            buf_status.payload_len,
                            r8xg,
                        ),
                    ),
                ]);
            } else {
                assert(self.ops() =~= old(self).ops() + ops1);
            }
        }
        Ok((buf_status, cmd_status))
    }

    /// Initialise the radio: take ownership of the transaction interface,
    /// stamp it with the configuration's chip family, and run the
    /// mandatory ordered initialisation protocol. Initialisation is
    /// all-or-nothing: any step's failure is returned and no controller is
    /// handed out.
    #[verifier::rlimit(60)]
    pub fn new(config: RadioConfig, interface: Interface) -> (r: Result<Radio, RadioError>)
        requires
            interface.wf(),
            config_valid(config),
        ensures
            interface.busy ==> r == Err::<Radio, RadioError>(RadioError::BusyTimeout),
            !interface.busy && !(config is R8x) && configure::packet_params_rejected(config)
                ==> r == Err::<Radio, RadioError>(RadioError::Config),
            !interface.busy && !(config is R8x) && !configure::packet_params_rejected(config)
                && !Interface::reply_fits(interface.pending(), 6) ==> r == Err::<
                Radio,
                RadioError,
            >(RadioError::Spi),
            !interface.busy && !(config is R8x) && !configure::packet_params_rejected(config)
                && Interface::reply_fits(interface.pending(), 6) ==> {
                &&& r matches Ok(radio)
                &&& radio.wf()
                &&& radio.config == config
                &&& !radio.interface.busy
                &&& radio.interface.ops() == interface.ops() + init_ops_6x(
                    config,
                    interface.pending()[0][4],
                )
                &&& radio.interface.pending() == interface.pending().drop_first()
                &&& Interface::same_bufs(interface, radio.interface)
            },
            !interface.busy && (config is R8x) ==> {
                &&& r matches Ok(radio)
                &&& radio.wf()
                &&& radio.config == config
                &&& !radio.interface.busy
                &&& radio.interface.ops() == interface.ops() + init_ops_8x(config)
                &&& radio.interface.pending() == interface.pending()
                &&& Interface::same_bufs(interface, radio.interface)
            },
    {
        let r8x = match &config {
            RadioConfig::R6x(_) => false,
            RadioConfig::R8x(_) => true,
        };
        let mut result = Radio { config, interface };
        // The family tag of the interface is set together with the
        // configuration and never diverges afterwards.
        result.interface.r8x = r8x;

        result.interface.reset();

        // After reset the chip boots; the busy line falls once it can
        // accept commands.
        match result.interface.wait_on_busy() {
            Err(e) => {
                return Err(e);
            },
            Ok(()) => {},
        }

        // Standby with the RC oscillator is required before the packet
        // type, which must in turn precede every other configuration
        // command.
        match result.set_op_mode(OperatingMode::StbyRc) {
            Err(e) => {
                return Err(e);
            },
            Ok(()) => {},
        }
        let packet_type = match &result.config {
            RadioConfig::R6x(c) => c.packet_type,
            RadioConfig::R8x(c) => c.packet_type,
        };
        let pt_val = packet_type.val();
        match result.interface.write_op_word(OpCode::SetPacketType, pt_val) {
            Err(e) => {
                return Err(e);
            },
            Ok(()) => {},
        }

        match result.set_rf_freq() {
            Err(e) => {
                return Err(e);
            },
            Ok(()) => {},
        }
        match result.set_mod_params() {
            Err(e) => {
                return Err(e);
            },
            Ok(()) => {},
        }
        match result.set_packet_params() {
            Err(e) => {
                return Err(e);
            },
            Ok(()) => {},
        }

        if !r8x {
            match result.set_rxgain_retention() {
                Err(e) => {
                    return Err(e);
                },
                Ok(()) => {},
            }
            match result.tx_clamp_workaround() {
                Err(e) => {
                    return Err(e);
                },
                Ok(()) => {},
            }
            let (dc_dc, fallback, dio, network) = match &result.config {
                RadioConfig::R6x(c) => (
                    c.dc_dc_enabled,
                    c.fallback_mode,
                    c.use_dio2_as_rfswitch,
                    c.lora_network,
                ),
                RadioConfig::R8x(_) => {
                    proof {
                        assert(false);
                    }
                    (false, FallbackMode::StdbyRc, false, LoraNetwork::Private)
                },
            };
            // Regulator choice follows the board's supply arrangement.
            let dc_byte = if dc_dc {
                1
            } else {
                0
            };
            match result.interface.write_op_word(OpCode::SetRegulatorMode, dc_byte) {
                Err(e) => {
                    return Err(e);
                },
                Ok(()) => {},
            }
            match result.set_pa_config() {
                Err(e) => {
                    return Err(e);
                },
                Ok(()) => {},
            }
            let fb_val = fallback.val();
            match result.interface.write_op_word(OpCode::SetTxFallbackMode, fb_val) {
                Err(e) => {
                    return Err(e);
                },
                Ok(()) => {},
            }
            let dio_byte = if dio {
                1
            } else {
                0
            };
            match result.interface.write_op_word(OpCode::SetDIO2AsRfSwitchCtrl, dio_byte) {
                Err(e) => {
                    return Err(e);
                },
                Ok(()) => {},
            }
            match result.set_sync_word(network) {
                Err(e) => {
                    return Err(e);
                },
                Ok(()) => {},
            }
        }

        match result.set_tx_params() {
            Err(e) => {
                return Err(e);
            },
            Ok(()) => {},
        }

        let mut frame: Vec<u8> = Vec::new();
        frame.push(OpCode::SetBufferBaseAddress.val(r8x));
        frame.push(0);
        frame.push(0);
        proof {
            assert(frame@ =~= buffer_base_frame(r8x));
        }
        match result.interface.write(frame) {
            Err(e) => {
                return Err(e);
            },
            Ok(()) => {},
        }

        proof {
            if r8x {
                assert(result.interface.ops() =~= interface.ops() + init_ops_8x(config));
            } else {
                assert(result.interface.ops() =~= interface.ops() + init_ops_6x(
                    config,
                    interface.pending()[0][4],
                ));
            }
        }
        Ok(result)
    }
}

} // verus!
