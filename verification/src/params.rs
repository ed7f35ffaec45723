//! Modulation and packet parameters for both chip families, together with
//! the raw command values each family expects for them.

use vstd::prelude::*;

verus! {

/// GFSK pulse shape (modulation parameter; out of scope, encoding kept).
#[derive(Clone, Copy, PartialEq, Eq, Structural, Debug)]
pub enum GfskPulseShape {
    NoFilter,
    GaussianBt0_3,
    GaussianBt0_5,
    GaussianBt0_7,
    GaussianBt1,
}

/// GFSK bandwidth (modulation parameter; out of scope, encoding kept).
#[derive(Clone, Copy, PartialEq, Eq, Structural, Debug)]
pub enum GfskBandwidth {
    B48,
    B58,
    B73,
    B97,
}

/// LoRa spreading factor. A higher factor trades time-on-air for receiver
/// sensitivity. The logical value is the same on both families, but the raw
/// encodings differ: an ordinal on the SX126x, nibble-shifted on the SX128x.
#[derive(Clone, Copy, PartialEq, Eq, Structural, Debug)]
pub enum LoraSpreadingFactor {
    SF5,
    SF6,
    SF7,
    SF8,
    SF9,
    SF10,
    SF11,
    SF12,
}

impl LoraSpreadingFactor {
    pub open spec fn spec_val_6x(self) -> u8 {
        match self {
            LoraSpreadingFactor::SF5 => 0x05,
            LoraSpreadingFactor::SF6 => 0x06,
            LoraSpreadingFactor::SF7 => 0x07,
            LoraSpreadingFactor::SF8 => 0x08,
            LoraSpreadingFactor::SF9 => 0x09,
            LoraSpreadingFactor::SF10 => 0x0a,
            LoraSpreadingFactor::SF11 => 0x0b,
            LoraSpreadingFactor::SF12 => 0x0c,
        }
    }

    pub fn val_6x(&self) -> (r: u8)
        ensures
            r == self.spec_val_6x(),
    {
        match self {
            LoraSpreadingFactor::SF5 => 0x05,
            LoraSpreadingFactor::SF6 => 0x06,
            LoraSpreadingFactor::SF7 => 0x07,
            LoraSpreadingFactor::SF8 => 0x08,
            LoraSpreadingFactor::SF9 => 0x09,
            LoraSpreadingFactor::SF10 => 0x0a,
            LoraSpreadingFactor::SF11 => 0x0b,
            LoraSpreadingFactor::SF12 => 0x0c,
        }
    }

    pub open spec fn spec_val_8x(self) -> u8 {
        match self {
            LoraSpreadingFactor::SF5 => 0x50,
            LoraSpreadingFactor::SF6 => 0x60,
            LoraSpreadingFactor::SF7 => 0x70,
            LoraSpreadingFactor::SF8 => 0x80,
            LoraSpreadingFactor::SF9 => 0x90,
            LoraSpreadingFactor::SF10 => 0xa0,
            LoraSpreadingFactor::SF11 => 0xb0,
            LoraSpreadingFactor::SF12 => 0xc0,
        }
    }

    /// Raw value for the SX128x, whose register places the factor in the
    /// high nibble.
    pub fn val_8x(&self) -> (r: u8)
        ensures
            r == self.spec_val_8x(),
    {
        match self {
            LoraSpreadingFactor::SF5 => 0x50,
            LoraSpreadingFactor::SF6 => 0x60,
            LoraSpreadingFactor::SF7 => 0x70,
            LoraSpreadingFactor::SF8 => 0x80,
            LoraSpreadingFactor::SF9 => 0x90,
            LoraSpreadingFactor::SF10 => 0xa0,
            LoraSpreadingFactor::SF11 => 0xb0,
            LoraSpreadingFactor::SF12 => 0xc0,
        }
    }

    /// Value the SX128x requires in its additional spreading-factor
    /// configuration register after modulation parameters are set.
    pub open spec fn spec_sf_cfg_val(self) -> u8 {
        match self {
            LoraSpreadingFactor::SF5 => 0x1e,
            LoraSpreadingFactor::SF6 => 0x1e,
            LoraSpreadingFactor::SF7 => 0x37,
            LoraSpreadingFactor::SF8 => 0x37,
            _ => 0x32,
        }
    }

    pub fn sf_cfg_val(&self) -> (r: u8)
        ensures
            r == self.spec_sf_cfg_val(),
    {
        match self {
            LoraSpreadingFactor::SF5 | LoraSpreadingFactor::SF6 => 0x1e,
            LoraSpreadingFactor::SF7 | LoraSpreadingFactor::SF8 => 0x37,
            _ => 0x32,
        }
    }
}

/// SX126x LoRa bandwidth. Variant names give the bandwidth in kHz.
#[derive(Clone, Copy, PartialEq, Eq, Structural, Debug)]
pub enum LoraBandwidth6x {
    BW7,
    BW10,
    BW15,
    BW20,
    BW31,
    BW41,
    BW62,
    BW125,
    /// May not be available below 400 MHz.
    BW250,
    /// May not be available below 400 MHz.
    BW500,
}

impl LoraBandwidth6x {
    pub open spec fn spec_val(self) -> u8 {
        match self {
            LoraBandwidth6x::BW7 => 0x00,
            LoraBandwidth6x::BW10 => 0x08,
            LoraBandwidth6x::BW15 => 0x01,
            LoraBandwidth6x::BW20 => 0x09,
            LoraBandwidth6x::BW31 => 0x02,
            LoraBandwidth6x::BW41 => 0x0a,
            LoraBandwidth6x::BW62 => 0x03,
            LoraBandwidth6x::BW125 => 0x04,
            LoraBandwidth6x::BW250 => 0x05,
            LoraBandwidth6x::BW500 => 0x06,
        }
    }

    pub fn val(&self) -> (r: u8)
        ensures
            r == self.spec_val(),
    {
        match self {
            LoraBandwidth6x::BW7 => 0x00,
            LoraBandwidth6x::BW10 => 0x08,
            LoraBandwidth6x::BW15 => 0x01,
            LoraBandwidth6x::BW20 => 0x09,
            LoraBandwidth6x::BW31 => 0x02,
            LoraBandwidth6x::BW41 => 0x0a,
            LoraBandwidth6x::BW62 => 0x03,
            LoraBandwidth6x::BW125 => 0x04,
            LoraBandwidth6x::BW250 => 0x05,
            LoraBandwidth6x::BW500 => 0x06,
        }
    }
}

/// SX128x LoRa bandwidth. Variant names give the bandwidth in kHz.
#[derive(Clone, Copy, PartialEq, Eq, Structural, Debug)]
pub enum LoraBandwidth8x {
    BW1600,
    BW800,
    BW400,
    BW200,
}

impl LoraBandwidth8x {
    pub open spec fn spec_val(self) -> u8 {
        match self {
            LoraBandwidth8x::BW1600 => 0x0a,
            LoraBandwidth8x::BW800 => 0x18,
            LoraBandwidth8x::BW400 => 0x26,
            LoraBandwidth8x::BW200 => 0x34,
        }
    }

    pub fn val(&self) -> (r: u8)
        ensures
            r == self.spec_val(),
    {
        match self {
            LoraBandwidth8x::BW1600 => 0x0a,
            LoraBandwidth8x::BW800 => 0x18,
            LoraBandwidth8x::BW400 => 0x26,
            LoraBandwidth8x::BW200 => 0x34,
        }
    }
}

/// LoRa forward-error-correction coding rate. The interleaved (LI) rates
/// exist on the SX128x only.
#[derive(Clone, Copy, PartialEq, Eq, Structural, Debug)]
pub enum LoraCodingRate {
    CR4_5,
    CR4_6,
    CR4_7,
    CR4_8,
    CRLI4_5,
    CRLI4_6,
    CRLI4_7,
}

impl LoraCodingRate {
    pub open spec fn spec_val(self) -> u8 {
        match self {
            LoraCodingRate::CR4_5 => 1,
            LoraCodingRate::CR4_6 => 2,
            LoraCodingRate::CR4_7 => 3,
            LoraCodingRate::CR4_8 => 4,
            LoraCodingRate::CRLI4_5 => 5,
            LoraCodingRate::CRLI4_6 => 6,
            LoraCodingRate::CRLI4_7 => 8,
        }
    }

    pub fn val(&self) -> (r: u8)
        ensures
            r == self.spec_val(),
    {
        match self {
            LoraCodingRate::CR4_5 => 1,
            LoraCodingRate::CR4_6 => 2,
            LoraCodingRate::CR4_7 => 3,
            LoraCodingRate::CR4_8 => 4,
            LoraCodingRate::CRLI4_5 => 5,
            LoraCodingRate::CRLI4_6 => 6,
            LoraCodingRate::CRLI4_7 => 8,
        }
    }
}

/// SX126x only: low-data-rate optimisation, recommended when a LoRa symbol
/// lasts 16.38 ms or more.
#[derive(Clone, Copy, PartialEq, Eq, Structural, Debug)]
pub enum LoraLdrOptimization {
    Disabled,
    Enabled,
}

impl LoraLdrOptimization {
    pub open spec fn spec_val(self) -> u8 {
        match self {
            LoraLdrOptimization::Disabled => 0,
            LoraLdrOptimization::Enabled => 1,
        }
    }

    pub fn val(&self) -> (r: u8)
        ensures
            r == self.spec_val(),
    {
        match self {
            LoraLdrOptimization::Disabled => 0,
            LoraLdrOptimization::Enabled => 1,
        }
    }
}

/// SX128x only: FLRC bit rate and bandwidth.
#[derive(Clone, Copy, PartialEq, Eq, Structural, Debug)]
pub enum FlrcBitrate {
    BR1_3,
    BR1_0,
    BR0_6,
    BR0_5,
    BR0_3,
    BR0_2,
}

impl FlrcBitrate {
    pub open spec fn spec_val(self) -> u8 {
        match self {
            FlrcBitrate::BR1_3 => 0x45,
            FlrcBitrate::BR1_0 => 0x69,
            FlrcBitrate::BR0_6 => 0x86,
            FlrcBitrate::BR0_5 => 0xaa,
            FlrcBitrate::BR0_3 => 0xc7,
            FlrcBitrate::BR0_2 => 0xeb,
        }
    }

    pub fn val(&self) -> (r: u8)
        ensures
            r == self.spec_val(),
    {
        match self {
            FlrcBitrate::BR1_3 => 0x45,
            FlrcBitrate::BR1_0 => 0x69,
            FlrcBitrate::BR0_6 => 0x86,
            FlrcBitrate::BR0_5 => 0xaa,
            FlrcBitrate::BR0_3 => 0xc7,
            FlrcBitrate::BR0_2 => 0xeb,
        }
    }
}

/// SX128x only: FLRC coding rate.
#[derive(Clone, Copy, PartialEq, Eq, Structural, Debug)]
pub enum FlrcCodingRate {
    CR1_2,
    CR3_4,
    CR1_1,
}

impl FlrcCodingRate {
    pub open spec fn spec_val(self) -> u8 {
        match self {
            FlrcCodingRate::CR1_2 => 0x00,
            FlrcCodingRate::CR3_4 => 0x02,
            FlrcCodingRate::CR1_1 => 0x04,
        }
    }

    pub fn val(&self) -> (r: u8)
        ensures
            r == self.spec_val(),
    {
        match self {
            FlrcCodingRate::CR1_2 => 0x00,
            FlrcCodingRate::CR3_4 => 0x02,
            FlrcCodingRate::CR1_1 => 0x04,
        }
    }
}

/// SX128x only: FLRC Gaussian filtering.
#[derive(Clone, Copy, PartialEq, Eq, Structural, Debug)]
pub enum FlrcBt {
    Disabled,
    BT1,
    BT0_5,
}

impl FlrcBt {
    pub open spec fn spec_val(self) -> u8 {
        match self {
            FlrcBt::Disabled => 0x00,
            FlrcBt::BT1 => 0x10,
            FlrcBt::BT0_5 => 0x20,
        }
    }

    pub fn val(&self) -> (r: u8)
        ensures
            r == self.spec_val(),
    {
        match self {
            FlrcBt::Disabled => 0x00,
            FlrcBt::BT1 => 0x10,
            FlrcBt::BT0_5 => 0x20,
        }
    }
}

/// SX128x modulation parameters, for whichever packet type is active.
#[derive(Clone, PartialEq, Eq, Structural, Debug)]
pub enum ModulationParams8x {
    Lora(ModulationParamsLora8x),
    Flrc(ModulationParamsFlrc),
}

impl Default for ModulationParams8x {
    fn default() -> (r: Self)
        ensures
            r == ModulationParams8x::spec_default(),
    {
        ModulationParams8x::Lora(ModulationParamsLora8x::default())
    }
}

impl ModulationParams8x {
    pub open spec fn spec_default() -> ModulationParams8x {
        ModulationParams8x::Lora(ModulationParamsLora8x::spec_default())
    }
}

/// SX126x LoRa modulation parameters.
#[derive(Clone, PartialEq, Eq, Structural, Debug)]
pub struct ModulationParamsLora6x {
    pub mod_bandwidth: LoraBandwidth6x,
    pub spreading_factor: LoraSpreadingFactor,
    pub coding_rate: LoraCodingRate,
    pub low_data_rate_optimization: LoraLdrOptimization,
}

impl Default for ModulationParamsLora6x {
    /// Set up for a short airtime; make these more robust to interference
    /// at the cost of time-on-air as needed.
    fn default() -> (r: Self)
        ensures
            r == ModulationParamsLora6x::spec_default(),
    {
        ModulationParamsLora6x {
            mod_bandwidth: LoraBandwidth6x::BW500,
            spreading_factor: LoraSpreadingFactor::SF5,
            coding_rate: LoraCodingRate::CR4_5,
            low_data_rate_optimization: LoraLdrOptimization::Disabled,
        }
    }
}

impl ModulationParamsLora6x {
    pub open spec fn spec_default() -> ModulationParamsLora6x {
        ModulationParamsLora6x {
            mod_bandwidth: LoraBandwidth6x::BW500,
            spreading_factor: LoraSpreadingFactor::SF5,
            coding_rate: LoraCodingRate::CR4_5,
            low_data_rate_optimization: LoraLdrOptimization::Disabled,
        }
    }
}

/// SX128x LoRa modulation parameters.
#[derive(Clone, PartialEq, Eq, Structural, Debug)]
pub struct ModulationParamsLora8x {
    pub mod_bandwidth: LoraBandwidth8x,
    pub spreading_factor: LoraSpreadingFactor,
    pub coding_rate: LoraCodingRate,
}

impl Default for ModulationParamsLora8x {
    fn default() -> (r: Self)
        ensures
            r == ModulationParamsLora8x::spec_default(),
    {
        ModulationParamsLora8x {
            mod_bandwidth: LoraBandwidth8x::BW200,
            spreading_factor: LoraSpreadingFactor::SF5,
            coding_rate: LoraCodingRate::CR4_5,
        }
    }
}

impl ModulationParamsLora8x {
    pub open spec fn spec_default() -> ModulationParamsLora8x {
        ModulationParamsLora8x {
            mod_bandwidth: LoraBandwidth8x::BW200,
            spreading_factor: LoraSpreadingFactor::SF5,
            coding_rate: LoraCodingRate::CR4_5,
        }
    }
}

/// SX128x only: FLRC modulation parameters.
#[derive(Clone, PartialEq, Eq, Structural, Debug)]
pub struct ModulationParamsFlrc {
    pub bitrate: FlrcBitrate,
    pub coding_rate: FlrcCodingRate,
    pub bt: FlrcBt,
}

impl Default for ModulationParamsFlrc {
    fn default() -> (r: Self)
        ensures
            r == ModulationParamsFlrc::spec_default(),
    {
        ModulationParamsFlrc {
            bitrate: FlrcBitrate::BR1_3,
            coding_rate: FlrcCodingRate::CR1_1,
            bt: FlrcBt::Disabled,
        }
    }
}

impl ModulationParamsFlrc {
    pub open spec fn spec_default() -> ModulationParamsFlrc {
        ModulationParamsFlrc {
            bitrate: FlrcBitrate::BR1_3,
            coding_rate: FlrcCodingRate::CR1_1,
            bt: FlrcBt::Disabled,
        }
    }
}

/// LoRa header mode: explicit (variable length) or implicit (fixed length).
#[derive(Clone, Copy, PartialEq, Eq, Structural, Debug)]
pub enum LoraHeaderType {
    /// Explicit header.
    VariableLength,
    /// Implicit header.
    FixedLength,
}

impl LoraHeaderType {
    pub open spec fn spec_val_6x(self) -> u8 {
        match self {
            LoraHeaderType::VariableLength => 0x00,
            LoraHeaderType::FixedLength => 0x01,
        }
    }

    pub fn val_6x(&self) -> (r: u8)
        ensures
            r == self.spec_val_6x(),
    {
        match self {
            LoraHeaderType::VariableLength => 0x00,
            LoraHeaderType::FixedLength => 0x01,
        }
    }

    pub open spec fn spec_val_8x(self) -> u8 {
        match self {
            LoraHeaderType::VariableLength => 0x00,
            LoraHeaderType::FixedLength => 0x80,
        }
    }

    pub fn val_8x(&self) -> (r: u8)
        ensures
            r == self.spec_val_8x(),
    {
        match self {
            LoraHeaderType::VariableLength => 0x00,
            LoraHeaderType::FixedLength => 0x80,
        }
    }
}

/// SX128x only: FLRC preamble length in bits.
#[derive(Clone, Copy, PartialEq, Eq, Structural, Debug)]
pub enum FlrcPreambleLen {
    P8,
    P12,
    P16,
    P20,
    P24,
    P28,
    P32,
}

impl FlrcPreambleLen {
    pub open spec fn spec_val(self) -> u8 {
        match self {
            FlrcPreambleLen::P8 => 0x10,
            FlrcPreambleLen::P12 => 0x20,
            FlrcPreambleLen::P16 => 0x30,
            FlrcPreambleLen::P20 => 0x40,
            FlrcPreambleLen::P24 => 0x50,
            FlrcPreambleLen::P28 => 0x60,
            FlrcPreambleLen::P32 => 0x70,
        }
    }

    pub fn val(&self) -> (r: u8)
        ensures
            r == self.spec_val(),
    {
        match self {
            FlrcPreambleLen::P8 => 0x10,
            FlrcPreambleLen::P12 => 0x20,
            FlrcPreambleLen::P16 => 0x30,
            FlrcPreambleLen::P20 => 0x40,
            FlrcPreambleLen::P24 => 0x50,
            FlrcPreambleLen::P28 => 0x60,
            FlrcPreambleLen::P32 => 0x70,
        }
    }
}

/// SX128x only: FLRC sync-word length.
#[derive(Clone, Copy, PartialEq, Eq, Structural, Debug)]
pub enum FlrcSyncWordLen {
    /// 21-bit preamble only.
    NoSync,
    /// 21-bit preamble plus a 32-bit sync word.
    P32,
}

impl FlrcSyncWordLen {
    pub open spec fn spec_val(self) -> u8 {
        match self {
            FlrcSyncWordLen::NoSync => 0x00,
            FlrcSyncWordLen::P32 => 0x04,
        }
    }

    pub fn val(&self) -> (r: u8)
        ensures
            r == self.spec_val(),
    {
        match self {
            FlrcSyncWordLen::NoSync => 0x00,
            FlrcSyncWordLen::P32 => 0x04,
        }
    }
}

/// SX128x only: which sync-word correlators match a packet.
#[derive(Clone, Copy, PartialEq, Eq, Structural, Debug)]
pub enum FlrcSyncWordCombo {
    Disabled,
    SyncWord1,
    SyncWord2,
    SyncWord1Or2,
    SyncWord3,
    SyncWord1Or3,
    SyncWord2Or3,
    SyncWord1Or2Or3,
}

impl FlrcSyncWordCombo {
    pub open spec fn spec_val(self) -> u8 {
        match self {
            FlrcSyncWordCombo::Disabled => 0x00,
            FlrcSyncWordCombo::SyncWord1 => 0x10,
            FlrcSyncWordCombo::SyncWord2 => 0x20,
            FlrcSyncWordCombo::SyncWord1Or2 => 0x30,
            FlrcSyncWordCombo::SyncWord3 => 0x40,
            FlrcSyncWordCombo::SyncWord1Or3 => 0x50,
            FlrcSyncWordCombo::SyncWord2Or3 => 0x60,
            FlrcSyncWordCombo::SyncWord1Or2Or3 => 0x70,
        }
    }

    pub fn val(&self) -> (r: u8)
        ensures
            r == self.spec_val(),
    {
        match self {
            FlrcSyncWordCombo::Disabled => 0x00,
            FlrcSyncWordCombo::SyncWord1 => 0x10,
            FlrcSyncWordCombo::SyncWord2 => 0x20,
            FlrcSyncWordCombo::SyncWord1Or2 => 0x30,
            FlrcSyncWordCombo::SyncWord3 => 0x40,
            FlrcSyncWordCombo::SyncWord1Or3 => 0x50,
            FlrcSyncWordCombo::SyncWord2Or3 => 0x60,
            FlrcSyncWordCombo::SyncWord1Or2Or3 => 0x70,
        }
    }
}

/// SX128x only: FLRC framing.
#[derive(Clone, Copy, PartialEq, Eq, Structural, Debug)]
pub enum FlrcPacketType {
    LenFixed,
    LenVariable,
}

impl FlrcPacketType {
    pub open spec fn spec_val(self) -> u8 {
        match self {
            FlrcPacketType::LenFixed => 0x00,
            FlrcPacketType::LenVariable => 0x20,
        }
    }

    pub fn val(&self) -> (r: u8)
        ensures
            r == self.spec_val(),
    {
        match self {
            FlrcPacketType::LenFixed => 0x00,
            FlrcPacketType::LenVariable => 0x20,
        }
    }
}

/// SX128x only: FLRC CRC width.
#[derive(Clone, Copy, PartialEq, Eq, Structural, Debug)]
pub enum FlrcCrc {
    CrcOff,
    Crc2Byte,
    Crc3Byte,
    Crc4Byte,
}

impl FlrcCrc {
    pub open spec fn spec_val(self) -> u8 {
        match self {
            FlrcCrc::CrcOff => 0x00,
            FlrcCrc::Crc2Byte => 0x10,
            FlrcCrc::Crc3Byte => 0x20,
            FlrcCrc::Crc4Byte => 0x30,
        }
    }

    pub fn val(&self) -> (r: u8)
        ensures
            r == self.spec_val(),
    {
        match self {
            FlrcCrc::CrcOff => 0x00,
            FlrcCrc::Crc2Byte => 0x10,
            FlrcCrc::Crc3Byte => 0x20,
            FlrcCrc::Crc4Byte => 0x30,
        }
    }
}

/// Whether the LoRa payload CRC is enabled.
#[derive(Clone, Copy, PartialEq, Eq, Structural, Debug)]
pub enum CrcEnabled {
    Disabled,
    Enabled,
}

impl CrcEnabled {
    pub open spec fn spec_val_6x(self) -> u8 {
        match self {
            CrcEnabled::Disabled => 0,
            CrcEnabled::Enabled => 1,
        }
    }

    pub fn val_6x(&self) -> (r: u8)
        ensures
            r == self.spec_val_6x(),
    {
        match self {
            CrcEnabled::Disabled => 0,
            CrcEnabled::Enabled => 1,
        }
    }

    pub open spec fn spec_val_8x(self) -> u8 {
        match self {
            CrcEnabled::Disabled => 0,
            CrcEnabled::Enabled => 0x20,
        }
    }

    pub fn val_8x(&self) -> (r: u8)
        ensures
            r == self.spec_val_8x(),
    {
        match self {
            CrcEnabled::Disabled => 0,
            CrcEnabled::Enabled => 0x20,
        }
    }
}

/// Whether the LoRa IQ signals are swapped.
#[derive(Clone, Copy, PartialEq, Eq, Structural, Debug)]
pub enum InvertIq {
    Standard,
    Inverted,
}

impl InvertIq {
    pub open spec fn spec_val_6x(self) -> u8 {
        match self {
            InvertIq::Standard => 0,
            InvertIq::Inverted => 1,
        }
    }

    pub fn val_6x(&self) -> (r: u8)
        ensures
            r == self.spec_val_6x(),
    {
        match self {
            InvertIq::Standard => 0,
            InvertIq::Inverted => 1,
        }
    }

    pub open spec fn spec_val_8x(self) -> u8 {
        match self {
            InvertIq::Standard => 0x40,
            InvertIq::Inverted => 0,
        }
    }

    pub fn val_8x(&self) -> (r: u8)
        ensures
            r == self.spec_val_8x(),
    {
        match self {
            InvertIq::Standard => 0x40,
            InvertIq::Inverted => 0,
        }
    }
}

/// SX128x packet parameters, for whichever packet type is active.
#[derive(Clone, PartialEq, Eq, Structural, Debug)]
pub enum PacketParams {
    Lora(PacketParamsLora),
    Flrc(PacketParamsFlrc),
}

impl Default for PacketParams {
    fn default() -> (r: Self)
        ensures
            r == PacketParams::spec_default(),
    {
        PacketParams::Lora(PacketParamsLora::default())
    }
}

impl PacketParams {
    pub open spec fn spec_default() -> PacketParams {
        PacketParams::Lora(PacketParamsLora::spec_default())
    }
}

/// LoRa packet framing parameters.
#[derive(Clone, PartialEq, Eq, Structural, Debug)]
pub struct PacketParamsLora {
    /// Preamble length in symbols. The SX126x takes the range 10 through
    /// 65535 over two raw bytes and rejects anything below 10; the SX128x
    /// packs a mantissa and an exponent into one byte, with the exponent
    /// locked to zero here, which caps the representable lengths.
    pub preamble_len: u16,
    pub header_type: LoraHeaderType,
    /// Payload size in bytes to transmit, or the maximum the receiver
    /// accepts. Overwritten on every send and receive call.
    pub payload_len: u8,
    pub crc_enabled: CrcEnabled,
    pub invert_iq: InvertIq,
}

impl Default for PacketParamsLora {
    fn default() -> (r: Self)
        ensures
            r == PacketParamsLora::spec_default(),
    {
        PacketParamsLora {
            preamble_len: 12,
            header_type: LoraHeaderType::VariableLength,
            payload_len: 0,
            crc_enabled: CrcEnabled::Enabled,
            invert_iq: InvertIq::Standard,
        }
    }
}

impl PacketParamsLora {
    pub open spec fn spec_default() -> PacketParamsLora {
        PacketParamsLora {
            preamble_len: 12,
            header_type: LoraHeaderType::VariableLength,
            payload_len: 0,
            crc_enabled: CrcEnabled::Enabled,
            invert_iq: InvertIq::Standard,
        }
    }
}

/// SX128x only: FLRC packet framing parameters.
#[derive(Clone, PartialEq, Eq, Structural, Debug)]
pub struct PacketParamsFlrc {
    pub preamble_len: FlrcPreambleLen,
    pub sync_word_len: FlrcSyncWordLen,
    pub sync_word_combo: FlrcSyncWordCombo,
    pub packet_type: FlrcPacketType,
    pub payload_len: u8,
    pub crc: FlrcCrc,
}

impl Default for PacketParamsFlrc {
    fn default() -> (r: Self)
        ensures
            r == PacketParamsFlrc::spec_default(),
    {
        PacketParamsFlrc {
            preamble_len: FlrcPreambleLen::P16,
            sync_word_len: FlrcSyncWordLen::NoSync,
            sync_word_combo: FlrcSyncWordCombo::Disabled,
            packet_type: FlrcPacketType::LenVariable,
            payload_len: 0,
            crc: FlrcCrc::CrcOff,
        }
    }
}

impl PacketParamsFlrc {
    pub open spec fn spec_default() -> PacketParamsFlrc {
        PacketParamsFlrc {
            preamble_len: FlrcPreambleLen::P16,
            sync_word_len: FlrcSyncWordLen::NoSync,
            sync_word_combo: FlrcSyncWordCombo::Disabled,
            packet_type: FlrcPacketType::LenVariable,
            payload_len: 0,
            crc: FlrcCrc::CrcOff,
        }
    }
}

} // verus!
