//! Items shared by every part of the driver: the error taxonomy, the opcode
//! table for both chip families, and the register address tables.

use vstd::prelude::*;

use crate::CommandStatus;
use crate::OperatingModeRead;

verus! {

/// Upper bound on busy-line polling iterations before the wait is converted
/// into a `BusyTimeout` error.
pub const MAX_ITERS: u32 = 400_000;

/// Split a 16-bit register address into its two big-endian bytes.
pub fn split_addr(addr: u16) -> (r: (u8, u8))
    ensures
        r.0 == addr / 256,
        r.1 == addr % 256,
{
    ((addr / 256) as u8, (addr % 256) as u8)
}

/// The 16-bit value formed by two big-endian bytes.
pub open spec fn spec_be16(hi: u8, lo: u8) -> u16 {
    ((hi as int) * 256 + (lo as int)) as u16
}

/// Assemble a 16-bit value from its two big-endian bytes.
pub fn be16(hi: u8, lo: u8) -> (r: u16)
    ensures
        r == spec_be16(hi, lo),
{
    (hi as u16) * 256 + (lo as u16)
}

/// Error taxonomy of the driver. Every transaction-layer failure aborts the
/// current operation and is surfaced unchanged; nothing is downgraded to a
/// default value.
#[derive(Clone, Copy, PartialEq, Eq, Debug)]
pub enum RadioError {
    /// Bus transfer failure, including a missing or malformed device reply.
    Spi,
    /// Post-operation state is not one of the expected mode/status pairs.
    Status((OperatingModeRead, CommandStatus)),
    /// The received packet failed its CRC check.
    Crc,
    /// The device error-count register reads nonzero.
    Device,
    /// A caller-supplied parameter violates a documented constraint.
    Config,
    /// The payload exceeds the device buffer; carries the offending length.
    PayloadSize(usize),
    /// The device never released its busy line.
    BusyTimeout,
    /// A status or mode bit field holds a value with no defined mapping.
    UnexpectedStatus(u8),
}

/// One-byte command identifiers. The raw values follow the SX126x command
/// table; the SX128x overrides several of them.
#[derive(Clone, Copy, PartialEq, Eq, Structural, Debug)]
pub enum OpCode {
    GetStatus,
    WriteRegister,
    ReadRegister,
    WriteBuffer,
    ReadBuffer,
    SetSleep,
    SetStandby,
    SetFS,
    SetTx,
    SetRx,
    SetRxDutyCycle,
    SetCAD,
    SetTxContinuousWave,
    SetTxContinuousPremable,
    SetPacketType,
    GetPacketType,
    SetRfFrequency,
    SetTxParams,
    SetPAConfig,
    SetCADParams,
    SetBufferBaseAddress,
    SetModulationParams,
    SetPacketParams,
    GetRxBufferStatus,
    GetPacketStatus,
    GetRSSIInst,
    GetStatistics,
    ResetStats,
    SetDioIrqParams,
    GetIrqStatus,
    ClearIrqStatus,
    Calibrate,
    CalibrateImage,
    SetRegulatorMode,
    GetDeviceErrors,
    ClrErrors,
    SetTCXOMode,
    SetTxFallbackMode,
    SetDIO2AsRfSwitchCtrl,
    SetStopRxTimerOnPreamble,
    SetLoRaSymbTimeout,
    SetSaveContext,
    SetLongPreamble,
    SetRangingRole,
    SetAdvancedRnaging,
}

impl OpCode {
    /// Raw command byte on the SX126x.
    pub open spec fn spec_val_6x(self) -> u8 {
        match self {
            OpCode::GetStatus => 0xc0,
            OpCode::WriteRegister => 0x0d,
            OpCode::ReadRegister => 0x1d,
            OpCode::WriteBuffer => 0x0e,
            OpCode::ReadBuffer => 0x1e,
            OpCode::SetSleep => 0x84,
            OpCode::SetStandby => 0x80,
            OpCode::SetFS => 0xc1,
            OpCode::SetTx => 0x83,
            OpCode::SetRx => 0x82,
            OpCode::SetRxDutyCycle => 0x94,
            OpCode::SetCAD => 0xc5,
            OpCode::SetTxContinuousWave => 0xd1,
            OpCode::SetTxContinuousPremable => 0xd2,
            OpCode::SetPacketType => 0x8a,
            OpCode::GetPacketType => 0x11,
            OpCode::SetRfFrequency => 0x86,
            OpCode::SetTxParams => 0x8e,
            OpCode::SetPAConfig => 0x95,
            OpCode::SetCADParams => 0x88,
            OpCode::SetBufferBaseAddress => 0x8f,
            OpCode::SetModulationParams => 0x8b,
            OpCode::SetPacketParams => 0x8c,
            OpCode::GetRxBufferStatus => 0x13,
            OpCode::GetPacketStatus => 0x14,
            OpCode::GetRSSIInst => 0x15,
            OpCode::GetStatistics => 0x10,
            OpCode::ResetStats => 0x00,
            OpCode::SetDioIrqParams => 0x08,
            OpCode::GetIrqStatus => 0x12,
            OpCode::ClearIrqStatus => 0x02,
            OpCode::Calibrate => 0x89,
            OpCode::CalibrateImage => 0x98,
            OpCode::SetRegulatorMode => 0x96,
            OpCode::GetDeviceErrors => 0x17,
            OpCode::ClrErrors => 0x07,
            OpCode::SetTCXOMode => 0x97,
            OpCode::SetTxFallbackMode => 0x93,
            OpCode::SetDIO2AsRfSwitchCtrl => 0x9d,
            OpCode::SetStopRxTimerOnPreamble => 0x9f,
            OpCode::SetLoRaSymbTimeout => 0xa0,
            OpCode::SetSaveContext => 0xd5,
            OpCode::SetLongPreamble => 0x9b,
            OpCode::SetRangingRole => 0xa3,
            OpCode::SetAdvancedRnaging => 0x91,
        }
    }

    pub fn val_6x(&self) -> (r: u8)
        ensures
            r == self.spec_val_6x(),
    {
        match self {
            OpCode::GetStatus => 0xc0,
            OpCode::WriteRegister => 0x0d,
            OpCode::ReadRegister => 0x1d,
            OpCode::WriteBuffer => 0x0e,
            OpCode::ReadBuffer => 0x1e,
            OpCode::SetSleep => 0x84,
            OpCode::SetStandby => 0x80,
            OpCode::SetFS => 0xc1,
            OpCode::SetTx => 0x83,
            OpCode::SetRx => 0x82,
            OpCode::SetRxDutyCycle => 0x94,
            OpCode::SetCAD => 0xc5,
            OpCode::SetTxContinuousWave => 0xd1,
            OpCode::SetTxContinuousPremable => 0xd2,
            OpCode::SetPacketType => 0x8a,
            OpCode::GetPacketType => 0x11,
            OpCode::SetRfFrequency => 0x86,
            OpCode::SetTxParams => 0x8e,
            OpCode::SetPAConfig => 0x95,
            OpCode::SetCADParams => 0x88,
            OpCode::SetBufferBaseAddress => 0x8f,
            OpCode::SetModulationParams => 0x8b,
            OpCode::SetPacketParams => 0x8c,
            OpCode::GetRxBufferStatus => 0x13,
            OpCode::GetPacketStatus => 0x14,
            OpCode::GetRSSIInst => 0x15,
            OpCode::GetStatistics => 0x10,
            OpCode::ResetStats => 0x00,
            OpCode::SetDioIrqParams => 0x08,
            OpCode::GetIrqStatus => 0x12,
            OpCode::ClearIrqStatus => 0x02,
            OpCode::Calibrate => 0x89,
            OpCode::CalibrateImage => 0x98,
            OpCode::SetRegulatorMode => 0x96,
            OpCode::GetDeviceErrors => 0x17,
            OpCode::ClrErrors => 0x07,
            OpCode::SetTCXOMode => 0x97,
            OpCode::SetTxFallbackMode => 0x93,
            OpCode::SetDIO2AsRfSwitchCtrl => 0x9d,
            OpCode::SetStopRxTimerOnPreamble => 0x9f,
            OpCode::SetLoRaSymbTimeout => 0xa0,
            OpCode::SetSaveContext => 0xd5,
            OpCode::SetLongPreamble => 0x9b,
            OpCode::SetRangingRole => 0xa3,
            OpCode::SetAdvancedRnaging => 0x91,
        }
    }

    /// Raw command byte on the SX128x, where it differs from the SX126x.
    pub open spec fn spec_val_8x(self) -> u8 {
        match self {
            OpCode::WriteRegister => 0x18,
            OpCode::ReadRegister => 0x19,
            OpCode::WriteBuffer => 0x1a,
            OpCode::ReadBuffer => 0x1b,
            OpCode::GetPacketType => 0x03,
            OpCode::GetRxBufferStatus => 0x17,
            OpCode::GetPacketStatus => 0x1d,
            OpCode::GetRSSIInst => 0x1f,
            OpCode::SetDioIrqParams => 0x8d,
            OpCode::GetIrqStatus => 0x15,
            OpCode::ClearIrqStatus => 0x97,
            _ => self.spec_val_6x(),
        }
    }

    pub fn val_8x(&self) -> (r: u8)
        ensures
            r == self.spec_val_8x(),
    {
        match self {
            OpCode::WriteRegister => 0x18,
            OpCode::ReadRegister => 0x19,
            OpCode::WriteBuffer => 0x1a,
            OpCode::ReadBuffer => 0x1b,
            OpCode::GetPacketType => 0x03,
            OpCode::GetRxBufferStatus => 0x17,
            OpCode::GetPacketStatus => 0x1d,
            OpCode::GetRSSIInst => 0x1f,
            OpCode::SetDioIrqParams => 0x8d,
            OpCode::GetIrqStatus => 0x15,
            OpCode::ClearIrqStatus => 0x97,
            _ => self.val_6x(),
        }
    }

    /// Raw command byte for the active chip family.
    pub open spec fn spec_val(self, r8x: bool) -> u8 {
        if r8x {
            self.spec_val_8x()
        } else {
            self.spec_val_6x()
        }
    }

    pub fn val(&self, r8x: bool) -> (r: u8)
        ensures
            r == self.spec_val(r8x),
    {
        if r8x {
            self.val_8x()
        } else {
            self.val_6x()
        }
    }
}

/// A register address on whichever chip family is active.
#[derive(Clone, Copy, PartialEq, Eq, Structural, Debug)]
pub enum Register {
    Reg6x(Register6x),
    Reg8x(Register8x),
}

impl Register {
    pub open spec fn spec_addr(self) -> u16 {
        match self {
            Register::Reg6x(reg) => reg.spec_addr(),
            Register::Reg8x(reg) => reg.spec_addr(),
        }
    }

    pub fn addr(&self) -> (r: u16)
        ensures
            r == self.spec_addr(),
    {
        match self {
            Register::Reg6x(reg) => reg.addr(),
            Register::Reg8x(reg) => reg.addr(),
        }
    }
}

/// SX126x register addresses.
#[derive(Clone, Copy, PartialEq, Eq, Structural, Debug)]
pub enum Register6x {
    HoppingEnabled,
    PacketLength,
    NbHoppingBLocks,
    NbSymbols0,
    NbSymbols0b,
    Freq0a,
    Freq0b,
    Freq0c,
    Freq0d,
    DioxOutputEnable,
    DioxInputEnable,
    DioxPullUpControl,
    DioxPullDownControl,
    WhiteningInitialValueMsb,
    WhiteningInitialValueLsb,
    CrcMsbInitialValue0,
    CrcMsbInitialValue1,
    CrcMsbPolynomialValue0,
    CrcLsbPolynomialValue1,
    SyncWord0,
    SyncWord1,
    SyncWord2,
    SyncWord3,
    SyncWord4,
    SyncWord5,
    SyncWord6,
    SyncWord7,
    NodeAddress,
    BroadcastAddress,
    IqPolaritySetup,
    LoraSyncWordMsb,
    LoraSyncWordLsb,
    RandomNumGen0,
    RandomNumGen1,
    RandomNumGen2,
    RandomNumGen3,
    TxModulation,
    RxGain,
    TxClampConfig,
    OcpConfiguration,
    RtcControl,
    XtaTrim,
    XtbTrim,
    Dio3OutputVoltageControl,
    EventMask,
    RxGainRetention0,
    RxGainRetention1,
    RxGainRetention2,
}

impl Register6x {
    pub open spec fn spec_addr(self) -> u16 {
        match self {
            Register6x::HoppingEnabled => 0x0385,
            Register6x::PacketLength => 0x0386,
            Register6x::NbHoppingBLocks => 0x0387,
            Register6x::NbSymbols0 => 0x0388,
            Register6x::NbSymbols0b => 0x0389,
            Register6x::Freq0a => 0x038a,
            Register6x::Freq0b => 0x038b,
            Register6x::Freq0c => 0x038c,
            Register6x::Freq0d => 0x038d,
            Register6x::DioxOutputEnable => 0x0580,
            Register6x::DioxInputEnable => 0x0583,
            Register6x::DioxPullUpControl => 0x0584,
            Register6x::DioxPullDownControl => 0x0585,
            Register6x::WhiteningInitialValueMsb => 0x06b8,
            Register6x::WhiteningInitialValueLsb => 0x06b9,
            Register6x::CrcMsbInitialValue0 => 0x06bc,
            Register6x::CrcMsbInitialValue1 => 0x06bd,
            Register6x::CrcMsbPolynomialValue0 => 0x06be,
            Register6x::CrcLsbPolynomialValue1 => 0x06bf,
            Register6x::SyncWord0 => 0x06c0,
            Register6x::SyncWord1 => 0x06c1,
            Register6x::SyncWord2 => 0x06c2,
            Register6x::SyncWord3 => 0x06c3,
            Register6x::SyncWord4 => 0x06c4,
            Register6x::SyncWord5 => 0x06c5,
            Register6x::SyncWord6 => 0x06c6,
            Register6x::SyncWord7 => 0x06c7,
            Register6x::NodeAddress => 0x06cd,
            Register6x::BroadcastAddress => 0x06ce,
            Register6x::IqPolaritySetup => 0x0736,
            Register6x::LoraSyncWordMsb => 0x0740,
            Register6x::LoraSyncWordLsb => 0x0741,
            Register6x::RandomNumGen0 => 0x0819,
            Register6x::RandomNumGen1 => 0x081a,
            Register6x::RandomNumGen2 => 0x081b,
            Register6x::RandomNumGen3 => 0x081c,
            Register6x::TxModulation => 0x0889,
            Register6x::RxGain => 0x08ac,
            Register6x::TxClampConfig => 0x08d8,
            Register6x::OcpConfiguration => 0x08e7,
            Register6x::RtcControl => 0x0902,
            Register6x::XtaTrim => 0x0911,
            Register6x::XtbTrim => 0x0912,
            Register6x::Dio3OutputVoltageControl => 0x0920,
            Register6x::EventMask => 0x0944,
            Register6x::RxGainRetention0 => 0x029f,
            Register6x::RxGainRetention1 => 0x02a0,
            Register6x::RxGainRetention2 => 0x02a1,
        }
    }

    pub fn addr(&self) -> (r: u16)
        ensures
            r == self.spec_addr(),
    {
        match self {
            Register6x::HoppingEnabled => 0x0385,
            Register6x::PacketLength => 0x0386,
            Register6x::NbHoppingBLocks => 0x0387,
            Register6x::NbSymbols0 => 0x0388,
            Register6x::NbSymbols0b => 0x0389,
            Register6x::Freq0a => 0x038a,
            Register6x::Freq0b => 0x038b,
            Register6x::Freq0c => 0x038c,
            Register6x::Freq0d => 0x038d,
            Register6x::DioxOutputEnable => 0x0580,
            Register6x::DioxInputEnable => 0x0583,
            Register6x::DioxPullUpControl => 0x0584,
            Register6x::DioxPullDownControl => 0x0585,
            Register6x::WhiteningInitialValueMsb => 0x06b8,
            Register6x::WhiteningInitialValueLsb => 0x06b9,
            Register6x::CrcMsbInitialValue0 => 0x06bc,
            Register6x::CrcMsbInitialValue1 => 0x06bd,
            Register6x::CrcMsbPolynomialValue0 => 0x06be,
            Register6x::CrcLsbPolynomialValue1 => 0x06bf,
            Register6x::SyncWord0 => 0x06c0,
            Register6x::SyncWord1 => 0x06c1,
            Register6x::SyncWord2 => 0x06c2,
            Register6x::SyncWord3 => 0x06c3,
            Register6x::SyncWord4 => 0x06c4,
            Register6x::SyncWord5 => 0x06c5,
            Register6x::SyncWord6 => 0x06c6,
            Register6x::SyncWord7 => 0x06c7,
            Register6x::NodeAddress => 0x06cd,
            Register6x::BroadcastAddress => 0x06ce,
            Register6x::IqPolaritySetup => 0x0736,
            Register6x::LoraSyncWordMsb => 0x0740,
            Register6x::LoraSyncWordLsb => 0x0741,
            Register6x::RandomNumGen0 => 0x0819,
            Register6x::RandomNumGen1 => 0x081a,
            Register6x::RandomNumGen2 => 0x081b,
            Register6x::RandomNumGen3 => 0x081c,
            Register6x::TxModulation => 0x0889,
            Register6x::RxGain => 0x08ac,
            Register6x::TxClampConfig => 0x08d8,
            Register6x::OcpConfiguration => 0x08e7,
            Register6x::RtcControl => 0x0902,
            Register6x::XtaTrim => 0x0911,
            Register6x::XtbTrim => 0x0912,
            Register6x::Dio3OutputVoltageControl => 0x0920,
            Register6x::EventMask => 0x0944,
            Register6x::RxGainRetention0 => 0x029f,
            Register6x::RxGainRetention1 => 0x02a0,
            Register6x::RxGainRetention2 => 0x02a1,
        }
    }
}

/// SX128x register addresses.
#[derive(Clone, Copy, PartialEq, Eq, Structural, Debug)]
pub enum Register8x {
    RxGain,
    ManualGainSetting,
    LnaGainValue,
    LnaGainControl,
    SynchPeakAttenuation,
    PayloadLength,
    LoraHeaderMode,
    RangingRequestAddressByte3,
    RangingRequestAddressByte2,
    RangingRequestAddressByte1,
    RangingRequestAddressByte0,
    RangingDeviceAddressByte3,
    RangingDeviceAddressByte2,
    RangingDeviceAddressByte1,
    RangingDeviceAddressByte0,
    RangingFilterWindowSize,
    ResetRangingFilter,
    RangingResultMux,
    SfAdditionalConfiguration,
    FrequencyErrorCorrection,
    LoraSynchWordA,
    LoraSynchWordB,
    FeiByte2,
    FeiByte1,
    FeiByte0,
    PacketPreambleSettings,
    WhiteningInitialValue,
    CrcPolynomialDefinitionMsb,
    CrcPolynomialDefinitionLsb,
    SynchAddressControl,
    SyncAddress1Byte4,
    SyncAddress1Byte3,
    SyncAddress1Byte2,
    SyncAddress1Byte1,
    SyncAddress1Byte0,
    SyncAddress2Byte4,
    SyncAddress2Byte3,
    SyncAddress2Byte2,
    SyncAddress2Byte1,
    SyncAddress2Byte0,
    SyncAddress3Byte4,
    SyncAddress3Byte3,
    SyncAddress3Byte2,
    SyncAddress3Byte1,
    SyncAddress3Byte0,
}

impl Register8x {
    pub open spec fn spec_addr(self) -> u16 {
        match self {
            Register8x::RxGain => 0x0891,
            Register8x::ManualGainSetting => 0x0895,
            Register8x::LnaGainValue => 0x089e,
            Register8x::LnaGainControl => 0x089f,
            Register8x::SynchPeakAttenuation => 0x08c2,
            Register8x::PayloadLength => 0x0901,
            Register8x::LoraHeaderMode => 0x0903,
            Register8x::RangingRequestAddressByte3 => 0x0912,
            Register8x::RangingRequestAddressByte2 => 0x0913,
            Register8x::RangingRequestAddressByte1 => 0x0914,
            Register8x::RangingRequestAddressByte0 => 0x0915,
            Register8x::RangingDeviceAddressByte3 => 0x0916,
            Register8x::RangingDeviceAddressByte2 => 0x0917,
            Register8x::RangingDeviceAddressByte1 => 0x0918,
            Register8x::RangingDeviceAddressByte0 => 0x0919,
            Register8x::RangingFilterWindowSize => 0x091e,
            Register8x::ResetRangingFilter => 0x0923,
            Register8x::RangingResultMux => 0x0924,
            Register8x::SfAdditionalConfiguration => 0x0925,
            Register8x::FrequencyErrorCorrection => 0x093c,
            Register8x::LoraSynchWordA => 0x0944,
            Register8x::LoraSynchWordB => 0x0945,
            Register8x::FeiByte2 => 0x0954,
            Register8x::FeiByte1 => 0x0955,
            Register8x::FeiByte0 => 0x0956,
            Register8x::PacketPreambleSettings => 0x09c1,
            Register8x::WhiteningInitialValue => 0x09c5,
            Register8x::CrcPolynomialDefinitionMsb => 0x09c6,
            Register8x::CrcPolynomialDefinitionLsb => 0x09c7,
            Register8x::SynchAddressControl => 0x09cd,
            Register8x::SyncAddress1Byte4 => 0x09ce,
            Register8x::SyncAddress1Byte3 => 0x09cf,
            Register8x::SyncAddress1Byte2 => 0x09d0,
            Register8x::SyncAddress1Byte1 => 0x09d1,
            Register8x::SyncAddress1Byte0 => 0x09d2,
            Register8x::SyncAddress2Byte4 => 0x09c3,
            Register8x::SyncAddress2Byte3 => 0x09c4,
            Register8x::SyncAddress2Byte2 => 0x09d5,
            Register8x::SyncAddress2Byte1 => 0x09d6,
            Register8x::SyncAddress2Byte0 => 0x09d7,
            Register8x::SyncAddress3Byte4 => 0x09c8,
            Register8x::SyncAddress3Byte3 => 0x09c9,
            Register8x::SyncAddress3Byte2 => 0x09da,
            Register8x::SyncAddress3Byte1 => 0x09db,
            Register8x::SyncAddress3Byte0 => 0x09dc,
        }
    }

    pub fn addr(&self) -> (r: u16)
        ensures
            r == self.spec_addr(),
    {
        match self {
            Register8x::RxGain => 0x0891,
            Register8x::ManualGainSetting => 0x0895,
            Register8x::LnaGainValue => 0x089e,
            Register8x::LnaGainControl => 0x089f,
            Register8x::SynchPeakAttenuation => 0x08c2,
            Register8x::PayloadLength => 0x0901,
            Register8x::LoraHeaderMode => 0x0903,
            Register8x::RangingRequestAddressByte3 => 0x0912,
            Register8x::RangingRequestAddressByte2 => 0x0913,
            Register8x::RangingRequestAddressByte1 => 0x0914,
            Register8x::RangingRequestAddressByte0 => 0x0915,
            Register8x::RangingDeviceAddressByte3 => 0x0916,
            Register8x::RangingDeviceAddressByte2 => 0x0917,
            Register8x::RangingDeviceAddressByte1 => 0x0918,
            Register8x::RangingDeviceAddressByte0 => 0x0919,
            Register8x::RangingFilterWindowSize => 0x091e,
            Register8x::ResetRangingFilter => 0x0923,
            Register8x::RangingResultMux => 0x0924,
            Register8x::SfAdditionalConfiguration => 0x0925,
            Register8x::FrequencyErrorCorrection => 0x093c,
            Register8x::LoraSynchWordA => 0x0944,
            Register8x::LoraSynchWordB => 0x0945,
            Register8x::FeiByte2 => 0x0954,
            Register8x::FeiByte1 => 0x0955,
            Register8x::FeiByte0 => 0x0956,
            Register8x::PacketPreambleSettings => 0x09c1,
            Register8x::WhiteningInitialValue => 0x09c5,
            Register8x::CrcPolynomialDefinitionMsb => 0x09c6,
            Register8x::CrcPolynomialDefinitionLsb => 0x09c7,
            Register8x::SynchAddressControl => 0x09cd,
            Register8x::SyncAddress1Byte4 => 0x09ce,
            Register8x::SyncAddress1Byte3 => 0x09cf,
            Register8x::SyncAddress1Byte2 => 0x09d0,
            Register8x::SyncAddress1Byte1 => 0x09d1,
            Register8x::SyncAddress1Byte0 => 0x09d2,
            Register8x::SyncAddress2Byte4 => 0x09c3,
            Register8x::SyncAddress2Byte3 => 0x09c4,
            Register8x::SyncAddress2Byte2 => 0x09d5,
            Register8x::SyncAddress2Byte1 => 0x09d6,
            Register8x::SyncAddress2Byte0 => 0x09d7,
            Register8x::SyncAddress3Byte4 => 0x09c8,
            Register8x::SyncAddress3Byte3 => 0x09c9,
            Register8x::SyncAddress3Byte2 => 0x09da,
            Register8x::SyncAddress3Byte1 => 0x09db,
            Register8x::SyncAddress3Byte0 => 0x09dc,
        }
    }
}

} // verus!
