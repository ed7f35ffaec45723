//! Configuration commands: frequency, modulation, packet framing, power
//! amplifier, transmit power and operating mode, with the numeric encodings
//! each chip family expects.
//!
//! Frequency is encoded as the nearest multiple of the family's PLL step,
//! `crystal_Hz / 2^N` with `N` 25 on the SX126x (32 MHz crystal) and 18 on
//! the SX128x (52 MHz crystal); all arithmetic is 64-bit integer. Timing
//! durations convert to a 24-bit count of 15.625 µs periods, that is 64
//! counts per millisecond, saturating at the field width; the all-ones
//! saturation value is the device's continuous-mode sentinel, passed through
//! rather than special-cased.

use vstd::arithmetic::div_mod::{
    lemma_div_is_ordered, lemma_div_multiples_vanish_fancy, lemma_fundamental_div_mod,
    lemma_mod_division_less_than_divisor,
};
use vstd::prelude::*;

use crate::params::{ModulationParams8x, ModulationParamsFlrc, ModulationParamsLora6x,
    ModulationParamsLora8x, PacketParams, PacketParamsFlrc, PacketParamsLora};
use crate::shared::{OpCode, RadioError, Register, Register8x};
use crate::spi_interface::{op_word_frame, reg_write_frame, BusOpKind, Interface};
use crate::{OperatingMode, Radio, RadioConfig};

verus! {

/// SX126x crystal frequency in Hz.
pub const F_XTAL_6X: u32 = 32_000_000;

/// SX128x crystal frequency in Hz.
pub const F_XTAL_8X: u32 = 52_000_000;

/// SX126x raw frequency word: the nearest multiple of the PLL step
/// 32 MHz / 2^25, i.e. round(hz * 2^25 / 32e6).
pub open spec fn spec_freq_raw_6x(hz: int) -> int {
    (hz * 0x2000000 + 16_000_000) / 32_000_000
}

/// Frequency in Hz a SX126x raw word stands for: round(raw * 32e6 / 2^25).
pub open spec fn spec_hz_of_raw_6x(raw: int) -> int {
    (raw * 32_000_000 + 0x1000000) / 0x2000000
}

/// SX128x raw frequency word: the nearest multiple of the PLL step
/// 52 MHz / 2^18, i.e. round(hz * 2^18 / 52e6).
pub open spec fn spec_freq_raw_8x(hz: int) -> int {
    (hz * 0x40000 + 26_000_000) / 52_000_000
}

/// Frequency in Hz a SX128x raw word stands for: round(raw * 52e6 / 2^18).
pub open spec fn spec_hz_of_raw_8x(raw: int) -> int {
    (raw * 52_000_000 + 0x20000) / 0x40000
}

/// Encoding a decoded raw word gives the word back to within one least
/// significant bit: the SX126x step (≈0.95 Hz) is finer than a hertz, so
/// rounding to whole hertz and back can move the word by at most one.
pub proof fn lemma_freq_round_trip_6x(raw: int)
    requires
        0 <= raw,
    ensures
        raw - 1 <= spec_freq_raw_6x(spec_hz_of_raw_6x(raw)),
        spec_freq_raw_6x(spec_hz_of_raw_6x(raw)) <= raw + 1,
{
    let f: int = 32_000_000;
    let s: int = 0x2000000;
    let hz = spec_hz_of_raw_6x(raw);
    lemma_fundamental_div_mod(raw * f + 0x1000000, s);
    lemma_mod_division_less_than_divisor(raw * f + 0x1000000, s);
    let rem = (raw * f + 0x1000000) % s;
    assert(s * hz == raw * f + 0x1000000 - rem);
    // Upper bound: the numerator is at most f*(raw+1) + 777_216.
    assert(hz * s + 16_000_000 <= f * (raw + 1) + 777_216);
    lemma_div_is_ordered(hz * s + 16_000_000, f * (raw + 1) + 777_216, f);
    lemma_div_multiples_vanish_fancy(raw + 1, 777_216, f);
    // Lower bound: the numerator is at least f*(raw-1) + 31_222_785.
    assert(hz * s + 16_000_000 >= f * (raw - 1) + 31_222_785);
    lemma_div_is_ordered(f * (raw - 1) + 31_222_785, hz * s + 16_000_000, f);
    lemma_div_multiples_vanish_fancy(raw - 1, 31_222_785, f);
}

/// Encoding a decoded raw word gives the word back exactly: the SX128x step
/// (≈198 Hz) is far coarser than a hertz, so the nearest whole hertz still
/// rounds back to the same word.
pub proof fn lemma_freq_round_trip_8x(raw: int)
    requires
        0 <= raw,
    ensures
        spec_freq_raw_8x(spec_hz_of_raw_8x(raw)) == raw,
{
    let f: int = 52_000_000;
    let s: int = 0x40000;
    let hz = spec_hz_of_raw_8x(raw);
    lemma_fundamental_div_mod(raw * f + 0x20000, s);
    lemma_mod_division_less_than_divisor(raw * f + 0x20000, s);
    let rem = (raw * f + 0x20000) % s;
    assert(s * hz == raw * f + 0x20000 - rem);
    assert(hz * s + 26_000_000 <= f * raw + 26_131_072);
    lemma_div_is_ordered(hz * s + 26_000_000, f * raw + 26_131_072, f);
    lemma_div_multiples_vanish_fancy(raw, 26_131_072, f);
    assert(hz * s + 26_000_000 >= f * raw + 25_868_929);
    lemma_div_is_ordered(f * raw + 25_868_929, hz * s + 26_000_000, f);
    lemma_div_multiples_vanish_fancy(raw, 25_868_929, f);
}

/// Compute the SX126x raw frequency word.
pub fn freq_raw_6x(hz: u32) -> (r: u32)
    requires
        hz <= crate::FREQ_MAX_6X,
    ensures
        r == spec_freq_raw_6x(hz as int),
{
    let num: u64 = (hz as u64) * 0x2000000 + 16_000_000;
    proof {
        lemma_div_is_ordered(num as int, 137_438_919_933_568_000, 32_000_000);
    }
    (num / 32_000_000) as u32
}

/// Frequency in Hz a SX126x raw word stands for.
pub fn freq_from_raw_6x(raw: u32) -> (r: u32)
    ensures
        r == spec_hz_of_raw_6x(raw as int),
{
    let num: u64 = (raw as u64) * 32_000_000 + 0x1000000;
    proof {
        lemma_div_is_ordered(num as int, 137_438_953_457_777_216, 0x2000000);
    }
    (num / 0x2000000) as u32
}

/// Compute the SX128x raw frequency word; it fits the 24-bit field.
pub fn freq_raw_8x(hz: u32) -> (r: u32)
    requires
        hz <= crate::FREQ_MAX_8X,
    ensures
        r == spec_freq_raw_8x(hz as int),
        r <= 0xffffff,
{
    let num: u64 = (hz as u64) * 0x40000 + 26_000_000;
    proof {
        lemma_div_is_ordered(num as int, 872_414_957_338_544_000, 52_000_000);
    }
    (num / 52_000_000) as u32
}

/// Frequency in Hz a SX128x raw word stands for.
pub fn freq_from_raw_8x(raw: u32) -> (r: u32)
    requires
        raw <= 0xffffff,
    ensures
        r == spec_hz_of_raw_8x(raw as int),
{
    let num: u64 = (raw as u64) * 52_000_000 + 0x20000;
    proof {
        lemma_div_is_ordered(num as int, 872_415_180_131_072, 0x40000);
    }
    (num / 0x40000) as u32
}

/// The 24-bit timing count for a duration in ms: 64 counts per millisecond,
/// saturating at the field's all-ones value, which the device takes as its
/// continuous-mode sentinel.
pub open spec fn spec_time_count_6x(ms: u32) -> int {
    if ms as int * 64 > 0xffffff {
        0xffffff
    } else {
        ms as int * 64
    }
}

/// The three big-endian bytes of the 24-bit timing count.
pub open spec fn spec_time_bytes_6x(ms: u32) -> Seq<u8> {
    let c = spec_time_count_6x(ms);
    seq![((c / 0x10000) % 256) as u8, ((c / 0x100) % 256) as u8, (c % 256) as u8]
}

/// The 16-bit timing count the SX128x takes behind a period-base byte,
/// saturating at the field's all-ones value. The period base is held at the
/// same 15.625 µs the SX126x uses.
pub open spec fn spec_time_count_8x(ms: u32) -> int {
    if ms as int * 64 > 0xffff {
        0xffff
    } else {
        ms as int * 64
    }
}

/// Period-base byte (zero selects 15.625 µs) followed by the two big-endian
/// bytes of the 16-bit count.
pub open spec fn spec_time_bytes_8x(ms: u32) -> Seq<u8> {
    let c = spec_time_count_8x(ms);
    seq![0u8, ((c / 0x100) % 256) as u8, (c % 256) as u8]
}

/// The timing count never decreases as the duration grows.
pub proof fn lemma_time_count_monotonic_6x(ms1: u32, ms2: u32)
    requires
        ms1 <= ms2,
    ensures
        spec_time_count_6x(ms1) <= spec_time_count_6x(ms2),
{
}

/// The timing count never decreases as the duration grows.
pub proof fn lemma_time_count_monotonic_8x(ms1: u32, ms2: u32)
    requires
        ms1 <= ms2,
    ensures
        spec_time_count_8x(ms1) <= spec_time_count_8x(ms2),
{
}

/// The 24-bit value a big-endian byte triple stands for.
pub open spec fn spec_be24(b: Seq<u8>) -> int {
    b[0] * 0x10000 + b[1] * 0x100 + b[2]
}

/// The three timing bytes reassemble to exactly the timing count: the
/// encoding loses nothing, so it is as monotonic as the count itself.
pub proof fn lemma_time_bytes_assemble_6x(ms: u32)
    ensures
        spec_be24(spec_time_bytes_6x(ms)) == spec_time_count_6x(ms),
{
    let c = spec_time_count_6x(ms);
    assert(0 <= c <= 0xffffff);
    let cu = c as u32;
    assert(((cu / 0x10000) % 256) * 0x10000 + ((cu / 0x100) % 256) * 0x100 + cu % 256 == cu)
        by (bit_vector)
        requires
            cu <= 0xffffff,
    ;
}

/// The three timing bytes reassemble to exactly the timing count behind
/// the zero period-base byte.
pub proof fn lemma_time_bytes_assemble_8x(ms: u32)
    ensures
        spec_be24(spec_time_bytes_8x(ms)) == spec_time_count_8x(ms),
{
    let c = spec_time_count_8x(ms);
    assert(0 <= c <= 0xffff);
    let cu = c as u32;
    assert(((cu / 0x100) % 256) * 0x100 + cu % 256 == cu)
        by (bit_vector)
        requires
            cu <= 0xffff,
    ;
}

/// The timing encoding is monotonic, non-decreasing in the duration: a
/// longer duration never encodes to a smaller 24-bit timing word.
pub proof fn lemma_time_encoding_monotonic_6x(ms1: u32, ms2: u32)
    requires
        ms1 <= ms2,
    ensures
        spec_be24(spec_time_bytes_6x(ms1)) <= spec_be24(spec_time_bytes_6x(ms2)),
{
    lemma_time_bytes_assemble_6x(ms1);
    lemma_time_bytes_assemble_6x(ms2);
    lemma_time_count_monotonic_6x(ms1, ms2);
}

/// The timing encoding is monotonic, non-decreasing in the duration.
pub proof fn lemma_time_encoding_monotonic_8x(ms1: u32, ms2: u32)
    requires
        ms1 <= ms2,
    ensures
        spec_be24(spec_time_bytes_8x(ms1)) <= spec_be24(spec_time_bytes_8x(ms2)),
{
    lemma_time_bytes_assemble_8x(ms1);
    lemma_time_bytes_assemble_8x(ms2);
    lemma_time_count_monotonic_8x(ms1, ms2);
}

/// Convert a duration in ms to the three SX126x timing bytes.
pub fn time_bytes_6x(time_ms: u32) -> (r: (u8, u8, u8))
    ensures
        r.0 == spec_time_bytes_6x(time_ms)[0],
        r.1 == spec_time_bytes_6x(time_ms)[1],
        r.2 == spec_time_bytes_6x(time_ms)[2],
{
    let c64: u64 = (time_ms as u64) * 64;
    let count: u32 = if c64 > 0xffffff {
        0xffffff
    } else {
        c64 as u32
    };
    (((count / 0x10000) % 256) as u8, ((count / 0x100) % 256) as u8, (count % 256) as u8)
}

/// Convert a duration in ms to the three SX128x timing bytes.
pub fn time_bytes_8x(time_ms: u32) -> (r: (u8, u8, u8))
    ensures
        r.0 == spec_time_bytes_8x(time_ms)[0],
        r.1 == spec_time_bytes_8x(time_ms)[1],
        r.2 == spec_time_bytes_8x(time_ms)[2],
{
    let c64: u64 = (time_ms as u64) * 64;
    let count: u32 = if c64 > 0xffff {
        0xffff
    } else {
        c64 as u32
    };
    (0, ((count / 0x100) % 256) as u8, (count % 256) as u8)
}

/// The set-RF-frequency command frame for the active family: a 32-bit raw
/// word on the SX126x, a 24-bit one on the SX128x, big-endian.
pub open spec fn rf_freq_frame(config: RadioConfig) -> Seq<u8> {
    match config {
        RadioConfig::R6x(c) => {
            let raw = spec_freq_raw_6x(c.rf_freq as int);
            seq![
                OpCode::SetRfFrequency.spec_val_6x(),
                ((raw / 0x1000000) % 256) as u8,
                ((raw / 0x10000) % 256) as u8,
                ((raw / 0x100) % 256) as u8,
                (raw % 256) as u8,
            ]
        },
        RadioConfig::R8x(c) => {
            let raw = spec_freq_raw_8x(c.rf_freq as int);
            seq![
                OpCode::SetRfFrequency.spec_val_8x(),
                ((raw / 0x10000) % 256) as u8,
                ((raw / 0x100) % 256) as u8,
                (raw % 256) as u8,
            ]
        },
    }
}

/// The SX126x set-modulation-parameters frame: spreading factor, bandwidth,
/// coding rate and low-data-rate optimisation, with four spare parameters.
pub open spec fn mod_params_frame_6x(m: ModulationParamsLora6x) -> Seq<u8> {
    seq![
        OpCode::SetModulationParams.spec_val_6x(),
        m.spreading_factor.spec_val_6x(),
        m.mod_bandwidth.spec_val(),
        m.coding_rate.spec_val(),
        m.low_data_rate_optimization.spec_val(),
        0,
        0,
        0,
        0,
    ]
}

/// The SX128x LoRa set-modulation-parameters frame.
pub open spec fn mod_params_frame_8x_lora(m: ModulationParamsLora8x) -> Seq<u8> {
    seq![
        OpCode::SetModulationParams.spec_val_8x(),
        m.spreading_factor.spec_val_8x(),
        m.mod_bandwidth.spec_val(),
        m.coding_rate.spec_val(),
    ]
}

/// The SX128x FLRC set-modulation-parameters frame.
pub open spec fn mod_params_frame_8x_flrc(m: ModulationParamsFlrc) -> Seq<u8> {
    seq![
        OpCode::SetModulationParams.spec_val_8x(),
        m.bitrate.spec_val(),
        m.coding_rate.spec_val(),
        m.bt.spec_val(),
    ]
}

/// Every bus operation of a set-modulation-parameters call. On the SX128x
/// a LoRa configuration is followed by the two register writes the
/// datasheet requires after the command: the spreading-factor-dependent
/// additional configuration, and the frequency-error-compensation enable.
pub open spec fn mod_params_ops(config: RadioConfig) -> Seq<(BusOpKind, Seq<u8>)> {
    match config {
        RadioConfig::R6x(c) => seq![
            (BusOpKind::Command, mod_params_frame_6x(c.modulation_params)),
        ],
        RadioConfig::R8x(c) => match c.modulation_params {
            ModulationParams8x::Lora(m) => seq![
                (BusOpKind::Command, mod_params_frame_8x_lora(m)),
                (
                    BusOpKind::Command,
                    reg_write_frame(
                        Register::Reg8x(Register8x::SfAdditionalConfiguration),
                        m.spreading_factor.spec_sf_cfg_val(),
                        true,
                    ),
                ),
                (
                    BusOpKind::Command,
                    reg_write_frame(Register::Reg8x(Register8x::FrequencyErrorCorrection), 0x01, true),
                ),
            ],
            ModulationParams8x::Flrc(m) => seq![
                (BusOpKind::Command, mod_params_frame_8x_flrc(m)),
            ],
        },
    }
}

/// The SX126x set-packet-parameters frame: two raw big-endian preamble
/// bytes, header mode, payload length, CRC enable and IQ polarity, with
/// three spare parameters.
pub open spec fn packet_params_frame_6x(p: PacketParamsLora) -> Seq<u8> {
    seq![
        OpCode::SetPacketParams.spec_val_6x(),
        (p.preamble_len / 256) as u8,
        (p.preamble_len % 256) as u8,
        p.header_type.spec_val_6x(),
        p.payload_len,
        p.crc_enabled.spec_val_6x(),
        p.invert_iq.spec_val_6x(),
        0,
        0,
        0,
    ]
}

/// The SX128x LoRa set-packet-parameters frame. The preamble is packed as
/// mantissa and exponent in one byte; the exponent is locked to zero here,
/// which caps the representable lengths at 15 symbols.
pub open spec fn packet_params_frame_8x_lora(p: PacketParamsLora) -> Seq<u8> {
    seq![
        OpCode::SetPacketParams.spec_val_8x(),
        (p.preamble_len % 16) as u8,
        p.header_type.spec_val_8x(),
        p.payload_len,
        p.crc_enabled.spec_val_8x(),
        p.invert_iq.spec_val_8x(),
        0,
        0,
    ]
}

/// The SX128x FLRC set-packet-parameters frame.
pub open spec fn packet_params_frame_8x_flrc(p: PacketParamsFlrc) -> Seq<u8> {
    seq![
        OpCode::SetPacketParams.spec_val_8x(),
        p.preamble_len.spec_val(),
        p.sync_word_len.spec_val(),
        p.sync_word_combo.spec_val(),
        p.packet_type.spec_val(),
        p.payload_len,
        p.crc.spec_val(),
        0,
    ]
}

/// The set-packet-parameters frame for the active family.
pub open spec fn packet_params_frame(config: RadioConfig) -> Seq<u8> {
    match config {
        RadioConfig::R6x(c) => packet_params_frame_6x(c.packet_params),
        RadioConfig::R8x(c) => match c.packet_params {
            PacketParams::Lora(p) => packet_params_frame_8x_lora(p),
            PacketParams::Flrc(p) => packet_params_frame_8x_flrc(p),
        },
    }
}

/// Whether a configuration's packet framing is rejected outright: the
/// SX126x preamble must be at least 10 symbols.
pub open spec fn packet_params_rejected(config: RadioConfig) -> bool {
    match config {
        RadioConfig::R6x(c) => c.packet_params.preamble_len < 10,
        RadioConfig::R8x(_) => false,
    }
}

/// The SX126x set-PA-config frame: duty cycle and HP maximum for the
/// selected power, then the fixed device-select and always-one bytes.
pub open spec fn pa_config_frame(config: RadioConfig) -> Seq<u8> {
    match config {
        RadioConfig::R6x(c) => seq![
            OpCode::SetPAConfig.spec_val_6x(),
            c.output_power.spec_dutycycle_hpmax().0,
            c.output_power.spec_dutycycle_hpmax().1,
            0,
            1,
        ],
        RadioConfig::R8x(_) => Seq::empty(),
    }
}

/// The set-TX-params frame: raw power byte and ramp time. The SX128x power
/// byte is the dBm value shifted up by 18 into 0 through 31.
pub open spec fn tx_params_frame(config: RadioConfig) -> Seq<u8> {
    match config {
        RadioConfig::R6x(c) => seq![
            OpCode::SetTxParams.spec_val_6x(),
            c.output_power.spec_val(),
            c.ramp_time.spec_val(),
        ],
        RadioConfig::R8x(c) => seq![
            OpCode::SetTxParams.spec_val_8x(),
            (c.output_power + 18) as u8,
            c.ramp_time.spec_val(),
        ],
    }
}

/// The command frame that enters an operating mode: sleep and standby carry
/// one configuration byte, frequency synthesis is bare, and transmit and
/// receive carry the three timing bytes of their timeout.
pub open spec fn op_mode_frame(mode: OperatingMode, r8x: bool) -> Seq<u8> {
    match mode {
        OperatingMode::Sleep(cfg) => op_word_frame(OpCode::SetSleep, (cfg.spec_val() << 2) as u8, r8x),
        OperatingMode::StbyRc => op_word_frame(OpCode::SetStandby, 0, r8x),
        OperatingMode::StbyOsc => op_word_frame(OpCode::SetStandby, 1, r8x),
        OperatingMode::Fs => seq![OpCode::SetFS.spec_val(r8x)],
        OperatingMode::Tx(timeout) => seq![OpCode::SetTx.spec_val(r8x)] + (if r8x {
            spec_time_bytes_8x(timeout)
        } else {
            spec_time_bytes_6x(timeout)
        }),
        OperatingMode::Rx(timeout) => seq![OpCode::SetRx.spec_val(r8x)] + (if r8x {
            spec_time_bytes_8x(timeout)
        } else {
            spec_time_bytes_6x(timeout)
        }),
    }
}

impl Radio {
    /// Issue the set-RF-frequency command for the configured frequency.
    pub(crate) fn set_rf_freq(&mut self) -> (r: Result<(), RadioError>)
        requires
            old(self).wf(),
        ensures
            final(self).wf(),
            final(self).config == old(self).config,
            Interface::same_env(old(self).interface, final(self).interface),
            Interface::same_bufs(old(self).interface, final(self).interface),
            old(self).interface.busy ==> r == Err::<(), RadioError>(RadioError::BusyTimeout)
                && *final(self) == *old(self),
            !old(self).interface.busy ==> r is Ok && final(self).ops() == old(self).ops().push(
                (BusOpKind::Command, rf_freq_frame(old(self).config)),
            ) && final(self).pending() == old(self).pending(),
    {
        let frame: Vec<u8> = match &self.config {
            RadioConfig::R6x(config) => {
                let raw = freq_raw_6x(config.rf_freq);
                let mut f: Vec<u8> = Vec::new();
                f.push(OpCode::SetRfFrequency.val_6x());
                f.push(((raw / 0x1000000) % 256) as u8);
                f.push(((raw / 0x10000) % 256) as u8);
                f.push(((raw / 0x100) % 256) as u8);
                f.push((raw % 256) as u8);
                proof {
                    assert(f@ =~= rf_freq_frame(old(self).config));
                }
                f
            },
            RadioConfig::R8x(config) => {
                let raw = freq_raw_8x(config.rf_freq);
                let mut f: Vec<u8> = Vec::new();
                f.push(OpCode::SetRfFrequency.val_8x());
                f.push(((raw / 0x10000) % 256) as u8);
                f.push(((raw / 0x100) % 256) as u8);
                f.push((raw % 256) as u8);
                proof {
                    assert(f@ =~= rf_freq_frame(old(self).config));
                }
                f
            },
        };
        self.interface.write(frame)
    }

    /// Send the configured modulation parameters, together with the
    /// register writes the SX128x requires after them for LoRa.
    pub fn set_mod_params(&mut self) -> (r: Result<(), RadioError>)
        requires
            old(self).wf(),
        ensures
            final(self).wf(),
            final(self).config == old(self).config,
            Interface::same_env(old(self).interface, final(self).interface),
            Interface::same_bufs(old(self).interface, final(self).interface),
            old(self).interface.busy ==> r == Err::<(), RadioError>(RadioError::BusyTimeout)
                && *final(self) == *old(self),
            !old(self).interface.busy ==> r is Ok && final(self).ops() == old(self).ops()
                + mod_params_ops(old(self).config) && final(self).pending() == old(self).pending(),
    {
        match &self.config {
            RadioConfig::R6x(config) => {
                let m = &config.modulation_params;
                let mut f: Vec<u8> = Vec::new();
                f.push(OpCode::SetModulationParams.val_6x());
                f.push(m.spreading_factor.val_6x());
                f.push(m.mod_bandwidth.val());
                f.push(m.coding_rate.val());
                f.push(m.low_data_rate_optimization.val());
                f.push(0);
                f.push(0);
                f.push(0);
                f.push(0);
                proof {
                    assert(f@ =~= mod_params_frame_6x(
                        old(self).config->R6x_0.modulation_params,
                    ));
                }
                match self.interface.write(f) {
                    Err(e) => {
                        return Err(e);
                    },
                    Ok(()) => {},
                }
                proof {
                    assert(self.ops() =~= old(self).ops() + mod_params_ops(old(self).config));
                }
                Ok(())
            },
            RadioConfig::R8x(config) => {
                match &config.modulation_params {
                    ModulationParams8x::Lora(m) => {
                        let sf = m.spreading_factor;
                        let mut f: Vec<u8> = Vec::new();
                        f.push(OpCode::SetModulationParams.val_8x());
                        f.push(m.spreading_factor.val_8x());
                        f.push(m.mod_bandwidth.val());
                        f.push(m.coding_rate.val());
                        proof {
                            assert(f@ =~= mod_params_frame_8x_lora(
                                old(self).config->R8x_0.modulation_params->Lora_0,
                            ));
                        }
                        match self.interface.write(f) {
                            Err(e) => {
                                return Err(e);
                            },
                            Ok(()) => {},
                        }
                        // The datasheet requires this pair of writes right
                        // after setting LoRa modulation parameters.
                        let sf_cfg_val = sf.sf_cfg_val();
                        match self.interface.write_reg_word(
                            Register::Reg8x(Register8x::SfAdditionalConfiguration),
                            sf_cfg_val,
                        ) {
                            Err(e) => {
                                return Err(e);
                            },
                            Ok(()) => {},
                        }
                        match self.interface.write_reg_word(
                            Register::Reg8x(Register8x::FrequencyErrorCorrection),
                            0x1,
                        ) {
                            Err(e) => {
                                return Err(e);
                            },
                            Ok(()) => {},
                        }
                        proof {
                            assert(self.ops() =~= old(self).ops() + mod_params_ops(
                                old(self).config,
                            ));
                        }
                        Ok(())
                    },
                    ModulationParams8x::Flrc(m) => {
                        let mut f: Vec<u8> = Vec::new();
                        f.push(OpCode::SetModulationParams.val_8x());
                        f.push(m.bitrate.val());
                        f.push(m.coding_rate.val());
                        f.push(m.bt.val());
                        proof {
                            assert(f@ =~= mod_params_frame_8x_flrc(
                                old(self).config->R8x_0.modulation_params->Flrc_0,
                            ));
                        }
                        match self.interface.write(f) {
                            Err(e) => {
                                return Err(e);
                            },
                            Ok(()) => {},
                        }
                        proof {
                            assert(self.ops() =~= old(self).ops() + mod_params_ops(
                                old(self).config,
                            ));
                        }
                        Ok(())
                    },
                }
            },
        }
    }

    /// Send the configured packet framing parameters. An SX126x preamble
    /// shorter than 10 symbols violates the chip's documented range and is
    /// rejected with a configuration error before any bus operation.
    pub(crate) fn set_packet_params(&mut self) -> (r: Result<(), RadioError>)
        requires
            old(self).wf(),
        ensures
            final(self).wf(),
            final(self).config == old(self).config,
            Interface::same_env(old(self).interface, final(self).interface),
            Interface::same_bufs(old(self).interface, final(self).interface),
            packet_params_rejected(old(self).config) ==> r == Err::<(), RadioError>(
                RadioError::Config,
            ) && *final(self) == *old(self),
            !packet_params_rejected(old(self).config) && old(self).interface.busy ==> r == Err::<
                (),
                RadioError,
            >(RadioError::BusyTimeout) && *final(self) == *old(self),
            !packet_params_rejected(old(self).config) && !old(self).interface.busy ==> r is Ok
                && final(self).ops() == old(self).ops().push(
                (BusOpKind::Command, packet_params_frame(old(self).config)),
            ) && final(self).pending() == old(self).pending(),
    {
        let frame: Vec<u8> = match &self.config {
            RadioConfig::R6x(config) => {
                // The preamble is between 10 and 65535 symbols.
                if config.packet_params.preamble_len < 10 {
                    return Err(RadioError::Config);
                }
                let p = &config.packet_params;
                let mut f: Vec<u8> = Vec::new();
                f.push(OpCode::SetPacketParams.val_6x());
                f.push((p.preamble_len / 256) as u8);
                f.push((p.preamble_len % 256) as u8);
                f.push(p.header_type.val_6x());
                f.push(p.payload_len);
                f.push(p.crc_enabled.val_6x());
                f.push(p.invert_iq.val_6x());
                f.push(0);
                f.push(0);
                f.push(0);
                proof {
                    assert(f@ =~= packet_params_frame(old(self).config));
                }
                f
            },
            RadioConfig::R8x(config) => {
                match &config.packet_params {
                    PacketParams::Lora(p) => {
                        // The SX128x packs the preamble as
                        // mantissa * 2^exponent in one byte; the exponent is
                        // locked to zero, so only the low mantissa nibble of
                        // the configured length is representable.
                        let pble_len_maint = (p.preamble_len % 16) as u8;
                        let pble_len_exp: u8 = 0;
                        let preamble_len = ((pble_len_exp & 0xf) << 4) | (pble_len_maint & 0xf);
                        proof {
                            assert(((0u8 & 0xf) << 4) | (pble_len_maint & 0xf) == pble_len_maint)
                                by (bit_vector)
                                requires
                                    pble_len_maint < 16,
                            ;
                        }
                        let mut f: Vec<u8> = Vec::new();
                        f.push(OpCode::SetPacketParams.val_8x());
                        f.push(preamble_len);
                        f.push(p.header_type.val_8x());
                        f.push(p.payload_len);
                        f.push(p.crc_enabled.val_8x());
                        f.push(p.invert_iq.val_8x());
                        f.push(0);
                        f.push(0);
                        proof {
                            assert(f@ =~= packet_params_frame(old(self).config));
                        }
                        f
                    },
                    PacketParams::Flrc(p) => {
                        let mut f: Vec<u8> = Vec::new();
                        f.push(OpCode::SetPacketParams.val_8x());
                        f.push(p.preamble_len.val());
                        f.push(p.sync_word_len.val());
                        f.push(p.sync_word_combo.val());
                        f.push(p.packet_type.val());
                        f.push(p.payload_len);
                        f.push(p.crc.val());
                        f.push(0);
                        proof {
                            assert(f@ =~= packet_params_frame(old(self).config));
                        }
                        f
                    },
                }
            },
        };
        self.interface.write(frame)
    }

    /// Send the SX126x power-amplifier configuration. The duty cycle and
    /// HP maximum follow the selected output power; the last two bytes are
    /// fixed by the datasheet for this device.
    pub(crate) fn set_pa_config(&mut self) -> (r: Result<(), RadioError>)
        requires
            old(self).wf(),
            !old(self).is_r8x(),
        ensures
            final(self).wf(),
            final(self).config == old(self).config,
            Interface::same_env(old(self).interface, final(self).interface),
            Interface::same_bufs(old(self).interface, final(self).interface),
            old(self).interface.busy ==> r == Err::<(), RadioError>(RadioError::BusyTimeout)
                && *final(self) == *old(self),
            !old(self).interface.busy ==> r is Ok && final(self).ops() == old(self).ops().push(
                (BusOpKind::Command, pa_config_frame(old(self).config)),
            ) && final(self).pending() == old(self).pending(),
    {
        let frame: Vec<u8> = match &self.config {
            RadioConfig::R6x(config) => {
                let (duty_cycle, hp_max) = config.output_power.dutycycle_hpmax();
                let mut f: Vec<u8> = Vec::new();
                f.push(OpCode::SetPAConfig.val_6x());
                f.push(duty_cycle);
                f.push(hp_max);
                f.push(0);
                f.push(1);
                proof {
                    assert(f@ =~= pa_config_frame(old(self).config));
                }
                f
            },
            RadioConfig::R8x(_) => {
                proof {
                    assert(false);
                }
                Vec::new()
            },
        };
        self.interface.write(frame)
    }

    /// Send the transmit power and ramp time.
    pub(crate) fn set_tx_params(&mut self) -> (r: Result<(), RadioError>)
        requires
            old(self).wf(),
        ensures
            final(self).wf(),
            final(self).config == old(self).config,
            Interface::same_env(old(self).interface, final(self).interface),
            Interface::same_bufs(old(self).interface, final(self).interface),
            old(self).interface.busy ==> r == Err::<(), RadioError>(RadioError::BusyTimeout)
                && *final(self) == *old(self),
            !old(self).interface.busy ==> r is Ok && final(self).ops() == old(self).ops().push(
                (BusOpKind::Command, tx_params_frame(old(self).config)),
            ) && final(self).pending() == old(self).pending(),
    {
        let (power, ramp_time) = match &self.config {
            RadioConfig::R6x(config) => (config.output_power.val(), config.ramp_time.val()),
            RadioConfig::R8x(config) => ((config.output_power + 18) as u8, config.ramp_time.val()),
        };
        let c = OpCode::SetTxParams.val(self.interface.r8x);
        let mut frame: Vec<u8> = Vec::new();
        frame.push(c);
        frame.push(power);
        frame.push(ramp_time);
        proof {
            assert(frame@ =~= tx_params_frame(old(self).config));
        }
        self.interface.write(frame)
    }

    /// Issue the command that enters the given operating mode. Transmit and
    /// receive carry their timeout as a saturating 15.625 µs count; zero
    /// means no device-side timeout and the all-ones count is the device's
    /// continuous-mode sentinel, both passed through unchanged.
    pub fn set_op_mode(&mut self, mode: OperatingMode) -> (r: Result<(), RadioError>)
        requires
            old(self).wf(),
        ensures
            final(self).wf(),
            final(self).config == old(self).config,
            Interface::same_env(old(self).interface, final(self).interface),
            Interface::same_bufs(old(self).interface, final(self).interface),
            old(self).interface.busy ==> r == Err::<(), RadioError>(RadioError::BusyTimeout)
                && *final(self) == *old(self),
            !old(self).interface.busy ==> r is Ok && final(self).ops() == old(self).ops().push(
                (BusOpKind::Command, op_mode_frame(mode, old(self).is_r8x())),
            ) && final(self).pending() == old(self).pending(),
    {
        let r8x = self.interface.r8x;
        match mode {
            OperatingMode::Sleep(cfg) => {
                let word = cfg.val() << 2;
                let result = self.interface.write_op_word(OpCode::SetSleep, word);
                result
            },
            OperatingMode::StbyRc => self.interface.write_op_word(OpCode::SetStandby, 0),
            OperatingMode::StbyOsc => self.interface.write_op_word(OpCode::SetStandby, 1),
            OperatingMode::Fs => {
                let mut frame: Vec<u8> = Vec::new();
                frame.push(OpCode::SetFS.val(r8x));
                proof {
                    assert(frame@ =~= op_mode_frame(mode, old(self).is_r8x()));
                }
                self.interface.write(frame)
            },
            OperatingMode::Tx(timeout) => {
                let to_bytes = if r8x {
                    time_bytes_8x(timeout)
                } else {
                    time_bytes_6x(timeout)
                };
                let mut frame: Vec<u8> = Vec::new();
                frame.push(OpCode::SetTx.val(r8x));
                frame.push(to_bytes.0);
                frame.push(to_bytes.1);
                frame.push(to_bytes.2);
                proof {
                    assert(frame@ =~= op_mode_frame(mode, old(self).is_r8x()));
                }
                self.interface.write(frame)
            },
            OperatingMode::Rx(timeout) => {
                let to_bytes = if r8x {
                    time_bytes_8x(timeout)
                } else {
                    time_bytes_6x(timeout)
                };
                let mut frame: Vec<u8> = Vec::new();
                frame.push(OpCode::SetRx.val(r8x));
                frame.push(to_bytes.0);
                frame.push(to_bytes.1);
                frame.push(to_bytes.2);
                proof {
                    assert(frame@ =~= op_mode_frame(mode, old(self).is_r8x()));
                }
                self.interface.write(frame)
            },
        }
    }
}

} // verus!
