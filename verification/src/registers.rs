//! Register records and their word codecs.
//!
//! Each record is a plain value type whose fields occupy fixed bit slices of
//! one or two 16-bit register words. Decoding is total: every bit pattern has
//! a defined value, because every field decode is total over its bit width
//! (see `fields`). Encoding is the exact inverse on well-formed records, which
//! the round-trip lemmas at each record state and prove.
//!
//! Odd-width numeric fields (a 24-bit threshold, a 10-bit phase) are carried
//! in the next larger native integer, with the record's well-formedness
//! predicate bounding them explicitly.

use vstd::prelude::*;

use crate::fields::ChannelMux;
use crate::fields::CrcType;
use crate::fields::CurrentDetectChannels;
use crate::fields::CurrentDetectCount;
use crate::fields::CurrentDetectLength;
use crate::fields::DcBlock;
use crate::fields::DrdyNotReadyState;
use crate::fields::DrdyReadyState;
use crate::fields::DrdySource;
use crate::fields::GlobalChopDelay;
use crate::fields::OversamplingRatio;
use crate::fields::PgaGain;
use crate::fields::PowerMode;
use crate::fields::WordLength;
use crate::fields::lemma_channel_mux_round;
use crate::fields::lemma_crc_type_round;
use crate::fields::lemma_current_detect_channels_round;
use crate::fields::lemma_current_detect_count_round;
use crate::fields::lemma_current_detect_length_round;
use crate::fields::lemma_dc_block_round;
use crate::fields::lemma_drdy_not_ready_round;
use crate::fields::lemma_drdy_ready_round;
use crate::fields::lemma_drdy_source_round;
use crate::fields::lemma_global_chop_delay_round;
use crate::fields::lemma_oversampling_round;
use crate::fields::lemma_pga_gain_round;
use crate::fields::lemma_power_mode_round;
use crate::fields::lemma_word_length_round;

verus! {

/// The code of a boolean flag bit.
pub open spec fn spec_bool_code(b: bool) -> u16 {
    if b {
        1
    } else {
        0
    }
}

/// Device ID register
#[derive(Debug, Clone, Copy, PartialEq, Eq, Structural)]
pub struct Id {
    /// Number of ADC channels the device reports.
    pub channel_count: u8,
}

impl Id {
    /// The record denoted by a register word.
    pub open spec fn spec_decode(word: u16) -> Id {
        Id { channel_count: ((word >> 8) & 0xF) as u8 }
    }

    /// Decode an Id from its register word
    pub fn from_word(word: u16) -> (r: Id)
        ensures
            r == Id::spec_decode(word),
    {
        Id { channel_count: ((word >> 8) & 0xF) as u8 }
    }
}

/// Device STATUS register
#[derive(Debug, Clone, Copy, PartialEq, Eq, Structural)]
pub struct Status {
    /// Whether the SPI interface is locked
    pub lock: bool,
    /// ADC resynchronization indicator.
    /// This bit is set each time the ADC resynchronizes.
    pub resync: bool,
    /// Whether the register map had a CRC error
    pub reg_map_crc_err: bool,
    /// Whether a SPI input had a CRC error
    pub spi_crc_err: bool,
    /// CRC type
    pub crc_type: CrcType,
    /// Whether a reset occurred
    pub reset: bool,
    /// Data word length
    pub word_length: WordLength,
    /// Channel 0 ADC data available indicator
    pub drdy0: bool,
    /// Channel 1 ADC data available indicator
    pub drdy1: bool,
    /// Channel 2 ADC data available indicator
    pub drdy2: bool,
    /// Channel 3 ADC data available indicator
    pub drdy3: bool,
}

impl Status {
    /// The record denoted by a register word.
    pub open spec fn spec_decode(word: u16) -> Status {
        Status {
            lock: (word >> 15) & 1 == 1,
            resync: (word >> 14) & 1 == 1,
            reg_map_crc_err: (word >> 13) & 1 == 1,
            spi_crc_err: (word >> 12) & 1 == 1,
            crc_type: CrcType::spec_from_code((word >> 11) & 1),
            reset: (word >> 10) & 1 == 1,
            word_length: WordLength::spec_from_code((word >> 8) & 3),
            drdy0: word & 1 == 1,
            drdy1: (word >> 1) & 1 == 1,
            drdy2: (word >> 2) & 1 == 1,
            drdy3: (word >> 3) & 1 == 1,
        }
    }

    /// The documented state of the register after a device reset.
    pub open spec fn spec_default() -> Status {
        Status {
            lock: false,
            resync: false,
            reg_map_crc_err: false,
            spi_crc_err: false,
            crc_type: CrcType::Ccitt,
            reset: true,
            word_length: WordLength::Bits24,
            drdy0: false,
            drdy1: false,
            drdy2: false,
            drdy3: false,
        }
    }

    /// Decode a Status from its register word
    pub fn from_word(word: u16) -> (r: Status)
        ensures
            r == Status::spec_decode(word),
    {
        Status {
            lock: (word >> 15) & 1 == 1,
            resync: (word >> 14) & 1 == 1,
            reg_map_crc_err: (word >> 13) & 1 == 1,
            spi_crc_err: (word >> 12) & 1 == 1,
            crc_type: CrcType::from_code((word >> 11) & 1),
            reset: (word >> 10) & 1 == 1,
            word_length: WordLength::from_code((word >> 8) & 3),
            drdy0: word & 1 == 1,
            drdy1: (word >> 1) & 1 == 1,
            drdy2: (word >> 2) & 1 == 1,
            drdy3: (word >> 3) & 1 == 1,
        }
    }
}

impl Default for Status {
    fn default() -> (r: Self)
        ensures
            r == Status::spec_default(),
    {
        Status {
            lock: false,
            resync: false,
            reg_map_crc_err: false,
            spi_crc_err: false,
            crc_type: CrcType::Ccitt,
            reset: true,
            word_length: WordLength::Bits24,
            drdy0: false,
            drdy1: false,
            drdy2: false,
            drdy3: false,
        }
    }
}

/// Device MODE register
#[derive(Debug, Clone, Copy, PartialEq, Eq, Structural)]
pub struct Mode {
    /// Whether register map CRC checking is enabled
    pub reg_crc_enable: bool,
    /// Whether SPI CRC checking is enabled
    pub spi_crc_enable: bool,
    /// SPI and register map CRC type
    pub crc_type: CrcType,
    /// Reset
    /// Write false to clear this bit in the status register
    pub reset: bool,
    /// Data word length
    pub word_length: WordLength,
    /// SPI timeout enable
    pub spi_timeout: bool,
    /// DRDY pin signal source selection
    pub drdy_source: DrdySource,
    /// DRDY state when conversion data is not available
    pub drdy_not_ready_state: DrdyNotReadyState,
    /// DRDY state when conversion data is available
    pub drdy_ready_state: DrdyReadyState,
}

impl Mode {
    /// The record denoted by a register word.
    pub open spec fn spec_decode(word: u16) -> Mode {
        Mode {
            reg_crc_enable: (word >> 13) & 1 == 1,
            spi_crc_enable: (word >> 12) & 1 == 1,
            crc_type: CrcType::spec_from_code((word >> 11) & 1),
            reset: (word >> 10) & 1 == 1,
            word_length: WordLength::spec_from_code((word >> 8) & 3),
            spi_timeout: (word >> 4) & 1 == 1,
            drdy_source: DrdySource::spec_from_code((word >> 2) & 3),
            drdy_not_ready_state: DrdyNotReadyState::spec_from_code((word >> 1) & 1),
            drdy_ready_state: DrdyReadyState::spec_from_code(word & 1),
        }
    }

    /// The register word that encodes this record.
    pub open spec fn spec_encode(self) -> u16 {
        (spec_bool_code(self.reg_crc_enable) << 13) | (spec_bool_code(self.spi_crc_enable) << 12)
            | (self.crc_type.spec_code() << 11) | (spec_bool_code(self.reset) << 10)
            | (self.word_length.spec_code() << 8) | (spec_bool_code(self.spi_timeout) << 4)
            | (self.drdy_source.spec_code() << 2) | (self.drdy_not_ready_state.spec_code() << 1)
            | self.drdy_ready_state.spec_code()
    }

    /// The documented state of the register after a device reset.
    pub open spec fn spec_default() -> Mode {
        Mode {
            reg_crc_enable: false,
            spi_crc_enable: false,
            crc_type: CrcType::Ccitt,
            reset: true,
            word_length: WordLength::Bits24,
            spi_timeout: true,
            drdy_source: DrdySource::MostLagging,
            drdy_not_ready_state: DrdyNotReadyState::LogicHigh,
            drdy_ready_state: DrdyReadyState::LogicLow,
        }
    }

    /// Decode a Mode from its register word
    pub fn from_word(word: u16) -> (r: Mode)
        ensures
            r == Mode::spec_decode(word),
    {
        Mode {
            reg_crc_enable: (word >> 13) & 1 == 1,
            spi_crc_enable: (word >> 12) & 1 == 1,
            crc_type: CrcType::from_code((word >> 11) & 1),
            reset: (word >> 10) & 1 == 1,
            word_length: WordLength::from_code((word >> 8) & 3),
            spi_timeout: (word >> 4) & 1 == 1,
            drdy_source: DrdySource::from_code((word >> 2) & 3),
            drdy_not_ready_state: DrdyNotReadyState::from_code((word >> 1) & 1),
            drdy_ready_state: DrdyReadyState::from_code(word & 1),
        }
    }

    /// Returns the register word for this Mode configuration
    pub fn to_word(&self) -> (w: u16)
        ensures
            w == self.spec_encode(),
    {
        (if self.reg_crc_enable { 1u16 } else { 0u16 } << 13)
            | (if self.spi_crc_enable { 1u16 } else { 0u16 } << 12)
            | (self.crc_type.code() << 11)
            | (if self.reset { 1u16 } else { 0u16 } << 10)
            | (self.word_length.code() << 8)
            | (if self.spi_timeout { 1u16 } else { 0u16 } << 4)
            | (self.drdy_source.code() << 2)
            | (self.drdy_not_ready_state.code() << 1)
            | self.drdy_ready_state.code()
    }
}

impl Default for Mode {
    fn default() -> (r: Self)
        ensures
            r == Mode::spec_default(),
    {
        Mode {
            reg_crc_enable: false,
            spi_crc_enable: false,
            crc_type: CrcType::Ccitt,
            reset: true,
            word_length: WordLength::Bits24,
            spi_timeout: true,
            drdy_source: DrdySource::MostLagging,
            drdy_not_ready_state: DrdyNotReadyState::LogicHigh,
            drdy_ready_state: DrdyReadyState::LogicLow,
        }
    }
}

/// Round trip: decoding the encoding of any Mode record yields the record.
pub proof fn lemma_mode_round_trip(m: Mode)
    ensures
        Mode::spec_decode(m.spec_encode()) == m,
{
    lemma_crc_type_round(m.crc_type);
    lemma_word_length_round(m.word_length);
    lemma_drdy_source_round(m.drdy_source);
    lemma_drdy_not_ready_round(m.drdy_not_ready_state);
    lemma_drdy_ready_round(m.drdy_ready_state);
    let b13 = spec_bool_code(m.reg_crc_enable);
    let b12 = spec_bool_code(m.spi_crc_enable);
    let c11 = m.crc_type.spec_code();
    let b10 = spec_bool_code(m.reset);
    let c8 = m.word_length.spec_code();
    let b4 = spec_bool_code(m.spi_timeout);
    let c2 = m.drdy_source.spec_code();
    let c1 = m.drdy_not_ready_state.spec_code();
    let c0 = m.drdy_ready_state.spec_code();
    let w = m.spec_encode();
    assert((w >> 13) & 1 == b13 && (w >> 12) & 1 == b12 && (w >> 11) & 1 == c11 && (w >> 10) & 1
        == b10 && (w >> 8) & 3 == c8 && (w >> 4) & 1 == b4 && (w >> 2) & 3 == c2 && (w >> 1) & 1
        == c1 && w & 1 == c0) by (bit_vector)
        requires
            w == (b13 << 13) | (b12 << 12) | (c11 << 11) | (b10 << 10) | (c8 << 8) | (b4 << 4) | (
            c2 << 2) | (c1 << 1) | c0,
            b13 <= 1,
            b12 <= 1,
            c11 <= 1,
            b10 <= 1,
            c8 <= 3,
            b4 <= 1,
            c2 <= 2,
            c1 <= 1,
            c0 <= 1,
    ;
}

/// Device CLOCK register
#[derive(Debug, Clone, Copy, PartialEq, Eq, Structural)]
pub struct Clock {
    /// Channel 0 ADC enable
    pub channel0_en: bool,
    /// Channel 1 ADC enable
    pub channel1_en: bool,
    /// Channel 2 ADC enable
    pub channel2_en: bool,
    /// Channel 3 ADC enable
    pub channel3_en: bool,
    /// Modulator oversampling ratio
    pub oversampling_ratio: OversamplingRatio,
    /// Power mode
    pub power_mode: PowerMode,
}

impl Clock {
    /// The record denoted by a register word.
    pub open spec fn spec_decode(word: u16) -> Clock {
        Clock {
            channel0_en: (word >> 8) & 1 == 1,
            channel1_en: (word >> 9) & 1 == 1,
            channel2_en: (word >> 10) & 1 == 1,
            channel3_en: (word >> 11) & 1 == 1,
            oversampling_ratio: OversamplingRatio::spec_from_code((word >> 2) & 0xF),
            power_mode: PowerMode::spec_from_code(word & 3),
        }
    }

    /// The register word that encodes this record.
    pub open spec fn spec_encode(self) -> u16 {
        (spec_bool_code(self.channel3_en) << 11) | (spec_bool_code(self.channel2_en) << 10) | (
        spec_bool_code(self.channel1_en) << 9) | (spec_bool_code(self.channel0_en) << 8) | (
        self.oversampling_ratio.spec_code() << 2) | self.power_mode.spec_code()
    }

    /// The documented state of the register after a device reset.
    pub open spec fn spec_default() -> Clock {
        Clock {
            channel0_en: true,
            channel1_en: true,
            channel2_en: true,
            channel3_en: true,
            oversampling_ratio: OversamplingRatio::Osr1024,
            power_mode: PowerMode::HighResolution,
        }
    }

    /// Decode a Clock from its register word
    pub fn from_word(word: u16) -> (r: Clock)
        ensures
            r == Clock::spec_decode(word),
    {
        Clock {
            channel0_en: (word >> 8) & 1 == 1,
            channel1_en: (word >> 9) & 1 == 1,
            channel2_en: (word >> 10) & 1 == 1,
            channel3_en: (word >> 11) & 1 == 1,
            oversampling_ratio: OversamplingRatio::from_code((word >> 2) & 0xF),
            power_mode: PowerMode::from_code(word & 3),
        }
    }

    /// Returns the register word for this Clock configuration
    pub fn to_word(&self) -> (w: u16)
        ensures
            w == self.spec_encode(),
    {
        (if self.channel3_en { 1u16 } else { 0u16 } << 11)
            | (if self.channel2_en { 1u16 } else { 0u16 } << 10)
            | (if self.channel1_en { 1u16 } else { 0u16 } << 9)
            | (if self.channel0_en { 1u16 } else { 0u16 } << 8)
            | (self.oversampling_ratio.code() << 2)
            | self.power_mode.code()
    }
}

impl Default for Clock {
    fn default() -> (r: Self)
        ensures
            r == Clock::spec_default(),
    {
        Clock {
            channel0_en: true,
            channel1_en: true,
            channel2_en: true,
            channel3_en: true,
            oversampling_ratio: OversamplingRatio::Osr1024,
            power_mode: PowerMode::HighResolution,
        }
    }
}

/// Round trip: decoding the encoding of any Clock record yields the record.
pub proof fn lemma_clock_round_trip(c: Clock)
    ensures
        Clock::spec_decode(c.spec_encode()) == c,
{
    lemma_oversampling_round(c.oversampling_ratio);
    lemma_power_mode_round(c.power_mode);
    let b11 = spec_bool_code(c.channel3_en);
    let b10 = spec_bool_code(c.channel2_en);
    let b9 = spec_bool_code(c.channel1_en);
    let b8 = spec_bool_code(c.channel0_en);
    let osr = c.oversampling_ratio.spec_code();
    let pm = c.power_mode.spec_code();
    let w = c.spec_encode();
    assert((w >> 8) & 1 == b8 && (w >> 9) & 1 == b9 && (w >> 10) & 1 == b10 && (w >> 11) & 1 == b11
        && (w >> 2) & 0xF == osr && w & 3 == pm) by (bit_vector)
        requires
            w == (b11 << 11) | (b10 << 10) | (b9 << 9) | (b8 << 8) | (osr << 2) | pm,
            b11 <= 1,
            b10 <= 1,
            b9 <= 1,
            b8 <= 1,
            osr <= 15,
            pm <= 2,
    ;
}

/// Device GAIN1 register
#[derive(Debug, Clone, Copy, PartialEq, Eq, Structural)]
pub struct Gain {
    /// PGA gain selection for channel 0
    pub pga_gain0: PgaGain,
    /// PGA gain selection for channel 1
    pub pga_gain1: PgaGain,
    /// PGA gain selection for channel 2
    pub pga_gain2: PgaGain,
    /// PGA gain selection for channel 3
    pub pga_gain3: PgaGain,
}

impl Gain {
    /// The record denoted by a register word.
    pub open spec fn spec_decode(word: u16) -> Gain {
        Gain {
            pga_gain0: PgaGain::spec_from_code(word & 7),
            pga_gain1: PgaGain::spec_from_code((word >> 4) & 7),
            pga_gain2: PgaGain::spec_from_code((word >> 8) & 7),
            pga_gain3: PgaGain::spec_from_code((word >> 12) & 7),
        }
    }

    /// The register word that encodes this record.
    pub open spec fn spec_encode(self) -> u16 {
        self.pga_gain0.spec_code() | (self.pga_gain1.spec_code() << 4) | (
        self.pga_gain2.spec_code() << 8) | (self.pga_gain3.spec_code() << 12)
    }

    /// The documented state of the register after a device reset.
    pub open spec fn spec_default() -> Gain {
        Gain {
            pga_gain0: PgaGain::Gain1,
            pga_gain1: PgaGain::Gain1,
            pga_gain2: PgaGain::Gain1,
            pga_gain3: PgaGain::Gain1,
        }
    }

    /// Decode a Gain from its register word
    pub fn from_word(word: u16) -> (r: Gain)
        ensures
            r == Gain::spec_decode(word),
    {
        Gain {
            pga_gain0: PgaGain::from_code(word & 7),
            pga_gain1: PgaGain::from_code((word >> 4) & 7),
            pga_gain2: PgaGain::from_code((word >> 8) & 7),
            pga_gain3: PgaGain::from_code((word >> 12) & 7),
        }
    }

    /// Returns the register word for this Gain configuration
    pub fn to_word(&self) -> (w: u16)
        ensures
            w == self.spec_encode(),
    {
        self.pga_gain0.code() | (self.pga_gain1.code() << 4) | (self.pga_gain2.code() << 8) | (
        self.pga_gain3.code() << 12)
    }
}

impl Default for Gain {
    fn default() -> (r: Self)
        ensures
            r == Gain::spec_default(),
    {
        Gain {
            pga_gain0: PgaGain::Gain1,
            pga_gain1: PgaGain::Gain1,
            pga_gain2: PgaGain::Gain1,
            pga_gain3: PgaGain::Gain1,
        }
    }
}

/// Round trip: decoding the encoding of any Gain record yields the record.
pub proof fn lemma_gain_round_trip(g: Gain)
    ensures
        Gain::spec_decode(g.spec_encode()) == g,
{
    lemma_pga_gain_round(g.pga_gain0);
    lemma_pga_gain_round(g.pga_gain1);
    lemma_pga_gain_round(g.pga_gain2);
    lemma_pga_gain_round(g.pga_gain3);
    let g0 = g.pga_gain0.spec_code();
    let g1 = g.pga_gain1.spec_code();
    let g2 = g.pga_gain2.spec_code();
    let g3 = g.pga_gain3.spec_code();
    let w = g.spec_encode();
    assert(w & 7 == g0 && (w >> 4) & 7 == g1 && (w >> 8) & 7 == g2 && (w >> 12) & 7 == g3)
        by (bit_vector)
        requires
            w == g0 | (g1 << 4) | (g2 << 8) | (g3 << 12),
            g0 <= 7,
            g1 <= 7,
            g2 <= 7,
            g3 <= 7,
    ;
}

/// Device CFG register
#[derive(Debug, Clone, Copy, PartialEq, Eq, Structural)]
pub struct Config {
    /// Global-chop delay
    pub global_chop_delay: GlobalChopDelay,
    /// Global-chop mode enable
    pub global_chop_enable: bool,
    /// Current-detect channel selection
    /// Channels required to trigger current-detect
    pub current_detect_channels: CurrentDetectChannels,
    /// Number of current-detect exceeded thresholds to trigger a detection
    pub current_detect_count: CurrentDetectCount,
    /// Current-detect measurement length
    pub current_detect_length: CurrentDetectLength,
    /// Current-detect mode enable
    pub current_detect_enable: bool,
}

impl Config {
    /// The record denoted by a register word.
    pub open spec fn spec_decode(word: u16) -> Config {
        Config {
            global_chop_delay: GlobalChopDelay::spec_from_code((word >> 9) & 0xF),
            global_chop_enable: (word >> 8) & 1 == 1,
            current_detect_channels: CurrentDetectChannels::spec_from_code((word >> 7) & 1),
            current_detect_count: CurrentDetectCount::spec_from_code((word >> 4) & 7),
            current_detect_length: CurrentDetectLength::spec_from_code((word >> 1) & 7),
            current_detect_enable: word & 1 == 1,
        }
    }

    /// The register word that encodes this record.
    pub open spec fn spec_encode(self) -> u16 {
        (self.global_chop_delay.spec_code() << 9) | (spec_bool_code(self.global_chop_enable) << 8)
            | (self.current_detect_channels.spec_code() << 7) | (
        self.current_detect_count.spec_code() << 4) | (self.current_detect_length.spec_code() << 1)
            | spec_bool_code(self.current_detect_enable)
    }

    /// The documented state of the register after a device reset.
    pub open spec fn spec_default() -> Config {
        Config {
            global_chop_delay: GlobalChopDelay::Delay16,
            global_chop_enable: false,
            current_detect_channels: CurrentDetectChannels::AnyChannel,
            current_detect_count: CurrentDetectCount::Count1,
            current_detect_length: CurrentDetectLength::Len128,
            current_detect_enable: false,
        }
    }

    /// Decode a Config from its register word
    pub fn from_word(word: u16) -> (r: Config)
        ensures
            r == Config::spec_decode(word),
    {
        Config {
            global_chop_delay: GlobalChopDelay::from_code((word >> 9) & 0xF),
            global_chop_enable: (word >> 8) & 1 == 1,
            current_detect_channels: CurrentDetectChannels::from_code((word >> 7) & 1),
            current_detect_count: CurrentDetectCount::from_code((word >> 4) & 7),
            current_detect_length: CurrentDetectLength::from_code((word >> 1) & 7),
            current_detect_enable: word & 1 == 1,
        }
    }

    /// Returns the register word for this Config configuration
    pub fn to_word(&self) -> (w: u16)
        ensures
            w == self.spec_encode(),
    {
        (self.global_chop_delay.code() << 9)
            | (if self.global_chop_enable { 1u16 } else { 0u16 } << 8)
            | (self.current_detect_channels.code() << 7)
            | (self.current_detect_count.code() << 4)
            | (self.current_detect_length.code() << 1)
            | (if self.current_detect_enable { 1u16 } else { 0u16 })
    }
}

impl Default for Config {
    fn default() -> (r: Self)
        ensures
            r == Config::spec_default(),
    {
        Config {
            global_chop_delay: GlobalChopDelay::Delay16,
            global_chop_enable: false,
            current_detect_channels: CurrentDetectChannels::AnyChannel,
            current_detect_count: CurrentDetectCount::Count1,
            current_detect_length: CurrentDetectLength::Len128,
            current_detect_enable: false,
        }
    }
}

/// Round trip: decoding the encoding of any Config record yields the record.
pub proof fn lemma_config_round_trip(c: Config)
    ensures
        Config::spec_decode(c.spec_encode()) == c,
{
    lemma_global_chop_delay_round(c.global_chop_delay);
    lemma_current_detect_channels_round(c.current_detect_channels);
    lemma_current_detect_count_round(c.current_detect_count);
    lemma_current_detect_length_round(c.current_detect_length);
    let gcd = c.global_chop_delay.spec_code();
    let b8 = spec_bool_code(c.global_chop_enable);
    let cdc = c.current_detect_channels.spec_code();
    let cdn = c.current_detect_count.spec_code();
    let cdl = c.current_detect_length.spec_code();
    let b0 = spec_bool_code(c.current_detect_enable);
    let w = c.spec_encode();
    assert((w >> 9) & 0xF == gcd && (w >> 8) & 1 == b8 && (w >> 7) & 1 == cdc && (w >> 4) & 7 == cdn
        && (w >> 1) & 7 == cdl && w & 1 == b0) by (bit_vector)
        requires
            w == (gcd << 9) | (b8 << 8) | (cdc << 7) | (cdn << 4) | (cdl << 1) | b0,
            gcd <= 15,
            b8 <= 1,
            cdc <= 1,
            cdn <= 7,
            cdl <= 7,
            b0 <= 1,
    ;
}

/// Device THRSHLD_MSB and THRSHLD_LSB registers
#[derive(Debug, Clone, Copy, PartialEq, Eq, Structural)]
pub struct Threshold {
    /// Current-detect mode threshold; a 24-bit value carried in a `u32`
    pub current_detect_threshold: u32,
    /// DC block filter setting
    pub dc_block: DcBlock,
}

impl Threshold {
    /// Well-formed records carry the threshold within its 24-bit field.
    pub open spec fn wf(self) -> bool {
        self.current_detect_threshold < 0x1000000
    }

    /// The record denoted by a `[THRSHLD_MSB, THRSHLD_LSB]` register word pair.
    pub open spec fn spec_decode(msb: u16, lsb: u16) -> Threshold {
        Threshold {
            current_detect_threshold: ((msb as u32) << 8) | ((lsb as u32) >> 8),
            dc_block: DcBlock::spec_from_code(lsb & 0xF),
        }
    }

    /// The `[THRSHLD_MSB, THRSHLD_LSB]` words that encode this record.
    pub open spec fn spec_encode(self) -> (u16, u16) {
        (
            (self.current_detect_threshold >> 8) as u16,
            (((self.current_detect_threshold & 0xFF) as u16) << 8) | self.dc_block.spec_code(),
        )
    }

    /// Decode a Threshold from its register words
    ///
    /// Words must be in the order [THRSHLD_MSB, THRSHLD_LSB]
    pub fn from_words(words: [u16; 2]) -> (r: Threshold)
        ensures
            r == Threshold::spec_decode(words[0], words[1]),
            r.wf(),
    {
        let msb = words[0];
        let lsb = words[1];
        proof {
            assert(((msb as u32) << 8) | ((lsb as u32) >> 8) < 0x1000000) by (bit_vector);
        }
        Threshold {
            current_detect_threshold: ((msb as u32) << 8) | ((lsb as u32) >> 8),
            dc_block: DcBlock::from_code(lsb & 0xF),
        }
    }

    /// Returns the register words for this Threshold configuration
    ///
    /// Words are in the order [THRSHLD_MSB, THRSHLD_LSB]
    pub fn to_words(&self) -> (words: [u16; 2])
        requires
            self.wf(),
        ensures
            words[0] == self.spec_encode().0,
            words[1] == self.spec_encode().1,
    {
        let threshold = self.current_detect_threshold;
        proof {
            assert(threshold >> 8 <= 0xFFFF && (threshold & 0xFF) <= 0xFF) by (bit_vector)
                requires
                    threshold < 0x1000000,
            ;
        }
        [(threshold >> 8) as u16, (((threshold & 0xFF) as u16) << 8) | self.dc_block.code()]
    }
}

impl Default for Threshold {
    fn default() -> (r: Self)
        ensures
            r == (Threshold { current_detect_threshold: 0, dc_block: DcBlock::Disabled }),
    {
        Threshold { current_detect_threshold: 0, dc_block: DcBlock::Disabled }
    }
}

/// Round trip: decoding the encoding of any well-formed Threshold record
/// yields the record.
pub proof fn lemma_threshold_round_trip(t: Threshold)
    requires
        t.wf(),
    ensures
        Threshold::spec_decode(t.spec_encode().0, t.spec_encode().1) == t,
{
    lemma_dc_block_round(t.dc_block);
    let v = t.current_detect_threshold;
    let dc = t.dc_block.spec_code();
    let msb = t.spec_encode().0;
    let lsb = t.spec_encode().1;
    assert(((msb as u32) << 8) | ((lsb as u32) >> 8) == v && lsb & 0xF == dc) by (bit_vector)
        requires
            msb == (v >> 8) as u16,
            lsb == (((v & 0xFF) as u16) << 8) | dc,
            v < 0x1000000,
            dc <= 15,
    ;
}

/// Device CHx_CFG register
#[derive(Debug, Clone, Copy, PartialEq, Eq, Structural)]
pub struct ChannelConfig {
    /// Channel phase delay in modulator clock cycles; a 10-bit value carried
    /// in a `u16`
    pub phase: u16,
    /// DC block filter disable for the channel
    pub dc_block_disable: bool,
    /// Channel input selection
    pub mux: ChannelMux,
}

impl ChannelConfig {
    /// Well-formed records carry the phase within its 10-bit field.
    pub open spec fn wf(self) -> bool {
        self.phase < 0x400
    }

    /// The record denoted by a register word.
    pub open spec fn spec_decode(word: u16) -> ChannelConfig {
        ChannelConfig {
            phase: word >> 6,
            dc_block_disable: (word >> 2) & 1 == 1,
            mux: ChannelMux::spec_from_code(word & 3),
        }
    }

    /// The register word that encodes this record.
    pub open spec fn spec_encode(self) -> u16 {
        (self.phase << 6) | (spec_bool_code(self.dc_block_disable) << 2) | self.mux.spec_code()
    }

    /// Decode a ChannelConfig from its register word
    pub fn from_word(word: u16) -> (r: ChannelConfig)
        ensures
            r == ChannelConfig::spec_decode(word),
            r.wf(),
    {
        proof {
            assert(word >> 6 < 0x400) by (bit_vector);
        }
        ChannelConfig {
            phase: word >> 6,
            dc_block_disable: (word >> 2) & 1 == 1,
            mux: ChannelMux::from_code(word & 3),
        }
    }

    /// Returns the register word for this ChannelConfig
    pub fn to_word(&self) -> (w: u16)
        requires
            self.wf(),
        ensures
            w == self.spec_encode(),
    {
        (self.phase << 6) | (if self.dc_block_disable { 1u16 } else { 0u16 } << 2) | self.mux.code()
    }
}

impl Default for ChannelConfig {
    fn default() -> (r: Self)
        ensures
            r == (ChannelConfig { phase: 0, dc_block_disable: false, mux: ChannelMux::AnalogIn }),
    {
        ChannelConfig { phase: 0, dc_block_disable: false, mux: ChannelMux::AnalogIn }
    }
}

/// Round trip: decoding the encoding of any well-formed ChannelConfig record
/// yields the record.
pub proof fn lemma_channel_config_round_trip(c: ChannelConfig)
    requires
        c.wf(),
    ensures
        ChannelConfig::spec_decode(c.spec_encode()) == c,
{
    lemma_channel_mux_round(c.mux);
    let p = c.phase;
    let b2 = spec_bool_code(c.dc_block_disable);
    let mx = c.mux.spec_code();
    let w = c.spec_encode();
    assert(w >> 6 == p && (w >> 2) & 1 == b2 && w & 3 == mx) by (bit_vector)
        requires
            w == (p << 6) | (b2 << 2) | mx,
            p < 0x400,
            b2 <= 1,
            mx <= 3,
    ;
}

/// Device CHx_OCAL_MSB and CHx_OCAL_LSB registers
#[derive(Debug, Clone, Copy, PartialEq, Eq, Structural)]
pub struct OffsetCal {
    /// Channel offset calibration; a 24-bit value carried in a `u32`
    pub offset: u32,
}

impl OffsetCal {
    /// Well-formed records carry the offset within its 24-bit field.
    pub open spec fn wf(self) -> bool {
        self.offset < 0x1000000
    }

    /// The record denoted by a `[CHx_OCAL_MSB, CHx_OCAL_LSB]` word pair.
    pub open spec fn spec_decode(msb: u16, lsb: u16) -> OffsetCal {
        OffsetCal { offset: ((msb as u32) << 8) | ((lsb as u32) >> 8) }
    }

    /// The `[CHx_OCAL_MSB, CHx_OCAL_LSB]` words that encode this record.
    pub open spec fn spec_encode(self) -> (u16, u16) {
        ((self.offset >> 8) as u16, ((self.offset & 0xFF) as u16) << 8)
    }

    /// Decode an OffsetCal from its register words
    ///
    /// Words must be in the order [CHx_OCAL_MSB, CHx_OCAL_LSB]
    pub fn from_words(words: [u16; 2]) -> (r: OffsetCal)
        ensures
            r == OffsetCal::spec_decode(words[0], words[1]),
            r.wf(),
    {
        let msb = words[0];
        let lsb = words[1];
        proof {
            assert(((msb as u32) << 8) | ((lsb as u32) >> 8) < 0x1000000) by (bit_vector);
        }
        OffsetCal { offset: ((msb as u32) << 8) | ((lsb as u32) >> 8) }
    }

    /// Returns the register words for this OffsetCal configuration
    ///
    /// Words are in the order [CHx_OCAL_MSB, CHx_OCAL_LSB]
    pub fn to_words(&self) -> (words: [u16; 2])
        requires
            self.wf(),
        ensures
            words[0] == self.spec_encode().0,
            words[1] == self.spec_encode().1,
    {
        let offset = self.offset;
        proof {
            assert(offset >> 8 <= 0xFFFF && (offset & 0xFF) <= 0xFF) by (bit_vector)
                requires
                    offset < 0x1000000,
            ;
        }
        [(offset >> 8) as u16, ((offset & 0xFF) as u16) << 8]
    }
}

impl Default for OffsetCal {
    fn default() -> (r: Self)
        ensures
            r == (OffsetCal { offset: 0 }),
    {
        OffsetCal { offset: 0 }
    }
}

/// Round trip: decoding the encoding of any well-formed OffsetCal record
/// yields the record.
pub proof fn lemma_offset_cal_round_trip(c: OffsetCal)
    requires
        c.wf(),
    ensures
        OffsetCal::spec_decode(c.spec_encode().0, c.spec_encode().1) == c,
{
    let v = c.offset;
    let msb = c.spec_encode().0;
    let lsb = c.spec_encode().1;
    assert(((msb as u32) << 8) | ((lsb as u32) >> 8) == v) by (bit_vector)
        requires
            msb == (v >> 8) as u16,
            lsb == ((v & 0xFF) as u16) << 8,
            v < 0x1000000,
    ;
}

/// Device CHx_GCAL_MSB and CHx_GCAL_LSB registers
#[derive(Debug, Clone, Copy, PartialEq, Eq, Structural)]
pub struct GainCal {
    /// Channel gain calibration; a 24-bit value carried in a `u32`
    pub gain: u32,
}

impl GainCal {
    /// Well-formed records carry the gain within its 24-bit field.
    pub open spec fn wf(self) -> bool {
        self.gain < 0x1000000
    }

    /// The record denoted by a `[CHx_GCAL_MSB, CHx_GCAL_LSB]` word pair.
    pub open spec fn spec_decode(msb: u16, lsb: u16) -> GainCal {
        GainCal { gain: ((msb as u32) << 8) | ((lsb as u32) >> 8) }
    }

    /// The `[CHx_GCAL_MSB, CHx_GCAL_LSB]` words that encode this record.
    pub open spec fn spec_encode(self) -> (u16, u16) {
        ((self.gain >> 8) as u16, ((self.gain & 0xFF) as u16) << 8)
    }

    /// Decode a GainCal from its register words
    ///
    /// Words must be in the order [CHx_GCAL_MSB, CHx_GCAL_LSB]
    pub fn from_words(words: [u16; 2]) -> (r: GainCal)
        ensures
            r == GainCal::spec_decode(words[0], words[1]),
            r.wf(),
    {
        let msb = words[0];
        let lsb = words[1];
        proof {
            assert(((msb as u32) << 8) | ((lsb as u32) >> 8) < 0x1000000) by (bit_vector);
        }
        GainCal { gain: ((msb as u32) << 8) | ((lsb as u32) >> 8) }
    }

    /// Returns the register words for this GainCal configuration
    ///
    /// Words are in the order [CHx_GCAL_MSB, CHx_GCAL_LSB]
    pub fn to_words(&self) -> (words: [u16; 2])
        requires
            self.wf(),
        ensures
            words[0] == self.spec_encode().0,
            words[1] == self.spec_encode().1,
    {
        let gain = self.gain;
        proof {
            assert(gain >> 8 <= 0xFFFF && (gain & 0xFF) <= 0xFF) by (bit_vector)
                requires
                    gain < 0x1000000,
            ;
        }
        [(gain >> 8) as u16, ((gain & 0xFF) as u16) << 8]
    }
}

impl Default for GainCal {
    fn default() -> (r: Self)
        ensures
            r == (GainCal { gain: 0x800000 }),
    {
        GainCal { gain: 0x800000 }
    }
}

/// Round trip: decoding the encoding of any well-formed GainCal record yields
/// the record.
pub proof fn lemma_gain_cal_round_trip(c: GainCal)
    requires
        c.wf(),
    ensures
        GainCal::spec_decode(c.spec_encode().0, c.spec_encode().1) == c,
{
    let v = c.gain;
    let msb = c.spec_encode().0;
    let lsb = c.spec_encode().1;
    assert(((msb as u32) << 8) | ((lsb as u32) >> 8) == v) by (bit_vector)
        requires
            msb == (v >> 8) as u16,
            lsb == ((v & 0xFF) as u16) << 8,
            v < 0x1000000,
    ;
}

} // verus!
