//! Enumerated register fields.
//!
//! Each field occupies a fixed-width slice of a register word. Every field's
//! code space is total: each `spec_from_code` covers the full N-bit range of
//! its field, so decoding a register word can never fail. A few fields have
//! more codes than logical values; the extra codes are documented aliases of
//! an existing value, and the alias lemmas at the end of this module state
//! that they decode identically.

use vstd::prelude::*;

verus! {

/// SPI word size configuration
#[derive(Debug, Clone, Copy, PartialEq, Eq, Structural)]
pub enum WordLength {
    /// 16-bit words
    Bits16,
    /// 24-bit words
    ///
    /// This is the default word length
    Bits24,
    /// 32-bit words, with zero padding
    Bits32Zero,
    /// 32-bit words with the sign extension for 24-bit ADC data
    Bits32Signed,
}

impl WordLength {
    /// Canonical 2-bit code of this setting.
    pub open spec fn spec_code(self) -> u16 {
        match self {
            WordLength::Bits16 => 0,
            WordLength::Bits24 => 1,
            WordLength::Bits32Zero => 2,
            WordLength::Bits32Signed => 3,
        }
    }

    /// Total decode over the 2-bit code space.
    pub open spec fn spec_from_code(code: u16) -> WordLength {
        if code == 0 {
            WordLength::Bits16
        } else if code == 1 {
            WordLength::Bits24
        } else if code == 2 {
            WordLength::Bits32Zero
        } else {
            WordLength::Bits32Signed
        }
    }

    /// Canonical code of this setting.
    pub fn code(self) -> (c: u16)
        ensures
            c == self.spec_code(),
    {
        match self {
            WordLength::Bits16 => 0,
            WordLength::Bits24 => 1,
            WordLength::Bits32Zero => 2,
            WordLength::Bits32Signed => 3,
        }
    }

    /// Decode a field code; total over the 2-bit range.
    pub fn from_code(code: u16) -> (v: WordLength)
        ensures
            v == Self::spec_from_code(code),
    {
        if code == 0 {
            WordLength::Bits16
        } else if code == 1 {
            WordLength::Bits24
        } else if code == 2 {
            WordLength::Bits32Zero
        } else {
            WordLength::Bits32Signed
        }
    }
}

impl Default for WordLength {
    fn default() -> (r: Self)
        ensures
            r == WordLength::Bits24,
    {
        WordLength::Bits24
    }
}

/// Decoding the canonical code of a word length yields the value back.
pub proof fn lemma_word_length_round(v: WordLength)
    ensures
        WordLength::spec_from_code(v.spec_code()) == v,
        v.spec_code() < 4,
{
}

/// CRC implementation used for device communication
#[derive(Debug, Clone, Copy, PartialEq, Eq, Structural)]
pub enum CrcType {
    /// 16 bit CCITT.
    ///
    /// This is the default CRC mode
    Ccitt,
    /// 16 bit ANSI
    Ansi,
}

impl CrcType {
    /// Canonical 1-bit code of this setting.
    pub open spec fn spec_code(self) -> u16 {
        match self {
            CrcType::Ccitt => 0,
            CrcType::Ansi => 1,
        }
    }

    /// Total decode over the 1-bit code space.
    pub open spec fn spec_from_code(code: u16) -> CrcType {
        if code == 0 {
            CrcType::Ccitt
        } else {
            CrcType::Ansi
        }
    }

    /// Canonical code of this setting.
    pub fn code(self) -> (c: u16)
        ensures
            c == self.spec_code(),
    {
        match self {
            CrcType::Ccitt => 0,
            CrcType::Ansi => 1,
        }
    }

    /// Decode a field code; total over the 1-bit range.
    pub fn from_code(code: u16) -> (v: CrcType)
        ensures
            v == Self::spec_from_code(code),
    {
        if code == 0 {
            CrcType::Ccitt
        } else {
            CrcType::Ansi
        }
    }
}

impl Default for CrcType {
    fn default() -> (r: Self)
        ensures
            r == CrcType::Ccitt,
    {
        CrcType::Ccitt
    }
}

/// Decoding the canonical code of a CRC type yields the value back.
pub proof fn lemma_crc_type_round(v: CrcType)
    ensures
        CrcType::spec_from_code(v.spec_code()) == v,
        v.spec_code() < 2,
{
}

/// DRDY pin source selection
#[derive(Debug, Clone, Copy, PartialEq, Eq, Structural)]
pub enum DrdySource {
    /// Most lagging enabled channel
    ///
    /// This is the default DRDY source
    MostLagging,
    /// Logic OR of all the enabled channels
    LogicOr,
    /// Most leading enabled channel
    ///
    /// Code 3 is a documented alias of this value.
    MostLeading,
}

impl DrdySource {
    /// Canonical 2-bit code of this setting.
    pub open spec fn spec_code(self) -> u16 {
        match self {
            DrdySource::MostLagging => 0,
            DrdySource::LogicOr => 1,
            DrdySource::MostLeading => 2,
        }
    }

    /// Total decode over the 2-bit code space; code 3 aliases code 2.
    pub open spec fn spec_from_code(code: u16) -> DrdySource {
        if code == 0 {
            DrdySource::MostLagging
        } else if code == 1 {
            DrdySource::LogicOr
        } else {
            DrdySource::MostLeading
        }
    }

    /// Canonical code of this setting.
    pub fn code(self) -> (c: u16)
        ensures
            c == self.spec_code(),
    {
        match self {
            DrdySource::MostLagging => 0,
            DrdySource::LogicOr => 1,
            DrdySource::MostLeading => 2,
        }
    }

    /// Decode a field code; total over the 2-bit range.
    pub fn from_code(code: u16) -> (v: DrdySource)
        ensures
            v == Self::spec_from_code(code),
    {
        if code == 0 {
            DrdySource::MostLagging
        } else if code == 1 {
            DrdySource::LogicOr
        } else {
            DrdySource::MostLeading
        }
    }
}

impl Default for DrdySource {
    fn default() -> (r: Self)
        ensures
            r == DrdySource::MostLagging,
    {
        DrdySource::MostLagging
    }
}

/// Decoding the canonical code of a DRDY source yields the value back.
pub proof fn lemma_drdy_source_round(v: DrdySource)
    ensures
        DrdySource::spec_from_code(v.spec_code()) == v,
        v.spec_code() < 4,
{
}

/// DRDY state when conversion data is not available
#[derive(Debug, Clone, Copy, PartialEq, Eq, Structural)]
pub enum DrdyNotReadyState {
    /// Logic high
    ///
    /// This is the default DRDY not ready state
    LogicHigh,
    /// High impedance
    HighImpedance,
}

impl DrdyNotReadyState {
    /// Canonical 1-bit code of this setting.
    pub open spec fn spec_code(self) -> u16 {
        match self {
            DrdyNotReadyState::LogicHigh => 0,
            DrdyNotReadyState::HighImpedance => 1,
        }
    }

    /// Total decode over the 1-bit code space.
    pub open spec fn spec_from_code(code: u16) -> DrdyNotReadyState {
        if code == 0 {
            DrdyNotReadyState::LogicHigh
        } else {
            DrdyNotReadyState::HighImpedance
        }
    }

    /// Canonical code of this setting.
    pub fn code(self) -> (c: u16)
        ensures
            c == self.spec_code(),
    {
        match self {
            DrdyNotReadyState::LogicHigh => 0,
            DrdyNotReadyState::HighImpedance => 1,
        }
    }

    /// Decode a field code; total over the 1-bit range.
    pub fn from_code(code: u16) -> (v: DrdyNotReadyState)
        ensures
            v == Self::spec_from_code(code),
    {
        if code == 0 {
            DrdyNotReadyState::LogicHigh
        } else {
            DrdyNotReadyState::HighImpedance
        }
    }
}

impl Default for DrdyNotReadyState {
    fn default() -> (r: Self)
        ensures
            r == DrdyNotReadyState::LogicHigh,
    {
        DrdyNotReadyState::LogicHigh
    }
}

/// Decoding the canonical code of a DRDY not-ready state yields the value back.
pub proof fn lemma_drdy_not_ready_round(v: DrdyNotReadyState)
    ensures
        DrdyNotReadyState::spec_from_code(v.spec_code()) == v,
        v.spec_code() < 2,
{
}

/// DRDY state when conversion data is available
#[derive(Debug, Clone, Copy, PartialEq, Eq, Structural)]
pub enum DrdyReadyState {
    /// Logic low
    ///
    /// This is the default DRDY not state
    LogicLow,
    /// Low pulse with a fixed duration
    LowPulse,
}

impl DrdyReadyState {
    /// Canonical 1-bit code of this setting.
    pub open spec fn spec_code(self) -> u16 {
        match self {
            DrdyReadyState::LogicLow => 0,
            DrdyReadyState::LowPulse => 1,
        }
    }

    /// Total decode over the 1-bit code space.
    pub open spec fn spec_from_code(code: u16) -> DrdyReadyState {
        if code == 0 {
            DrdyReadyState::LogicLow
        } else {
            DrdyReadyState::LowPulse
        }
    }

    /// Canonical code of this setting.
    pub fn code(self) -> (c: u16)
        ensures
            c == self.spec_code(),
    {
        match self {
            DrdyReadyState::LogicLow => 0,
            DrdyReadyState::LowPulse => 1,
        }
    }

    /// Decode a field code; total over the 1-bit range.
    pub fn from_code(code: u16) -> (v: DrdyReadyState)
        ensures
            v == Self::spec_from_code(code),
    {
        if code == 0 {
            DrdyReadyState::LogicLow
        } else {
            DrdyReadyState::LowPulse
        }
    }
}

impl Default for DrdyReadyState {
    fn default() -> (r: Self)
        ensures
            r == DrdyReadyState::LogicLow,
    {
        DrdyReadyState::LogicLow
    }
}

/// Decoding the canonical code of a DRDY ready state yields the value back.
pub proof fn lemma_drdy_ready_round(v: DrdyReadyState)
    ensures
        DrdyReadyState::spec_from_code(v.spec_code()) == v,
        v.spec_code() < 2,
{
}

/// Oversampling mode configuration
#[derive(Debug, Clone, Copy, PartialEq, Eq, Structural)]
pub enum OversamplingRatio {
    /// Oversampling ratio of 64
    ///
    /// Codes 9 through 15 are documented aliases of this value.
    Osr64,
    /// Oversampling ratio of 128
    Osr128,
    /// Oversampling ratio of 256
    Osr256,
    /// Oversampling ratio of 512
    Osr512,
    /// Oversampling ratio of 1024
    ///
    /// This is the default oversampling ratio
    Osr1024,
    /// Oversampling ratio of 2048
    Osr2048,
    /// Oversampling ratio of 4096
    Osr4096,
    /// Oversampling ratio of 8192
    Osr8192,
    /// Oversampling ratio of 16256
    Osr16256,
}

impl OversamplingRatio {
    /// Canonical 4-bit code of this setting.
    pub open spec fn spec_code(self) -> u16 {
        match self {
            OversamplingRatio::Osr64 => 8,
            OversamplingRatio::Osr128 => 0,
            OversamplingRatio::Osr256 => 1,
            OversamplingRatio::Osr512 => 2,
            OversamplingRatio::Osr1024 => 3,
            OversamplingRatio::Osr2048 => 4,
            OversamplingRatio::Osr4096 => 5,
            OversamplingRatio::Osr8192 => 6,
            OversamplingRatio::Osr16256 => 7,
        }
    }

    /// Total decode over the 4-bit code space; codes 9 through 15 alias code 8.
    pub open spec fn spec_from_code(code: u16) -> OversamplingRatio {
        if code == 0 {
            OversamplingRatio::Osr128
        } else if code == 1 {
            OversamplingRatio::Osr256
        } else if code == 2 {
            OversamplingRatio::Osr512
        } else if code == 3 {
            OversamplingRatio::Osr1024
        } else if code == 4 {
            OversamplingRatio::Osr2048
        } else if code == 5 {
            OversamplingRatio::Osr4096
        } else if code == 6 {
            OversamplingRatio::Osr8192
        } else if code == 7 {
            OversamplingRatio::Osr16256
        } else {
            OversamplingRatio::Osr64
        }
    }

    /// Canonical code of this setting.
    pub fn code(self) -> (c: u16)
        ensures
            c == self.spec_code(),
    {
        match self {
            OversamplingRatio::Osr64 => 8,
            OversamplingRatio::Osr128 => 0,
            OversamplingRatio::Osr256 => 1,
            OversamplingRatio::Osr512 => 2,
            OversamplingRatio::Osr1024 => 3,
            OversamplingRatio::Osr2048 => 4,
            OversamplingRatio::Osr4096 => 5,
            OversamplingRatio::Osr8192 => 6,
            OversamplingRatio::Osr16256 => 7,
        }
    }

    /// Decode a field code; total over the 4-bit range.
    pub fn from_code(code: u16) -> (v: OversamplingRatio)
        ensures
            v == Self::spec_from_code(code),
    {
        if code == 0 {
            OversamplingRatio::Osr128
        } else if code == 1 {
            OversamplingRatio::Osr256
        } else if code == 2 {
            OversamplingRatio::Osr512
        } else if code == 3 {
            OversamplingRatio::Osr1024
        } else if code == 4 {
            OversamplingRatio::Osr2048
        } else if code == 5 {
            OversamplingRatio::Osr4096
        } else if code == 6 {
            OversamplingRatio::Osr8192
        } else if code == 7 {
            OversamplingRatio::Osr16256
        } else {
            OversamplingRatio::Osr64
        }
    }
}

impl Default for OversamplingRatio {
    fn default() -> (r: Self)
        ensures
            r == OversamplingRatio::Osr1024,
    {
        OversamplingRatio::Osr1024
    }
}

/// Decoding the canonical code of an oversampling ratio yields the value back.
pub proof fn lemma_oversampling_round(v: OversamplingRatio)
    ensures
        OversamplingRatio::spec_from_code(v.spec_code()) == v,
        v.spec_code() < 16,
{
}

/// Power mode setting
#[derive(Debug, Clone, Copy, PartialEq, Eq, Structural)]
pub enum PowerMode {
    /// Very low power mode
    VeryLowPower,
    /// Low power mode
    LowPower,
    /// High resolution mode
    ///
    /// This is the default power mode; code 3 is a documented alias.
    HighResolution,
}

impl PowerMode {
    /// Canonical 2-bit code of this setting.
    pub open spec fn spec_code(self) -> u16 {
        match self {
            PowerMode::VeryLowPower => 0,
            PowerMode::LowPower => 1,
            PowerMode::HighResolution => 2,
        }
    }

    /// Total decode over the 2-bit code space; code 3 aliases code 2.
    pub open spec fn spec_from_code(code: u16) -> PowerMode {
        if code == 0 {
            PowerMode::VeryLowPower
        } else if code == 1 {
            PowerMode::LowPower
        } else {
            PowerMode::HighResolution
        }
    }

    /// Canonical code of this setting.
    pub fn code(self) -> (c: u16)
        ensures
            c == self.spec_code(),
    {
        match self {
            PowerMode::VeryLowPower => 0,
            PowerMode::LowPower => 1,
            PowerMode::HighResolution => 2,
        }
    }

    /// Decode a field code; total over the 2-bit range.
    pub fn from_code(code: u16) -> (v: PowerMode)
        ensures
            v == Self::spec_from_code(code),
    {
        if code == 0 {
            PowerMode::VeryLowPower
        } else if code == 1 {
            PowerMode::LowPower
        } else {
            PowerMode::HighResolution
        }
    }
}

impl Default for PowerMode {
    fn default() -> (r: Self)
        ensures
            r == PowerMode::HighResolution,
    {
        PowerMode::HighResolution
    }
}

/// Decoding the canonical code of a power mode yields the value back.
pub proof fn lemma_power_mode_round(v: PowerMode)
    ensures
        PowerMode::spec_from_code(v.spec_code()) == v,
        v.spec_code() < 4,
{
}

/// PGA gain setting
#[derive(Debug, Clone, Copy, PartialEq, Eq, Structural)]
pub enum PgaGain {
    /// 1x gain
    ///
    /// This is the default gain setting
    Gain1,
    /// 2x gain
    Gain2,
    /// 4x gain
    Gain4,
    /// 8x gain
    Gain8,
    /// 16x gain
    Gain16,
    /// 32x gain
    Gain32,
    /// 64x gain
    Gain64,
    /// 128x gain
    Gain128,
}

impl PgaGain {
    /// Canonical 3-bit code of this setting.
    pub open spec fn spec_code(self) -> u16 {
        match self {
            PgaGain::Gain1 => 0,
            PgaGain::Gain2 => 1,
            PgaGain::Gain4 => 2,
            PgaGain::Gain8 => 3,
            PgaGain::Gain16 => 4,
            PgaGain::Gain32 => 5,
            PgaGain::Gain64 => 6,
            PgaGain::Gain128 => 7,
        }
    }

    /// Total decode over the 3-bit code space.
    pub open spec fn spec_from_code(code: u16) -> PgaGain {
        if code == 0 {
            PgaGain::Gain1
        } else if code == 1 {
            PgaGain::Gain2
        } else if code == 2 {
            PgaGain::Gain4
        } else if code == 3 {
            PgaGain::Gain8
        } else if code == 4 {
            PgaGain::Gain16
        } else if code == 5 {
            PgaGain::Gain32
        } else if code == 6 {
            PgaGain::Gain64
        } else {
            PgaGain::Gain128
        }
    }

    /// Canonical code of this setting.
    pub fn code(self) -> (c: u16)
        ensures
            c == self.spec_code(),
    {
        match self {
            PgaGain::Gain1 => 0,
            PgaGain::Gain2 => 1,
            PgaGain::Gain4 => 2,
            PgaGain::Gain8 => 3,
            PgaGain::Gain16 => 4,
            PgaGain::Gain32 => 5,
            PgaGain::Gain64 => 6,
            PgaGain::Gain128 => 7,
        }
    }

    /// Decode a field code; total over the 3-bit range.
    pub fn from_code(code: u16) -> (v: PgaGain)
        ensures
            v == Self::spec_from_code(code),
    {
        if code == 0 {
            PgaGain::Gain1
        } else if code == 1 {
            PgaGain::Gain2
        } else if code == 2 {
            PgaGain::Gain4
        } else if code == 3 {
            PgaGain::Gain8
        } else if code == 4 {
            PgaGain::Gain16
        } else if code == 5 {
            PgaGain::Gain32
        } else if code == 6 {
            PgaGain::Gain64
        } else {
            PgaGain::Gain128
        }
    }
}

impl Default for PgaGain {
    fn default() -> (r: Self)
        ensures
            r == PgaGain::Gain1,
    {
        PgaGain::Gain1
    }
}

/// Decoding the canonical code of a PGA gain yields the value back.
pub proof fn lemma_pga_gain_round(v: PgaGain)
    ensures
        PgaGain::spec_from_code(v.spec_code()) == v,
        v.spec_code() < 8,
{
}

/// Global chop delay selection
///
/// Delay in modulator clock periods before measurement begins
#[derive(Debug, Clone, Copy, PartialEq, Eq, Structural)]
pub enum GlobalChopDelay {
    /// 2 modulator clock delay
    Delay2,
    /// 4 modulator clock delay
    Delay4,
    /// 8 modulator clock delay
    Delay8,
    /// 16 modulator clock delay
    ///
    /// This is the default global-chop delay
    Delay16,
    /// 32 modulator clock delay
    Delay32,
    /// 64 modulator clock delay
    Delay64,
    /// 128 modulator clock delay
    Delay128,
    /// 256 modulator clock delay
    Delay256,
    /// 512 modulator clock delay
    Delay512,
    /// 1024 modulator clock delay
    Delay1024,
    /// 2048 modulator clock delay
    Delay2048,
    /// 4096 modulator clock delay
    Delay4096,
    /// 8192 modulator clock delay
    Delay8192,
    /// 16384 modulator clock delay
    Delay16384,
    /// 32768 modulator clock delay
    Delay32768,
    /// 65536 modulator clock delay
    Delay65536,
}

impl GlobalChopDelay {
    /// Canonical 4-bit code of this setting.
    pub open spec fn spec_code(self) -> u16 {
        match self {
            GlobalChopDelay::Delay2 => 0,
            GlobalChopDelay::Delay4 => 1,
            GlobalChopDelay::Delay8 => 2,
            GlobalChopDelay::Delay16 => 3,
            GlobalChopDelay::Delay32 => 4,
            GlobalChopDelay::Delay64 => 5,
            GlobalChopDelay::Delay128 => 6,
            GlobalChopDelay::Delay256 => 7,
            GlobalChopDelay::Delay512 => 8,
            GlobalChopDelay::Delay1024 => 9,
            GlobalChopDelay::Delay2048 => 10,
            GlobalChopDelay::Delay4096 => 11,
            GlobalChopDelay::Delay8192 => 12,
            GlobalChopDelay::Delay16384 => 13,
            GlobalChopDelay::Delay32768 => 14,
            GlobalChopDelay::Delay65536 => 15,
        }
    }

    /// Total decode over the 4-bit code space.
    pub open spec fn spec_from_code(code: u16) -> GlobalChopDelay {
        if code == 0 {
            GlobalChopDelay::Delay2
        } else if code == 1 {
            GlobalChopDelay::Delay4
        } else if code == 2 {
            GlobalChopDelay::Delay8
        } else if code == 3 {
            GlobalChopDelay::Delay16
        } else if code == 4 {
            GlobalChopDelay::Delay32
        } else if code == 5 {
            GlobalChopDelay::Delay64
        } else if code == 6 {
            GlobalChopDelay::Delay128
        } else if code == 7 {
            GlobalChopDelay::Delay256
        } else if code == 8 {
            GlobalChopDelay::Delay512
        } else if code == 9 {
            GlobalChopDelay::Delay1024
        } else if code == 10 {
            GlobalChopDelay::Delay2048
        } else if code == 11 {
            GlobalChopDelay::Delay4096
        } else if code == 12 {
            GlobalChopDelay::Delay8192
        } else if code == 13 {
            GlobalChopDelay::Delay16384
        } else if code == 14 {
            GlobalChopDelay::Delay32768
        } else {
            GlobalChopDelay::Delay65536
        }
    }

    /// Canonical code of this setting.
    pub fn code(self) -> (c: u16)
        ensures
            c == self.spec_code(),
    {
        match self {
            GlobalChopDelay::Delay2 => 0,
            GlobalChopDelay::Delay4 => 1,
            GlobalChopDelay::Delay8 => 2,
            GlobalChopDelay::Delay16 => 3,
            GlobalChopDelay::Delay32 => 4,
            GlobalChopDelay::Delay64 => 5,
            GlobalChopDelay::Delay128 => 6,
            GlobalChopDelay::Delay256 => 7,
            GlobalChopDelay::Delay512 => 8,
            GlobalChopDelay::Delay1024 => 9,
            GlobalChopDelay::Delay2048 => 10,
            GlobalChopDelay::Delay4096 => 11,
            GlobalChopDelay::Delay8192 => 12,
            GlobalChopDelay::Delay16384 => 13,
            GlobalChopDelay::Delay32768 => 14,
            GlobalChopDelay::Delay65536 => 15,
        }
    }

    /// Decode a field code; total over the 4-bit range.
    pub fn from_code(code: u16) -> (v: GlobalChopDelay)
        ensures
            v == Self::spec_from_code(code),
    {
        if code == 0 {
            GlobalChopDelay::Delay2
        } else if code == 1 {
            GlobalChopDelay::Delay4
        } else if code == 2 {
            GlobalChopDelay::Delay8
        } else if code == 3 {
            GlobalChopDelay::Delay16
        } else if code == 4 {
            GlobalChopDelay::Delay32
        } else if code == 5 {
            GlobalChopDelay::Delay64
        } else if code == 6 {
            GlobalChopDelay::Delay128
        } else if code == 7 {
            GlobalChopDelay::Delay256
        } else if code == 8 {
            GlobalChopDelay::Delay512
        } else if code == 9 {
            GlobalChopDelay::Delay1024
        } else if code == 10 {
            GlobalChopDelay::Delay2048
        } else if code == 11 {
            GlobalChopDelay::Delay4096
        } else if code == 12 {
            GlobalChopDelay::Delay8192
        } else if code == 13 {
            GlobalChopDelay::Delay16384
        } else if code == 14 {
            GlobalChopDelay::Delay32768
        } else {
            GlobalChopDelay::Delay65536
        }
    }
}

impl Default for GlobalChopDelay {
    fn default() -> (r: Self)
        ensures
            r == GlobalChopDelay::Delay16,
    {
        GlobalChopDelay::Delay16
    }
}

/// Decoding the canonical code of a global-chop delay yields the value back.
pub proof fn lemma_global_chop_delay_round(v: GlobalChopDelay)
    ensures
        GlobalChopDelay::spec_from_code(v.spec_code()) == v,
        v.spec_code() < 16,
{
}

/// Current-detect channel selection
/// Channels required to trigger current-detect
#[derive(Debug, Clone, Copy, PartialEq, Eq, Structural)]
pub enum CurrentDetectChannels {
    /// Any channel
    ///
    /// This is the default channel selection
    AnyChannel,
    /// All channels
    AllChannels,
}

impl CurrentDetectChannels {
    /// Canonical 1-bit code of this setting.
    pub open spec fn spec_code(self) -> u16 {
        match self {
            CurrentDetectChannels::AnyChannel => 0,
            CurrentDetectChannels::AllChannels => 1,
        }
    }

    /// Total decode over the 1-bit code space.
    pub open spec fn spec_from_code(code: u16) -> CurrentDetectChannels {
        if code == 0 {
            CurrentDetectChannels::AnyChannel
        } else {
            CurrentDetectChannels::AllChannels
        }
    }

    /// Canonical code of this setting.
    pub fn code(self) -> (c: u16)
        ensures
            c == self.spec_code(),
    {
        match self {
            CurrentDetectChannels::AnyChannel => 0,
            CurrentDetectChannels::AllChannels => 1,
        }
    }

    /// Decode a field code; total over the 1-bit range.
    pub fn from_code(code: u16) -> (v: CurrentDetectChannels)
        ensures
            v == Self::spec_from_code(code),
    {
        if code == 0 {
            CurrentDetectChannels::AnyChannel
        } else {
            CurrentDetectChannels::AllChannels
        }
    }
}

impl Default for CurrentDetectChannels {
    fn default() -> (r: Self)
        ensures
            r == CurrentDetectChannels::AnyChannel,
    {
        CurrentDetectChannels::AnyChannel
    }
}

/// Decoding the canonical code of a current-detect channel selection yields
/// the value back.
pub proof fn lemma_current_detect_channels_round(v: CurrentDetectChannels)
    ensures
        CurrentDetectChannels::spec_from_code(v.spec_code()) == v,
        v.spec_code() < 2,
{
}

/// Number of current-detect exceeded thresholds to trigger a detection
#[derive(Debug, Clone, Copy, PartialEq, Eq, Structural)]
pub enum CurrentDetectCount {
    /// 1 detection
    ///
    /// This is the default current-detect length
    Count1,
    /// 2 detections
    Count2,
    /// 4 detections
    Count4,
    /// 8 detections
    Count8,
    /// 16 detections
    Count16,
    /// 32 detections
    Count32,
    /// 64 detections
    Count64,
    /// 128 detections
    Count128,
}

impl CurrentDetectCount {
    /// Canonical 3-bit code of this setting.
    pub open spec fn spec_code(self) -> u16 {
        match self {
            CurrentDetectCount::Count1 => 0,
            CurrentDetectCount::Count2 => 1,
            CurrentDetectCount::Count4 => 2,
            CurrentDetectCount::Count8 => 3,
            CurrentDetectCount::Count16 => 4,
            CurrentDetectCount::Count32 => 5,
            CurrentDetectCount::Count64 => 6,
            CurrentDetectCount::Count128 => 7,
        }
    }

    /// Total decode over the 3-bit code space.
    pub open spec fn spec_from_code(code: u16) -> CurrentDetectCount {
        if code == 0 {
            CurrentDetectCount::Count1
        } else if code == 1 {
            CurrentDetectCount::Count2
        } else if code == 2 {
            CurrentDetectCount::Count4
        } else if code == 3 {
            CurrentDetectCount::Count8
        } else if code == 4 {
            CurrentDetectCount::Count16
        } else if code == 5 {
            CurrentDetectCount::Count32
        } else if code == 6 {
            CurrentDetectCount::Count64
        } else {
            CurrentDetectCount::Count128
        }
    }

    /// Canonical code of this setting.
    pub fn code(self) -> (c: u16)
        ensures
            c == self.spec_code(),
    {
        match self {
            CurrentDetectCount::Count1 => 0,
            CurrentDetectCount::Count2 => 1,
            CurrentDetectCount::Count4 => 2,
            CurrentDetectCount::Count8 => 3,
            CurrentDetectCount::Count16 => 4,
            CurrentDetectCount::Count32 => 5,
            CurrentDetectCount::Count64 => 6,
            CurrentDetectCount::Count128 => 7,
        }
    }

    /// Decode a field code; total over the 3-bit range.
    pub fn from_code(code: u16) -> (v: CurrentDetectCount)
        ensures
            v == Self::spec_from_code(code),
    {
        if code == 0 {
            CurrentDetectCount::Count1
        } else if code == 1 {
            CurrentDetectCount::Count2
        } else if code == 2 {
            CurrentDetectCount::Count4
        } else if code == 3 {
            CurrentDetectCount::Count8
        } else if code == 4 {
            CurrentDetectCount::Count16
        } else if code == 5 {
            CurrentDetectCount::Count32
        } else if code == 6 {
            CurrentDetectCount::Count64
        } else {
            CurrentDetectCount::Count128
        }
    }
}

impl Default for CurrentDetectCount {
    fn default() -> (r: Self)
        ensures
            r == CurrentDetectCount::Count1,
    {
        CurrentDetectCount::Count1
    }
}

/// Decoding the canonical code of a current-detect count yields the value back.
pub proof fn lemma_current_detect_count_round(v: CurrentDetectCount)
    ensures
        CurrentDetectCount::spec_from_code(v.spec_code()) == v,
        v.spec_code() < 8,
{
}

/// Current-detect measurement length in conversion periods
#[derive(Debug, Clone, Copy, PartialEq, Eq, Structural)]
pub enum CurrentDetectLength {
    /// 128 conversion periods
    ///
    /// This is the default current-detect length
    Len128,
    /// 256 conversion periods
    Len256,
    /// 512 conversion periods
    Len512,
    /// 768 conversion periods
    Len768,
    /// 1280 conversion periods
    Len1280,
    /// 1792 conversion periods
    Len1792,
    /// 2560 conversion periods
    Len2560,
    /// 3584 conversion periods
    Len3584,
}

impl CurrentDetectLength {
    /// Canonical 3-bit code of this setting.
    pub open spec fn spec_code(self) -> u16 {
        match self {
            CurrentDetectLength::Len128 => 0,
            CurrentDetectLength::Len256 => 1,
            CurrentDetectLength::Len512 => 2,
            CurrentDetectLength::Len768 => 3,
            CurrentDetectLength::Len1280 => 4,
            CurrentDetectLength::Len1792 => 5,
            CurrentDetectLength::Len2560 => 6,
            CurrentDetectLength::Len3584 => 7,
        }
    }

    /// Total decode over the 3-bit code space.
    pub open spec fn spec_from_code(code: u16) -> CurrentDetectLength {
        if code == 0 {
            CurrentDetectLength::Len128
        } else if code == 1 {
            CurrentDetectLength::Len256
        } else if code == 2 {
            CurrentDetectLength::Len512
        } else if code == 3 {
            CurrentDetectLength::Len768
        } else if code == 4 {
            CurrentDetectLength::Len1280
        } else if code == 5 {
            CurrentDetectLength::Len1792
        } else if code == 6 {
            CurrentDetectLength::Len2560
        } else {
            CurrentDetectLength::Len3584
        }
    }

    /// Canonical code of this setting.
    pub fn code(self) -> (c: u16)
        ensures
            c == self.spec_code(),
    {
        match self {
            CurrentDetectLength::Len128 => 0,
            CurrentDetectLength::Len256 => 1,
            CurrentDetectLength::Len512 => 2,
            CurrentDetectLength::Len768 => 3,
            CurrentDetectLength::Len1280 => 4,
            CurrentDetectLength::Len1792 => 5,
            CurrentDetectLength::Len2560 => 6,
            CurrentDetectLength::Len3584 => 7,
        }
    }

    /// Decode a field code; total over the 3-bit range.
    pub fn from_code(code: u16) -> (v: CurrentDetectLength)
        ensures
            v == Self::spec_from_code(code),
    {
        if code == 0 {
            CurrentDetectLength::Len128
        } else if code == 1 {
            CurrentDetectLength::Len256
        } else if code == 2 {
            CurrentDetectLength::Len512
        } else if code == 3 {
            CurrentDetectLength::Len768
        } else if code == 4 {
            CurrentDetectLength::Len1280
        } else if code == 5 {
            CurrentDetectLength::Len1792
        } else if code == 6 {
            CurrentDetectLength::Len2560
        } else {
            CurrentDetectLength::Len3584
        }
    }
}

impl Default for CurrentDetectLength {
    fn default() -> (r: Self)
        ensures
            r == CurrentDetectLength::Len128,
    {
        CurrentDetectLength::Len128
    }
}

/// Decoding the canonical code of a current-detect length yields the value back.
pub proof fn lemma_current_detect_length_round(v: CurrentDetectLength)
    ensures
        CurrentDetectLength::spec_from_code(v.spec_code()) == v,
        v.spec_code() < 8,
{
}

/// DC block filter setting
#[derive(Debug, Clone, Copy, PartialEq, Eq, Structural)]
pub enum DcBlock {
    /// DC block filter disabled
    Disabled,
    /// 1/4
    OneOver4,
    /// 1/8
    OneOver8,
    /// 1/16
    OneOver16,
    /// 1/32
    OneOver32,
    /// 1/64
    OneOver64,
    /// 1/128
    OneOver128,
    /// 1/256
    OneOver256,
    /// 1/512
    OneOver512,
    /// 1/1024
    OneOver1024,
    /// 1/2048
    OneOver2048,
    /// 1/4096
    OneOver4096,
    /// 1/8192
    OneOver8192,
    /// 1/16384
    OneOver16384,
    /// 1/32768
    OneOver32768,
    /// 1/65536
    OneOver65536,
}

impl DcBlock {
    /// Canonical 4-bit code of this setting.
    pub open spec fn spec_code(self) -> u16 {
        match self {
            DcBlock::Disabled => 0,
            DcBlock::OneOver4 => 1,
            DcBlock::OneOver8 => 2,
            DcBlock::OneOver16 => 3,
            DcBlock::OneOver32 => 4,
            DcBlock::OneOver64 => 5,
            DcBlock::OneOver128 => 6,
            DcBlock::OneOver256 => 7,
            DcBlock::OneOver512 => 8,
            DcBlock::OneOver1024 => 9,
            DcBlock::OneOver2048 => 10,
            DcBlock::OneOver4096 => 11,
            DcBlock::OneOver8192 => 12,
            DcBlock::OneOver16384 => 13,
            DcBlock::OneOver32768 => 14,
            DcBlock::OneOver65536 => 15,
        }
    }

    /// Total decode over the 4-bit code space.
    pub open spec fn spec_from_code(code: u16) -> DcBlock {
        if code == 0 {
            DcBlock::Disabled
        } else if code == 1 {
            DcBlock::OneOver4
        } else if code == 2 {
            DcBlock::OneOver8
        } else if code == 3 {
            DcBlock::OneOver16
        } else if code == 4 {
            DcBlock::OneOver32
        } else if code == 5 {
            DcBlock::OneOver64
        } else if code == 6 {
            DcBlock::OneOver128
        } else if code == 7 {
            DcBlock::OneOver256
        } else if code == 8 {
            DcBlock::OneOver512
        } else if code == 9 {
            DcBlock::OneOver1024
        } else if code == 10 {
            DcBlock::OneOver2048
        } else if code == 11 {
            DcBlock::OneOver4096
        } else if code == 12 {
            DcBlock::OneOver8192
        } else if code == 13 {
            DcBlock::OneOver16384
        } else if code == 14 {
            DcBlock::OneOver32768
        } else {
            DcBlock::OneOver65536
        }
    }

    /// Canonical code of this setting.
    pub fn code(self) -> (c: u16)
        ensures
            c == self.spec_code(),
    {
        match self {
            DcBlock::Disabled => 0,
            DcBlock::OneOver4 => 1,
            DcBlock::OneOver8 => 2,
            DcBlock::OneOver16 => 3,
            DcBlock::OneOver32 => 4,
            DcBlock::OneOver64 => 5,
            DcBlock::OneOver128 => 6,
            DcBlock::OneOver256 => 7,
            DcBlock::OneOver512 => 8,
            DcBlock::OneOver1024 => 9,
            DcBlock::OneOver2048 => 10,
            DcBlock::OneOver4096 => 11,
            DcBlock::OneOver8192 => 12,
            DcBlock::OneOver16384 => 13,
            DcBlock::OneOver32768 => 14,
            DcBlock::OneOver65536 => 15,
        }
    }

    /// Decode a field code; total over the 4-bit range.
    pub fn from_code(code: u16) -> (v: DcBlock)
        ensures
            v == Self::spec_from_code(code),
    {
        if code == 0 {
            DcBlock::Disabled
        } else if code == 1 {
            DcBlock::OneOver4
        } else if code == 2 {
            DcBlock::OneOver8
        } else if code == 3 {
            DcBlock::OneOver16
        } else if code == 4 {
            DcBlock::OneOver32
        } else if code == 5 {
            DcBlock::OneOver64
        } else if code == 6 {
            DcBlock::OneOver128
        } else if code == 7 {
            DcBlock::OneOver256
        } else if code == 8 {
            DcBlock::OneOver512
        } else if code == 9 {
            DcBlock::OneOver1024
        } else if code == 10 {
            DcBlock::OneOver2048
        } else if code == 11 {
            DcBlock::OneOver4096
        } else if code == 12 {
            DcBlock::OneOver8192
        } else if code == 13 {
            DcBlock::OneOver16384
        } else if code == 14 {
            DcBlock::OneOver32768
        } else {
            DcBlock::OneOver65536
        }
    }
}

impl Default for DcBlock {
    fn default() -> (r: Self)
        ensures
            r == DcBlock::Disabled,
    {
        DcBlock::Disabled
    }
}

/// Decoding the canonical code of a DC block setting yields the value back.
pub proof fn lemma_dc_block_round(v: DcBlock)
    ensures
        DcBlock::spec_from_code(v.spec_code()) == v,
        v.spec_code() < 16,
{
}

/// Channel input selection
#[derive(Debug, Clone, Copy, PartialEq, Eq, Structural)]
pub enum ChannelMux {
    /// AINxP and AINxN
    ///
    /// This is the default channel mux setting
    AnalogIn,
    /// ADC inputs shorted
    Shorted,
    /// Positive DC test signal
    PositiveTest,
    /// Negative DC test signal
    NegativeTest,
}

impl ChannelMux {
    /// Canonical 2-bit code of this setting.
    pub open spec fn spec_code(self) -> u16 {
        match self {
            ChannelMux::AnalogIn => 0,
            ChannelMux::Shorted => 1,
            ChannelMux::PositiveTest => 2,
            ChannelMux::NegativeTest => 3,
        }
    }

    /// Total decode over the 2-bit code space.
    pub open spec fn spec_from_code(code: u16) -> ChannelMux {
        if code == 0 {
            ChannelMux::AnalogIn
        } else if code == 1 {
            ChannelMux::Shorted
        } else if code == 2 {
            ChannelMux::PositiveTest
        } else {
            ChannelMux::NegativeTest
        }
    }

    /// Canonical code of this setting.
    pub fn code(self) -> (c: u16)
        ensures
            c == self.spec_code(),
    {
        match self {
            ChannelMux::AnalogIn => 0,
            ChannelMux::Shorted => 1,
            ChannelMux::PositiveTest => 2,
            ChannelMux::NegativeTest => 3,
        }
    }

    /// Decode a field code; total over the 2-bit range.
    pub fn from_code(code: u16) -> (v: ChannelMux)
        ensures
            v == Self::spec_from_code(code),
    {
        if code == 0 {
            ChannelMux::AnalogIn
        } else if code == 1 {
            ChannelMux::Shorted
        } else if code == 2 {
            ChannelMux::PositiveTest
        } else {
            ChannelMux::NegativeTest
        }
    }
}

impl Default for ChannelMux {
    fn default() -> (r: Self)
        ensures
            r == ChannelMux::AnalogIn,
    {
        ChannelMux::AnalogIn
    }
}

/// Decoding the canonical code of a channel mux setting yields the value back.
pub proof fn lemma_channel_mux_round(v: ChannelMux)
    ensures
        ChannelMux::spec_from_code(v.spec_code()) == v,
        v.spec_code() < 4,
{
}

/// Alias equivalence: the alias code of the DRDY source field decodes to the
/// same value as the canonical code of `MostLeading`.
pub proof fn lemma_drdy_source_alias()
    ensures
        DrdySource::spec_from_code(3) == DrdySource::spec_from_code(2),
{
}

/// Alias equivalence: the alias code of the power mode field decodes to the
/// same value as the canonical code of `HighResolution`.
pub proof fn lemma_power_mode_alias()
    ensures
        PowerMode::spec_from_code(3) == PowerMode::spec_from_code(2),
{
}

/// Alias equivalence: every alias code of the oversampling-ratio field decodes
/// to the same value as the canonical code of `Osr64`.
pub proof fn lemma_oversampling_ratio_alias()
    ensures
        forall|code: u16|
            9 <= code <= 15 ==> #[trigger] OversamplingRatio::spec_from_code(code)
                == OversamplingRatio::spec_from_code(8),
{
}

} // verus!
