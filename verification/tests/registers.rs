use ads131m::fields::{
    ChannelMux, CrcType, CurrentDetectChannels, CurrentDetectCount, CurrentDetectLength, DcBlock,
    DrdyNotReadyState, DrdyReadyState, DrdySource, GlobalChopDelay, OversamplingRatio, PgaGain,
    PowerMode, WordLength,
};
use ads131m::registers::{
    ChannelConfig, Clock, Config, Gain, GainCal, Id, Mode, OffsetCal, Status, Threshold,
};

const ALL_BOOLS: [bool; 2] = [false, true];

const ALL_CRC_TYPES: [CrcType; 2] = [CrcType::Ccitt, CrcType::Ansi];

const ALL_WORD_LENGTHS: [WordLength; 4] = [
    WordLength::Bits16,
    WordLength::Bits24,
    WordLength::Bits32Zero,
    WordLength::Bits32Signed,
];

const ALL_DRDY_SOURCES: [DrdySource; 3] = [
    DrdySource::MostLagging,
    DrdySource::LogicOr,
    DrdySource::MostLeading,
];

const ALL_DRDY_NOT_READY_STATES: [DrdyNotReadyState; 2] =
    [DrdyNotReadyState::LogicHigh, DrdyNotReadyState::HighImpedance];

const ALL_DRDY_READY_STATES: [DrdyReadyState; 2] =
    [DrdyReadyState::LogicLow, DrdyReadyState::LowPulse];

const ALL_OVERSAMPLING_RATIOS: [OversamplingRatio; 9] = [
    OversamplingRatio::Osr64,
    OversamplingRatio::Osr128,
    OversamplingRatio::Osr256,
    OversamplingRatio::Osr512,
    OversamplingRatio::Osr1024,
    OversamplingRatio::Osr2048,
    OversamplingRatio::Osr4096,
    OversamplingRatio::Osr8192,
    OversamplingRatio::Osr16256,
];

const ALL_POWER_MODES: [PowerMode; 3] = [
    PowerMode::VeryLowPower,
    PowerMode::LowPower,
    PowerMode::HighResolution,
];

const ALL_PGA_GAINS: [PgaGain; 8] = [
    PgaGain::Gain1,
    PgaGain::Gain2,
    PgaGain::Gain4,
    PgaGain::Gain8,
    PgaGain::Gain16,
    PgaGain::Gain32,
    PgaGain::Gain64,
    PgaGain::Gain128,
];

const ALL_GLOBAL_CHOP_DELAYS: [GlobalChopDelay; 16] = [
    GlobalChopDelay::Delay2,
    GlobalChopDelay::Delay4,
    GlobalChopDelay::Delay8,
    GlobalChopDelay::Delay16,
    GlobalChopDelay::Delay32,
    GlobalChopDelay::Delay64,
    GlobalChopDelay::Delay128,
    GlobalChopDelay::Delay256,
    GlobalChopDelay::Delay512,
    GlobalChopDelay::Delay1024,
    GlobalChopDelay::Delay2048,
    GlobalChopDelay::Delay4096,
    GlobalChopDelay::Delay8192,
    GlobalChopDelay::Delay16384,
    GlobalChopDelay::Delay32768,
    GlobalChopDelay::Delay65536,
];

const ALL_CURRENT_DETECT_CHANNELS: [CurrentDetectChannels; 2] = [
    CurrentDetectChannels::AnyChannel,
    CurrentDetectChannels::AllChannels,
];

const ALL_CURRENT_DETECT_COUNTS: [CurrentDetectCount; 8] = [
    CurrentDetectCount::Count1,
    CurrentDetectCount::Count2,
    CurrentDetectCount::Count4,
    CurrentDetectCount::Count8,
    CurrentDetectCount::Count16,
    CurrentDetectCount::Count32,
    CurrentDetectCount::Count64,
    CurrentDetectCount::Count128,
];

const ALL_CURRENT_DETECT_LENGTHS: [CurrentDetectLength; 8] = [
    CurrentDetectLength::Len128,
    CurrentDetectLength::Len256,
    CurrentDetectLength::Len512,
    CurrentDetectLength::Len768,
    CurrentDetectLength::Len1280,
    CurrentDetectLength::Len1792,
    CurrentDetectLength::Len2560,
    CurrentDetectLength::Len3584,
];

const ALL_DC_BLOCKS: [DcBlock; 16] = [
    DcBlock::Disabled,
    DcBlock::OneOver4,
    DcBlock::OneOver8,
    DcBlock::OneOver16,
    DcBlock::OneOver32,
    DcBlock::OneOver64,
    DcBlock::OneOver128,
    DcBlock::OneOver256,
    DcBlock::OneOver512,
    DcBlock::OneOver1024,
    DcBlock::OneOver2048,
    DcBlock::OneOver4096,
    DcBlock::OneOver8192,
    DcBlock::OneOver16384,
    DcBlock::OneOver32768,
    DcBlock::OneOver65536,
];

const ALL_CHANNEL_MUXES: [ChannelMux; 4] = [
    ChannelMux::AnalogIn,
    ChannelMux::Shorted,
    ChannelMux::PositiveTest,
    ChannelMux::NegativeTest,
];

#[test]
fn id_decode() {
    for (word, count) in [
        (0x2200, 2),
        (0x2300, 3),
        (0x2400, 4),
        (0x2600, 6),
        (0x2800, 8),
    ] {
        assert_eq!(Id::from_word(word), Id { channel_count: count })
    }
}

#[test]
fn status_default() {
    assert_eq!(Status::from_word(0x500), Status::default())
}

#[test]
fn mode_default() {
    assert_eq!(Mode::default().to_word(), 0x510);
    assert_eq!(Mode::from_word(0x510), Mode::default())
}

#[test]
fn mode_round_trip() {
    for bools in ALL_BOOLS {
        for crc_type in ALL_CRC_TYPES {
            for word_length in ALL_WORD_LENGTHS {
                for drdy_source in ALL_DRDY_SOURCES {
                    for drdy_not_ready_state in ALL_DRDY_NOT_READY_STATES {
                        for drdy_ready_state in ALL_DRDY_READY_STATES {
                            let mode = Mode {
                                reg_crc_enable: bools,
                                spi_crc_enable: bools,
                                crc_type,
                                reset: bools,
                                word_length,
                                spi_timeout: bools,
                                drdy_source,
                                drdy_not_ready_state,
                                drdy_ready_state,
                            };

                            assert_eq!(mode, Mode::from_word(mode.to_word()))
                        }
                    }
                }
            }
        }
    }
}

#[test]
fn clock_default() {
    assert_eq!(Clock::default().to_word(), 0xF0E);
    assert_eq!(Clock::from_word(0xF0E), Clock::default())
}

#[test]
fn clock_round_trip() {
    for bools in ALL_BOOLS {
        for oversampling_ratio in ALL_OVERSAMPLING_RATIOS {
            for power_mode in ALL_POWER_MODES {
                let clock = Clock {
                    channel0_en: bools,
                    channel1_en: bools,
                    channel2_en: bools,
                    channel3_en: bools,
                    oversampling_ratio,
                    power_mode,
                };

                assert_eq!(clock, Clock::from_word(clock.to_word()))
            }
        }
    }
}

#[test]
fn gain_default() {
    assert_eq!(Gain::default().to_word(), 0);
    assert_eq!(Gain::from_word(0), Gain::default())
}

#[test]
fn gain_round_trip() {
    for gains in ALL_PGA_GAINS {
        let gain = Gain {
            pga_gain0: gains,
            pga_gain1: gains,
            pga_gain2: gains,
            pga_gain3: gains,
        };

        assert_eq!(gain, Gain::from_word(gain.to_word()))
    }
}

#[test]
fn config_default() {
    assert_eq!(Config::default().to_word(), 0x600);
    assert_eq!(Config::from_word(0x600), Config::default())
}

#[test]
fn config_round_trip() {
    for bools in ALL_BOOLS {
        for global_chop_delay in ALL_GLOBAL_CHOP_DELAYS {
            for current_detect_channels in ALL_CURRENT_DETECT_CHANNELS {
                for current_detect_count in ALL_CURRENT_DETECT_COUNTS {
                    for current_detect_length in ALL_CURRENT_DETECT_LENGTHS {
                        let config = Config {
                            global_chop_delay,
                            global_chop_enable: bools,
                            current_detect_channels,
                            current_detect_count,
                            current_detect_length,
                            current_detect_enable: bools,
                        };

                        assert_eq!(config, Config::from_word(config.to_word()))
                    }
                }
            }
        }
    }
}

#[test]
fn threshold_default() {
    assert_eq!(Threshold::default().to_words(), [0, 0]);
    assert_eq!(Threshold::from_words([0, 0]), Threshold::default())
}

#[test]
fn threshold_round_trip() {
    for thresholds in [
        0, 2097152, 4194304, 6291456, 8388608, 10485760, 12582912, 14680064,
    ] {
        for dc_block in ALL_DC_BLOCKS {
            let threshold = Threshold {
                current_detect_threshold: thresholds,
                dc_block,
            };

            assert_eq!(threshold, Threshold::from_words(threshold.to_words()))
        }
    }
}

#[test]
fn channel_config_default() {
    assert_eq!(ChannelConfig::default().to_word(), 0);
    assert_eq!(ChannelConfig::from_word(0), ChannelConfig::default())
}

#[test]
fn channel_config_round_trip() {
    for phase in [0, 128, 256, 384, 512, 640, 768, 896] {
        for dc_block_disable in [false, true] {
            for mux in ALL_CHANNEL_MUXES {
                let config = ChannelConfig {
                    phase,
                    dc_block_disable,
                    mux,
                };

                assert_eq!(config, ChannelConfig::from_word(config.to_word()))
            }
        }
    }
}

#[test]
fn channel_offset_cal_default() {
    assert_eq!(OffsetCal::default().to_words(), [0, 0]);
    assert_eq!(OffsetCal::from_words([0, 0]), OffsetCal::default())
}

#[test]
fn channel_offset_cal_round_trip() {
    for offset in [
        0, 2097152, 4194304, 6291456, 8388608, 10485760, 12582912, 14680064,
    ] {
        let offset_cal = OffsetCal { offset };

        assert_eq!(offset_cal, OffsetCal::from_words(offset_cal.to_words()));
    }
}

#[test]
fn channel_gain_cal_default() {
    assert_eq!(GainCal::default().to_words(), [0x8000, 0]);
    assert_eq!(GainCal::from_words([0x8000, 0]), GainCal::default())
}

#[test]
fn channel_gain_cal_round_trip() {
    for gain in [
        0, 2097152, 4194304, 6291456, 8388608, 10485760, 12582912, 14680064,
    ] {
        let gain_cal = GainCal { gain };

        assert_eq!(gain_cal, GainCal::from_words(gain_cal.to_words()));
    }
}

#[test]
fn drdy_source_alias_code_decodes_like_canonical() {
    // The 2-bit DRDY source field: code 3 is a documented alias of code 2.
    let canonical = Mode::from_word(0x510 | (2 << 2));
    let alias = Mode::from_word(0x510 | (3 << 2));
    assert_eq!(alias, canonical);
    assert_eq!(alias.drdy_source, DrdySource::MostLeading);
}

#[test]
fn power_mode_alias_code_decodes_like_canonical() {
    // The 2-bit power mode field: code 3 is a documented alias of code 2.
    let canonical = Clock::from_word(0xF0C | 2);
    let alias = Clock::from_word(0xF0C | 3);
    assert_eq!(alias.power_mode, canonical.power_mode);
    assert_eq!(alias.power_mode, PowerMode::HighResolution);
}

#[test]
fn oversampling_alias_codes_decode_like_canonical() {
    // The 4-bit oversampling field: codes 9 through 15 alias code 8.
    let canonical = Clock::from_word(8 << 2);
    for code in 9..16u16 {
        let alias = Clock::from_word(code << 2);
        assert_eq!(alias.oversampling_ratio, canonical.oversampling_ratio);
        assert_eq!(alias.oversampling_ratio, OversamplingRatio::Osr64);
    }
}

#[test]
fn status_decode_sets_every_flag() {
    let status = Status::from_word(0xFC0F);
    assert!(status.lock);
    assert!(status.resync);
    assert!(status.reg_map_crc_err);
    assert!(status.spi_crc_err);
    assert_eq!(status.crc_type, CrcType::Ansi);
    assert!(status.reset);
    assert_eq!(status.word_length, WordLength::Bits16);
    assert!(status.drdy0);
    assert!(status.drdy1);
    assert!(status.drdy2);
    assert!(status.drdy3);
}
