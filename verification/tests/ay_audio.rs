use spectrusty::peripherals::ay::audio::{
    Ay3_891xAudio, EnvelopeControl, NoiseControl, ToneControl, AyAmps, CLOCK_INCREASE,
    ENV_LEVEL_MASK, ENV_LEVEL_MOD_MASK, ENV_LEVEL_REV_MASK, ENV_SHAPE_ALT_MASK,
    ENV_SHAPE_ATTACK_MASK, ENV_SHAPE_CONT_MASK, ENV_SHAPE_HOLD_MASK,
};
use spectrusty::peripherals::ay::{io_port_value, AyRegChange, AyRegister};

#[test]
fn ay_3_889x_env_works() {
    let mut env = EnvelopeControl::default();

    for shape in [0, ENV_SHAPE_ALT_MASK,
                     ENV_SHAPE_HOLD_MASK,
                     ENV_SHAPE_ALT_MASK|ENV_SHAPE_HOLD_MASK,
                     ENV_SHAPE_CONT_MASK|ENV_SHAPE_HOLD_MASK].iter().copied() {
        env.set_shape(shape);
        assert_eq!(env.tick, 0);
        assert_eq!(env.cycle, shape);
        assert_eq!(env.level, ENV_LEVEL_REV_MASK|ENV_LEVEL_MOD_MASK|ENV_LEVEL_MASK);
        env.set_period(0);
        assert_eq!(env.period, 1);
        for exp_level in (0..=15).rev() {
            assert_eq!(env.update_level(), exp_level);
            assert_eq!(env.tick, 1);
        }
        for _ in 0..100 {
            assert_eq!(env.tick, 1);
            assert_eq!(env.update_level(), 0);
        }
    }

    for shape in [0, ENV_SHAPE_ALT_MASK,
                     ENV_SHAPE_HOLD_MASK,
                     ENV_SHAPE_ALT_MASK|ENV_SHAPE_HOLD_MASK,
                     ENV_SHAPE_CONT_MASK|ENV_SHAPE_ATTACK_MASK|ENV_SHAPE_ALT_MASK|ENV_SHAPE_HOLD_MASK
                     ].iter().copied() {
        env.set_shape(shape|ENV_SHAPE_ATTACK_MASK);
        assert_eq!(env.tick, 0);
        assert_eq!(env.cycle, shape|ENV_SHAPE_ATTACK_MASK);
        assert_eq!(env.level, ENV_LEVEL_MOD_MASK);
        env.set_period(0);
        assert_eq!(env.period, 1);
        for exp_level in 0..=15 {
            assert_eq!(env.update_level(), exp_level);
            assert_eq!(env.level, ENV_LEVEL_MOD_MASK|exp_level);
            assert_eq!(env.tick, 1);
        }
        for _ in 0..100 {
            assert_eq!(env.tick, 1);
            assert_eq!(env.update_level(), 0);
            assert_eq!(env.level, 0);
        }
    }

    env.set_shape(ENV_SHAPE_CONT_MASK);
    assert_eq!(env.tick, 0);
    assert_eq!(env.cycle, ENV_SHAPE_CONT_MASK);
    assert_eq!(env.level, ENV_LEVEL_REV_MASK|ENV_LEVEL_MOD_MASK|ENV_LEVEL_MASK);
    env.set_period(0);
    assert_eq!(env.period, 1);
    for _ in 0..10 {
        for exp_level in (0..=15).rev() {
            assert_eq!(env.update_level(), exp_level);
            assert_eq!(env.level, ENV_LEVEL_REV_MASK|ENV_LEVEL_MOD_MASK|exp_level);
            assert_eq!(env.tick, 1);
        }
    }

    env.set_shape(ENV_SHAPE_CONT_MASK|ENV_SHAPE_ALT_MASK);
    assert_eq!(env.tick, 0);
    assert_eq!(env.cycle, ENV_SHAPE_CONT_MASK|ENV_SHAPE_ALT_MASK);
    assert_eq!(env.level, ENV_LEVEL_REV_MASK|ENV_LEVEL_MOD_MASK|ENV_LEVEL_MASK);
    env.set_period(0);
    assert_eq!(env.period, 1);
    for _ in 0..10 {
        for exp_level in (0..=15).rev() {
            assert_eq!(env.update_level(), exp_level);
            assert_eq!(env.level, ENV_LEVEL_REV_MASK|ENV_LEVEL_MOD_MASK|exp_level);
            assert_eq!(env.tick, 1);
        }
        for exp_level in 0..=15 {
            assert_eq!(env.update_level(), exp_level);
            assert_eq!(env.level, ENV_LEVEL_MOD_MASK|exp_level);
            assert_eq!(env.tick, 1);
        }
    }

    env.set_shape(ENV_SHAPE_CONT_MASK|ENV_SHAPE_ALT_MASK|ENV_SHAPE_HOLD_MASK);
    assert_eq!(env.tick, 0);
    assert_eq!(env.cycle, ENV_SHAPE_CONT_MASK|ENV_SHAPE_ALT_MASK|ENV_SHAPE_HOLD_MASK);
    assert_eq!(env.level, ENV_LEVEL_REV_MASK|ENV_LEVEL_MOD_MASK|ENV_LEVEL_MASK);
    env.set_period(0);
    assert_eq!(env.period, 1);
    for exp_level in (0..=15).rev() {
        assert_eq!(env.update_level(), exp_level);
        assert_eq!(env.level, ENV_LEVEL_REV_MASK|ENV_LEVEL_MOD_MASK|exp_level);
        assert_eq!(env.tick, 1);
    }
    for _ in 0..100 {
        assert_eq!(env.tick, 1);
        assert_eq!(env.update_level(), 15);
        assert_eq!(env.level, ENV_LEVEL_REV_MASK|15);
    }

    env.set_shape(ENV_SHAPE_CONT_MASK|ENV_SHAPE_ATTACK_MASK);
    assert_eq!(env.tick, 0);
    assert_eq!(env.cycle, ENV_SHAPE_CONT_MASK|ENV_SHAPE_ATTACK_MASK);
    assert_eq!(env.level, ENV_LEVEL_MOD_MASK);
    env.set_period(0);
    assert_eq!(env.period, 1);
    for _ in 0..10 {
        for exp_level in 0..=15 {
            assert_eq!(env.update_level(), exp_level);
            assert_eq!(env.level, ENV_LEVEL_MOD_MASK|exp_level);
            assert_eq!(env.tick, 1);
        }
    }

    env.set_shape(ENV_SHAPE_CONT_MASK|ENV_SHAPE_ATTACK_MASK|ENV_SHAPE_HOLD_MASK);
    assert_eq!(env.tick, 0);
    assert_eq!(env.cycle, ENV_SHAPE_CONT_MASK|ENV_SHAPE_ATTACK_MASK|ENV_SHAPE_HOLD_MASK);
    assert_eq!(env.level, ENV_LEVEL_MOD_MASK);
    env.set_period(0);
    assert_eq!(env.period, 1);
    for exp_level in 0..=15 {
        assert_eq!(env.update_level(), exp_level);
        assert_eq!(env.level, ENV_LEVEL_MOD_MASK|exp_level);
        assert_eq!(env.tick, 1);
    }
    for _ in 0..100 {
        assert_eq!(env.tick, 1);
        assert_eq!(env.update_level(), 15);
        assert_eq!(env.level, 15);
    }

    env.set_shape(ENV_SHAPE_CONT_MASK|ENV_SHAPE_ATTACK_MASK|ENV_SHAPE_ALT_MASK);
    assert_eq!(env.tick, 0);
    assert_eq!(env.cycle, ENV_SHAPE_CONT_MASK|ENV_SHAPE_ATTACK_MASK|ENV_SHAPE_ALT_MASK);
    assert_eq!(env.level, ENV_LEVEL_MOD_MASK);
    env.set_period(0);
    assert_eq!(env.period, 1);
    for _ in 0..10 {
        for exp_level in 0..=15 {
            assert_eq!(env.update_level(), exp_level);
            assert_eq!(env.level, ENV_LEVEL_MOD_MASK|exp_level);
            assert_eq!(env.tick, 1);
        }
        for exp_level in (0..=15).rev() {
            assert_eq!(env.update_level(), exp_level);
            assert_eq!(env.level, ENV_LEVEL_REV_MASK|ENV_LEVEL_MOD_MASK|exp_level);
            assert_eq!(env.tick, 1);
        }
    }
}

#[test]
fn ay_registers_set_generator_state() {
    let mut ay = Ay3_891xAudio::default();
    ay.update_register(AyRegister::ToneFineA, 0x34);
    ay.update_register(AyRegister::ToneCoarseA, 0xF2);
    ay.update_register(AyRegister::ToneFineC, 3);
    assert_eq!(ay.get_tone_periods(), [0x234, 0, 3]);
    ay.update_register(AyRegister::AmpLevelB, 0x1F);
    ay.update_register(AyRegister::AmpLevelC, 0x07);
    // channel B follows the envelope level
    assert_eq!(ay.get_amp_levels(), [0, 0, 7]);
    ay.update_register(AyRegister::NoisePeriod, 0xFF);
    assert_eq!(ay.get_noise_pitch(), 0x1F);
    ay.update_register(AyRegister::MixerControl, 0x38);
    assert_eq!(ay.get_mixer(), 0x38);
    ay.update_register(AyRegister::EnvPerFine, 0x00);
    ay.update_register(AyRegister::EnvPerCoarse, 0x00);
    assert_eq!(ay.get_envelope_period(), 1);
    ay.update_register(AyRegister::EnvShape, 0x0D);
    assert_eq!(ay.get_envelope_shape(), 0x0D);
    ay.reset();
    assert_eq!(ay.get_mixer(), 0);
    assert_eq!(ay.get_amp_levels(), [0, 0, 0]);
}

#[test]
fn tone_period_min_threshold_works() {
    let mut tone = ToneControl::default();
    tone.set_period(0);
    assert_eq!(tone.period, 1);
    tone.set_period(0xFFFF);
    assert_eq!(tone.period, 0xFFF);
    tone.set_period(2);
    // a period below the threshold gives a constant high output
    for _ in 0..10 {
        assert!(!tone.update_is_low());
    }
    tone.set_period(5);
    let mut lows = 0;
    for _ in 0..10 {
        if tone.update_is_low() { lows += 1; }
    }
    assert_eq!(lows, 4);
}

#[test]
fn noise_period_works() {
    let mut noise = NoiseControl::default();
    noise.set_period(0);
    assert_eq!(noise.period, 1);
    noise.set_period(0xFF);
    assert_eq!(noise.period, 0x1F);
}

#[test]
fn render_levels_applies_changes_in_time() {
    let mut ay = Ay3_891xAudio::default();
    let changes = [
        AyRegChange { time: 0, reg: AyRegister::MixerControl, val: 0x3F },
        AyRegChange { time: 0, reg: AyRegister::AmpLevelA, val: 9 },
        AyRegChange { time: 64, reg: AyRegister::AmpLevelB, val: 4 },
    ];
    let levels = ay.render_levels(&changes, 128, 100);
    assert_eq!(levels.len(), 4);
    assert_eq!(levels[0], (0, [9, 0, 0]));
    assert_eq!(levels[1], (CLOCK_INCREASE, [9, 0, 0]));
    assert_eq!(levels[2], (2 * CLOCK_INCREASE, [9, 4, 0]));
    assert_eq!(levels[3], (3 * CLOCK_INCREASE, [9, 4, 0]));
    // the time of the generator moves on to the next frame
    let levels = ay.render_levels(&[], 32, 100);
    assert_eq!(levels, vec![(28, [9, 4, 0])]);
}

#[test]
fn render_audio_gives_steps_on_changes() {
    let mut ay = Ay3_891xAudio::default();
    let changes = [
        AyRegChange { time: 0, reg: AyRegister::MixerControl, val: 0x3F },
        AyRegChange { time: 40, reg: AyRegister::AmpLevelA, val: 15 },
    ];
    let steps = ay.render_audio::<AyAmps<i32>, i32>(&changes, 128, 128, [5, 6, 7]);
    assert_eq!(steps.len(), 1);
    assert_eq!(steps[0].0, 5);
    assert_eq!(steps[0].1, 2 * CLOCK_INCREASE);
    assert!(steps[0].2 > 0);
}

#[test]
fn ay_register_enumerate_lists_all_registers() {
    let regs = AyRegister::enumerate();
    assert_eq!(regs, vec![AyRegister::ToneFineA, AyRegister::ToneCoarseA, AyRegister::ToneFineB,
                          AyRegister::ToneCoarseB, AyRegister::ToneFineC, AyRegister::ToneCoarseC,
                          AyRegister::NoisePeriod, AyRegister::MixerControl, AyRegister::AmpLevelA,
                          AyRegister::AmpLevelB, AyRegister::AmpLevelC, AyRegister::EnvPerFine,
                          AyRegister::EnvPerCoarse, AyRegister::EnvShape, AyRegister::IoA, AyRegister::IoB]);
}

#[test]
fn ay_io_port_reads_input_or_masked_output() {
    assert_eq!(io_port_value(0b1010_1010, 0x00, 0x40, 0b1111_0000), 0b1010_1010);
    assert_eq!(io_port_value(0b1010_1010, 0x40, 0x40, 0b1111_0000), 0b1010_0000);
    assert_eq!(io_port_value(0b1010_1010, 0x40, 0x80, 0b1111_0000), 0b1010_1010);
    assert_eq!(io_port_value(0b1010_1010, 0xC0, 0x80, 0b0000_1111), 0b0000_1010);
}
