use oxidgb_core::io::IORegisters;
use oxidgb_core::sound::Sound;
use oxidgb_core::sound::FRAME_SIZE;
use oxidgb_core::sound::OUTPUT_FREQUENCY;
use oxidgb_core::sound::SAMPLE_SCALE;

#[test]
fn constants() {
    assert_eq!(OUTPUT_FREQUENCY, 48000);
    assert_eq!(FRAME_SIZE, (48000 / 59) * 2);
    assert_eq!(SAMPLE_SCALE, 15 * 100 * 2 * 15);
}

#[test]
fn a_fresh_engine_is_silent_and_empty() {
    let mut sound = Sound::build();
    assert!(!sound.channel_1_running);
    assert!(!sound.channel_2_running);
    let (samples, count) = sound.take_samples();
    assert_eq!(count, 0);
    assert_eq!(samples.len(), FRAME_SIZE);
    assert!(samples.iter().all(|sample| *sample == 0));
}

#[test]
fn nothing_moves_while_the_master_switch_is_off() {
    let mut sound = Sound::build();
    let mut regs = IORegisters::build();
    regs.nr52 = 0x71;
    for _ in 0..1000 {
        sound.step(&mut regs, 24);
    }
    assert!(!sound.channel_1_running);
    assert_eq!(sound.last_cycle, 0);
    assert_eq!(sound.sample_pointer, 0);
    assert_eq!(regs.nr14, 0xBF);
}

#[test]
fn a_restart_bit_starts_the_channel() {
    let mut sound = Sound::build();
    let mut regs = IORegisters::build();
    sound.step(&mut regs, 4);
    assert!(sound.channel_1_running);
    assert!(sound.channel_2_running);
    assert_eq!(sound.channel_1_step, 4);
    assert_eq!(sound.channel_2_step, 4);
    assert_eq!(regs.nr14, 0x3F);
    assert_eq!(regs.nr24, 0x3F);
    assert_eq!(sound.last_cycle, 4);
    sound.step(&mut regs, 12);
    assert_eq!(sound.channel_1_step, 16);
    regs.nr14 |= 0x80;
    sound.step(&mut regs, 8);
    assert_eq!(sound.channel_1_step, 8);
    assert_eq!(sound.channel_2_step, 24);
    assert_eq!(sound.last_cycle, 24);
}

#[test]
fn the_first_sample_falls_due_after_88_cycles() {
    let mut sound = Sound::build();
    let mut regs = IORegisters::build();
    for _ in 0..21 {
        sound.step(&mut regs, 4);
    }
    assert_eq!(sound.sample_pointer, 0);
    sound.step(&mut regs, 4);
    assert_eq!(sound.sample_pointer, 2);
    // Channel 1 is in the low part of its wave at full volume; channel 2
    // has volume 0. Both sides are at master volume 7.
    let (samples, count) = sound.take_samples();
    assert_eq!(count, 2);
    assert_eq!(samples[0], -105);
    assert_eq!(samples[1], -105);
    assert_eq!(samples[2], 0);
    assert_eq!(sound.sample_pointer, 0);
}

#[test]
fn samples_come_at_the_output_rate() {
    let mut sound = Sound::build();
    let mut regs = IORegisters::build();
    // One 59th of a second.
    let mut cycles = 0u32;
    while cycles < 4194304 / 59 {
        sound.step(&mut regs, 4);
        cycles += 4;
    }
    let (_, count) = sound.take_samples();
    assert_eq!(count, 2 * (cycles as u64 * 48000 / 4194304) as usize);
    assert_eq!(count, 1626);
}

#[test]
fn a_full_buffer_drops_samples() {
    let mut sound = Sound::build();
    let mut regs = IORegisters::build();
    for _ in 0..40000 {
        sound.step(&mut regs, 4);
    }
    assert_eq!(sound.sample_pointer, FRAME_SIZE);
    assert_eq!(sound.last_cycle, 160000);
    let (samples, count) = sound.take_samples();
    assert_eq!(count, FRAME_SIZE);
    assert_eq!(samples.len(), FRAME_SIZE);
    let (samples, count) = sound.take_samples();
    assert_eq!(count, 0);
    assert!(samples.iter().all(|sample| *sample == 0));
}

#[test]
fn the_wave_is_low_and_then_high() {
    let mut sound = Sound::build();
    let mut regs = IORegisters::build();
    // Channel 1 only, on the left only, duty 2 (low for a quarter), 512 Hz:
    // a period of 8192 cycles, low for 2048.
    regs.nr51 = 0x01;
    regs.nr50 = 0x70;
    let mut levels = Vec::new();
    let mut cycle = 0u32;
    while cycle < 8192 {
        sound.step(&mut regs, 4);
        let (samples, count) = sound.take_samples();
        if count == 2 {
            assert_eq!(samples[1], 0);
            levels.push((cycle, samples[0]));
        }
        cycle += 4;
    }
    assert!(!levels.is_empty());
    for (cycle, level) in levels {
        // The sample is taken from the wave at the start of the step.
        let wanted = if cycle < 2048 { -105 } else if cycle == 2048 { 0 } else { 105 };
        assert_eq!(level, wanted);
    }
}

#[test]
fn duty_settings() {
    // The part of the period for which the wave is low: 0, 1/8, 1/4, 1/2.
    for (duty, low_until) in [(0u8, 0u32), (1, 1024), (2, 2048), (3, 4096)] {
        let mut sound = Sound::build();
        let mut regs = IORegisters::build();
        regs.nr51 = 0x01;
        regs.nr50 = 0x10;
        regs.nr11 = duty << 6;
        let mut cycle = 0u32;
        let mut seen = 0;
        while cycle < 8192 {
            sound.step(&mut regs, 4);
            let (samples, count) = sound.take_samples();
            if count == 2 {
                let wanted = if cycle < low_until {
                    -15
                } else if cycle == low_until {
                    0
                } else {
                    15
                };
                assert_eq!(samples[0], wanted);
                seen += 1;
            }
            cycle += 4;
        }
        assert_eq!(seen, 93);
    }
}

#[test]
fn the_length_counter_stops_the_channel() {
    let mut sound = Sound::build();
    let mut regs = IORegisters::build();
    // Length enabled, counter at 62: two ticks of the 256 Hz clock remain.
    regs.nr14 = 0xC7;
    regs.nr11 = 0x80 | 62;
    let mut cycles = 0u32;
    while cycles < 16384 - 4 {
        sound.step(&mut regs, 4);
        cycles += 4;
    }
    assert!(sound.channel_1_running);
    assert_eq!(regs.nr11 & 0x3F, 62);
    sound.step(&mut regs, 4);
    assert!(sound.channel_1_running);
    assert_eq!(regs.nr11, 0x80 | 63);
    cycles += 4;
    while cycles < 2 * 16384 - 4 {
        sound.step(&mut regs, 4);
        cycles += 4;
    }
    assert!(sound.channel_1_running);
    sound.step(&mut regs, 4);
    assert!(!sound.channel_1_running);
    assert_eq!(regs.nr11, 0x80);
    assert!(sound.channel_2_running);
}

#[test]
fn the_envelope_lowers_the_volume() {
    let mut sound = Sound::build();
    let mut regs = IORegisters::build();
    // Volume 15, downwards, one step every 65536 cycles.
    regs.nr12 = 0xF1;
    let mut cycles = 0u32;
    while cycles < 65536 - 4 {
        sound.step(&mut regs, 4);
        cycles += 4;
    }
    assert_eq!(regs.nr12, 0xF1);
    sound.step(&mut regs, 4);
    assert_eq!(regs.nr12, 0xE1);
    // Upwards from 14.
    regs.nr12 = 0xE9;
    cycles += 4;
    while cycles < 2 * 65536 {
        sound.step(&mut regs, 4);
        cycles += 4;
    }
    assert_eq!(regs.nr12, 0xF9);
    while cycles < 3 * 65536 {
        sound.step(&mut regs, 4);
        cycles += 4;
    }
    assert_eq!(regs.nr12, 0xF9);
}

#[test]
fn the_sweep_lowers_the_frequency() {
    let mut sound = Sound::build();
    let mut regs = IORegisters::build();
    // Sweep time 1, downwards, shift 1; frequency 0x400.
    regs.nr10 = 0x19;
    regs.nr13 = 0x00;
    regs.nr14 = 0x84;
    let mut cycles = 0u32;
    while cycles < 32768 - 4 {
        sound.step(&mut regs, 4);
        cycles += 4;
    }
    assert_eq!((regs.nr13, regs.nr14), (0x00, 0x04));
    sound.step(&mut regs, 4);
    // 0x400 - 0x200 = 0x200
    assert_eq!((regs.nr13, regs.nr14), (0x00, 0x02));
    // Channel 2 has no sweep.
    assert_eq!((regs.nr23, regs.nr24), (0x00, 0x3F));
}
