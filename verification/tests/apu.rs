use ironboyadvance::gba::apu::length::{Length, DEFAULT_MAX_LENGTH, WAVE_MAX_LENGTH};
use ironboyadvance::gba::apu::period::Period;

#[test]
fn length_counts_down_from_its_load() {
    let mut length = Length::new(DEFAULT_MAX_LENGTH);
    length.set_initial_time(0xCA);
    length.initialize();
    assert_eq!(length.time(), 64 - 0x0A);
    length.cycle();
    assert_eq!(length.time(), 64 - 0x0A - 1);
    length.reload();
    assert_eq!(length.time(), 64 - 0x0A - 1);
    assert!(!length.expired());
    assert!(!length.maxxed());
}

#[test]
fn an_expired_length_reloads_to_the_maximum() {
    let mut length = Length::new(WAVE_MAX_LENGTH);
    length.set_initial_time(0xFF);
    length.initialize();
    assert_eq!(length.time(), 1);
    length.cycle();
    assert!(length.expired());
    length.cycle();
    assert_eq!(length.time(), 0);
    length.reload();
    assert_eq!(length.time(), 256);
    assert!(length.maxxed());
    length.reset();
    assert_eq!(length.initial_time(), 0);
}

#[test]
fn period_carries_the_remainder() {
    let mut period = Period::new();
    assert_eq!(period.step(100, 30), 3);
    assert_eq!(period.step(25, 30), 1);
    assert_eq!(period.step(24, 30), 0);
    assert_eq!(period.step(1, 30), 1);
    period.step(29, 30);
    period.trigger();
    assert_eq!(period.step(29, 30), 0);
}

use ironboyadvance::common::register_ops::RegisterOps;
use ironboyadvance::gba::apu::noise::{CounterWidth, NoiseControl, NoiseFrequency};
use ironboyadvance::gba::apu::pulse::{PulseControl, PulseFrequency};

#[test]
fn noise_shift_register_steps() {
    assert_eq!(CounterWidth::FullWidth.step(0), 0x4000);
    assert_eq!(CounterWidth::FullWidth.step(0x0001), 0x0000);
    assert_eq!(CounterWidth::FullWidth.step(0x0003), 0x4001);
    assert_eq!(CounterWidth::NarrowWidth.step(0), 0x0040);
    assert_eq!(CounterWidth::NarrowWidth.step(0x0100), 0x00C0);
    assert_eq!(CounterWidth::NarrowWidth.width(), 7);
    let mut lfsr = 0u16;
    for _ in 0..100 {
        lfsr = CounterWidth::FullWidth.step(lfsr);
        assert!(lfsr < 0x8000);
    }
}

#[test]
fn sound_lengths_and_frequencies_are_write_only() {
    let mut control = PulseControl::from_bits(0);
    control.write_byte(0x04000062, 0xBF);
    assert_eq!(control.length(), 0x3F);
    assert_eq!(control.wave_duty(), 2);
    assert_eq!(control.read_byte(0x04000062), 0x80);
    let mut frequency = PulseFrequency::from_bits(0);
    frequency.write_byte(0x04000064, 0xF8);
    frequency.write_byte(0x04000065, 0xC7);
    assert_eq!(frequency.frequency(), 0x7F8);
    assert!(frequency.trigger());
    assert!(frequency.length_enable());
    assert_eq!(frequency.read_byte(0x04000064), 0x00);
    assert_eq!(frequency.read_byte(0x04000065), 0x40);
    frequency.set_trigger(false);
    assert!(!frequency.trigger());
    let noise = NoiseFrequency::from_bits(0x0000_C03A);
    assert_eq!(noise.divider(), 2);
    assert_eq!(noise.counter_step(), CounterWidth::NarrowWidth);
    assert_eq!(noise.shift_clock(), 3);
    assert!(noise.length_enable());
    assert_eq!(NoiseControl::from_bits(0xF73F).initial_volume(), 0xF);
    assert_eq!(NoiseControl::from_bits(0xF73F).read_byte(0x04000078), 0x00);
}

#[test]
fn noise_period_cycles_follow_divider_and_shift() {
    assert_eq!(NoiseFrequency::from_bits(0x00).period_cycles(), 32);
    assert_eq!(NoiseFrequency::from_bits(0x21).period_cycles(), 256);
    assert_eq!(NoiseFrequency::from_bits(0x10).period_cycles(), 64);
    assert_eq!(NoiseFrequency::from_bits(0xF7).period_cycles(), 14_680_064);
}

#[test]
fn two_period_steps_match_one() {
    let mut split = Period::new();
    let mut whole = Period::new();
    let steps = split.step(7, 5) + split.step(9, 5);
    assert_eq!(steps, whole.step(16, 5));
    assert_eq!(split.step(4, 5), whole.step(4, 5));
}
