use oxynth::waveform::{period_from_frequency, square_level};

#[test]
fn period_untransposed_is_twice_the_quotient() {
    assert_eq!(period_from_frequency(440, 44100, 0), 200);
    assert_eq!(period_from_frequency(1000, 8000, 0), 16);
    assert_eq!(period_from_frequency(3, 10, 0), 6);
}

#[test]
fn period_transposed_down_multiplies() {
    assert_eq!(period_from_frequency(440, 44100, -1), 400);
    assert_eq!(period_from_frequency(440, 44100, -2), 800);
    assert_eq!(period_from_frequency(1000, 8000, -3), 96);
}

#[test]
fn period_transposed_up_divides_with_floor() {
    assert_eq!(period_from_frequency(440, 44100, 1), 100);
    assert_eq!(period_from_frequency(440, 44100, 2), 50);
    assert_eq!(period_from_frequency(440, 44100, 3), 33);
    assert_eq!(period_from_frequency(440, 44100, 101), 0);
    assert_eq!(period_from_frequency(440, 44100, i32::MAX), 0);
}

#[test]
fn period_of_zero_frequency_is_silence() {
    assert_eq!(period_from_frequency(0, 44100, 0), 0);
    assert_eq!(period_from_frequency(0, 44100, -5), 0);
    assert_eq!(period_from_frequency(0, 44100, 5), 0);
}

#[test]
fn period_growth_saturates() {
    assert_eq!(period_from_frequency(1, u32::MAX, 0), u32::MAX);
    assert_eq!(period_from_frequency(1, u32::MAX, -1), u32::MAX);
    assert_eq!(period_from_frequency(440, 44100, i32::MIN), u32::MAX);
    assert_eq!(period_from_frequency(440, 44100, -20_000_000), u32::MAX);
    assert_eq!(period_from_frequency(440, 44100, -10_000_000), 4_000_000_000);
    assert_eq!(period_from_frequency(440, 44100, -10_000), 4_000_000);
}

#[test]
fn square_level_halves_the_cycle() {
    assert_eq!(square_level(0, 200), 1);
    assert_eq!(square_level(99, 200), 1);
    assert_eq!(square_level(100, 200), -1);
    assert_eq!(square_level(200, 200), -1);
    assert_eq!(square_level(0, 1), -1);
    assert_eq!(square_level(0, 0), 0);
    assert_eq!(square_level(7, 0), 0);
}
