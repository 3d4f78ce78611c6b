//! Tests for the iambic keyer: element timing, squeeze behaviour, memory
//! and the mode A / mode B divergence.

use cw_keyer::iambic::{Element, IambicConfig, IambicMode, IambicProcessor};
use cw_keyer::sample::GpioState;

#[test]
fn test_single_dit() {
    let config = IambicConfig::with_wpm(20);
    let dit_us = config.dit_duration_us();
    let gap_us = config.gap_duration_us();

    let mut keyer = IambicProcessor::new(config);

    // Press DIT
    let mut gpio = GpioState::new();
    gpio.set_dit(true);

    // Tick 0: should start dit
    let sample = keyer.tick(0, gpio);
    assert!(sample.local_key());

    // Mid-dit: still on
    let sample = keyer.tick(dit_us / 2, gpio);
    assert!(sample.local_key());

    // Dit complete: key off, in gap
    let sample = keyer.tick(dit_us, gpio);
    assert!(!sample.local_key());

    // Release paddle during gap
    gpio.set_dit(false);
    let sample = keyer.tick(dit_us + gap_us / 2, gpio);
    assert!(!sample.local_key());

    // Gap complete, no paddle: should stay idle
    let sample = keyer.tick(dit_us + gap_us + 1000, gpio);
    assert!(!sample.local_key());
}

#[test]
fn test_squeeze_alternates() {
    let config = IambicConfig::with_wpm(20);
    let dit_us = config.dit_duration_us();
    let dah_us = config.dah_duration_us();
    let gap_us = config.gap_duration_us();

    let mut keyer = IambicProcessor::new(config);

    // Press both (squeeze)
    let mut gpio = GpioState::new();
    gpio.set_dit(true);
    gpio.set_dah(true);

    // Should start with Dit (opposite of initial last_element=Dah)
    let sample = keyer.tick(0, gpio);
    assert!(sample.local_key());

    // Complete dit + gap
    let t = dit_us + gap_us;
    let sample = keyer.tick(t, gpio);

    // Should now be sending Dah
    assert!(sample.local_key());

    // Complete dah + gap
    let t = t + dah_us + gap_us;
    let sample = keyer.tick(t, gpio);

    // Should be sending Dit again
    assert!(sample.local_key());
}

#[test]
fn test_squeeze_alternation_strict() {
    // Under a continuous squeeze, measure the elements by their key-down
    // spans at a fine tick: they must strictly alternate dit, dah, dit, ...
    // starting with a dit (initial last element is dah).
    let config = IambicConfig::with_wpm(20);
    let dit_us = config.dit_duration_us();
    let dah_us = config.dah_duration_us();

    let mut keyer = IambicProcessor::new(config);
    let mut gpio = GpioState::new();
    gpio.set_dit(true);
    gpio.set_dah(true);

    let step: i64 = 1000;
    let mut now: i64 = 0;
    let mut down_span: i64 = 0;
    let mut was_down = false;
    let mut elements: Vec<i64> = Vec::new();
    while elements.len() < 6 && now < 10_000_000 {
        let sample = keyer.tick(now, gpio);
        if sample.local_key() {
            down_span += step;
        } else if was_down {
            elements.push(down_span);
            down_span = 0;
        }
        was_down = sample.local_key();
        now += step;
    }

    assert_eq!(elements.len(), 6);
    for (i, span) in elements.iter().enumerate() {
        let expected = if i % 2 == 0 { dit_us } else { dah_us };
        // The measured span is exact up to one tick of quantisation.
        assert!((span - expected).abs() <= step, "element {} lasted {}", i, span);
    }
}

#[test]
fn test_mode_b_bonus_element() {
    let config = IambicConfig { wpm: 20, mode: IambicMode::B, ..Default::default() };
    let dit_us = config.dit_duration_us();
    let gap_us = config.gap_duration_us();

    let mut keyer = IambicProcessor::new(config);

    // Press both (squeeze)
    let mut gpio = GpioState::new();
    gpio.set_dit(true);
    gpio.set_dah(true);

    // Start dit
    keyer.tick(0, gpio);

    // Release during dit
    gpio.set_dit(false);
    gpio.set_dah(false);
    keyer.tick(dit_us / 2, gpio);

    // Complete dit + gap
    let t = dit_us + gap_us;
    let sample = keyer.tick(t, gpio);

    // Mode B: should send bonus dah even though released
    assert!(sample.local_key());
}

#[test]
fn test_mode_a_no_bonus_element() {
    // Same paddle input as the mode B test, in mode A: after the current
    // element completes, nothing more is sent.
    let config = IambicConfig { wpm: 20, mode: IambicMode::A, ..Default::default() };
    let dit_us = config.dit_duration_us();
    let gap_us = config.gap_duration_us();

    let mut keyer = IambicProcessor::new(config);

    let mut gpio = GpioState::new();
    gpio.set_dit(true);
    gpio.set_dah(true);

    keyer.tick(0, gpio);

    gpio.set_dit(false);
    gpio.set_dah(false);
    keyer.tick(dit_us / 2, gpio);

    let t = dit_us + gap_us;
    let sample = keyer.tick(t, gpio);
    assert!(!sample.local_key());

    // And it stays silent afterwards.
    let sample = keyer.tick(t + gap_us, gpio);
    assert!(!sample.local_key());
}

#[test]
fn test_dit_timing_accuracy() {
    let config = IambicConfig::with_wpm(25);
    let expected_dit_us = 48_000; // 1.2s / 25 = 48ms

    assert_eq!(config.dit_duration_us(), expected_dit_us);
}

#[test]
fn test_paris_timing_values() {
    // At 20 WPM the dah is 3 x 60000 us, and the gap always equals the dit.
    let config = IambicConfig::with_wpm(20);
    assert_eq!(config.dit_duration_us(), 60_000);
    assert_eq!(config.dah_duration_us(), 180_000);
    assert_eq!(config.gap_duration_us(), config.dit_duration_us());

    let config = IambicConfig::with_wpm(25);
    assert_eq!(config.dah_duration_us(), 144_000);
    assert_eq!(config.gap_duration_us(), config.dit_duration_us());
}

#[test]
fn test_memory() {
    let config = IambicConfig::with_wpm(20);
    let dah_us = config.dah_duration_us();
    let gap_us = config.gap_duration_us();

    let mut keyer = IambicProcessor::new(config);

    // Start with dah only
    let mut gpio = GpioState::new();
    gpio.set_dah(true);

    keyer.tick(0, gpio);
    assert!(keyer.is_key_down());

    // During dah, tap dit (memory)
    gpio.set_dit(true);
    keyer.tick(dah_us / 2, gpio);
    gpio.set_dit(false);
    keyer.tick(dah_us / 2 + 1000, gpio);

    // Release dah
    gpio.set_dah(false);
    keyer.tick(dah_us - 1000, gpio);

    // Complete dah + gap
    let t = dah_us + gap_us;
    let sample = keyer.tick(t, gpio);

    // Should send memorized dit
    assert!(sample.local_key());
}

#[test]
fn test_element_opposite() {
    assert_eq!(Element::Dit.opposite(), Element::Dah);
    assert_eq!(Element::Dah.opposite(), Element::Dit);
}

#[test]
fn test_reset_and_config() {
    let mut keyer = IambicProcessor::new(IambicConfig::with_wpm(25));
    let mut gpio = GpioState::new();
    gpio.set_dit(true);
    keyer.tick(0, gpio);
    assert!(keyer.is_key_down());

    keyer.reset();
    assert!(!keyer.is_key_down());

    assert_eq!(keyer.config().wpm, 25);
    keyer.set_config(IambicConfig::with_wpm(30));
    assert_eq!(keyer.config().wpm, 30);
    assert_eq!(keyer.config().mode, IambicMode::B);
}
