//! Tests for the audio components: ring buffer, PTT state machine, source
//! selection and the sidetone generator.

use cw_keyer::audio_buffer::AudioRingBuffer;
use cw_keyer::audio_source::{AudioSource, AudioSourceSelector};
use cw_keyer::ptt::{PttController, PttState};
use cw_keyer::sidetone::{sine_table, FadeState, SidetoneGen, LUT_SIZE};

const SAMPLE_RATE: u32 = 8000;
const FADE_SAMPLES: u16 = 40; // 5ms

#[test]
fn test_buffer_empty() {
    let buf: AudioRingBuffer<64> = AudioRingBuffer::new();
    assert!(buf.is_empty());
    assert_eq!(buf.len(), 0);
}

#[test]
fn test_buffer_push_pop() {
    let mut buf: AudioRingBuffer<64> = AudioRingBuffer::new();

    buf.push(100);
    buf.push(200);
    buf.push(300);

    assert_eq!(buf.len(), 3);
    assert_eq!(buf.pop(), Some(100));
    assert_eq!(buf.pop(), Some(200));
    assert_eq!(buf.pop(), Some(300));
    assert_eq!(buf.pop(), None);
}

#[test]
fn test_buffer_wrap_around() {
    let mut buf: AudioRingBuffer<4> = AudioRingBuffer::new();

    // Fill buffer
    buf.push(1);
    buf.push(2);
    buf.push(3);
    buf.push(4);

    // Pop some
    assert_eq!(buf.pop(), Some(1));
    assert_eq!(buf.pop(), Some(2));

    // Push more (wraps around)
    buf.push(5);
    buf.push(6);

    // Should get remaining in order
    assert_eq!(buf.pop(), Some(3));
    assert_eq!(buf.pop(), Some(4));
    assert_eq!(buf.pop(), Some(5));
    assert_eq!(buf.pop(), Some(6));
}

#[test]
fn test_buffer_overflow_drops_oldest() {
    let mut buf: AudioRingBuffer<4> = AudioRingBuffer::new();

    // Overfill
    buf.push(1);
    buf.push(2);
    buf.push(3);
    buf.push(4);
    buf.push(5); // Overwrites 1
    buf.push(6); // Overwrites 2

    // Should get 3,4,5,6 (oldest dropped)
    assert_eq!(buf.pop(), Some(3));
    assert_eq!(buf.pop(), Some(4));
    assert_eq!(buf.pop(), Some(5));
    assert_eq!(buf.pop(), Some(6));
}

#[test]
fn test_buffer_read_into_slice() {
    let mut buf: AudioRingBuffer<64> = AudioRingBuffer::new();

    for i in 0..10i16 {
        buf.push(i * 100);
    }

    let mut output = [0i16; 5];
    let read = buf.read_into(&mut output);

    assert_eq!(read, 5);
    assert_eq!(output, [0, 100, 200, 300, 400]);

    // Buffer should have 5 remaining
    assert_eq!(buf.len(), 5);
}

#[test]
fn test_buffer_read_into_underrun() {
    let mut buf: AudioRingBuffer<64> = AudioRingBuffer::new();

    buf.push(100);
    buf.push(200);

    let mut output = [0i16; 5];
    let read = buf.read_into(&mut output);

    assert_eq!(read, 2);
    assert_eq!(output[0], 100);
    assert_eq!(output[1], 200);
    // Rest should be zeroed
    assert_eq!(output[2], 0);
    assert_eq!(output[3], 0);
    assert_eq!(output[4], 0);
}

#[test]
fn test_buffer_available() {
    let buf: AudioRingBuffer<64> = AudioRingBuffer::new();
    assert_eq!(buf.available(), 64);

    let mut buf: AudioRingBuffer<64> = AudioRingBuffer::new();
    for i in 0..10 {
        buf.push(i);
    }
    assert_eq!(buf.available(), 54);
}

#[test]
fn test_buffer_clear() {
    let mut buf: AudioRingBuffer<8> = AudioRingBuffer::new();
    for i in 0..5 {
        buf.push(i);
    }
    buf.clear();
    assert!(buf.is_empty());
    assert_eq!(buf.pop(), None);
}

fn make_ptt(tail_ms: u32) -> PttController {
    PttController::new(tail_ms)
}

#[test]
fn test_ptt_initial_state() {
    let ptt = make_ptt(100);
    assert_eq!(ptt.state(), PttState::Off);
}

#[test]
fn test_ptt_activates_on_audio() {
    let mut ptt = make_ptt(100);

    // First audio sample triggers PTT
    ptt.audio_sample(1000); // timestamp 1000us
    assert_eq!(ptt.state(), PttState::On);
}

#[test]
fn test_ptt_stays_on_during_audio() {
    let mut ptt = make_ptt(100);

    ptt.audio_sample(1000);
    assert_eq!(ptt.state(), PttState::On);

    ptt.audio_sample(2000);
    assert_eq!(ptt.state(), PttState::On);

    ptt.audio_sample(3000);
    assert_eq!(ptt.state(), PttState::On);
}

#[test]
fn test_ptt_tail_timeout() {
    let mut ptt = make_ptt(100); // 100ms tail

    // Start audio at t=0
    ptt.audio_sample(0);
    assert_eq!(ptt.state(), PttState::On);

    // Last audio at t=1000us (1ms)
    ptt.audio_sample(1000);

    // Check at t=50ms: should still be on (within tail)
    ptt.tick(50_000);
    assert_eq!(ptt.state(), PttState::On);

    // Check at t=102ms: should be off (tail expired)
    // 1000us (last audio) + 100_000us (tail) = 101_000us
    ptt.tick(102_000);
    assert_eq!(ptt.state(), PttState::Off);
}

#[test]
fn test_ptt_tail_reset_on_new_audio() {
    let mut ptt = make_ptt(100); // 100ms tail

    // Audio at t=0
    ptt.audio_sample(0);

    // Check at t=50ms: still on
    ptt.tick(50_000);
    assert_eq!(ptt.state(), PttState::On);

    // New audio at t=80ms resets tail
    ptt.audio_sample(80_000);

    // Check at t=150ms: should still be on (80ms + 100ms = 180ms)
    ptt.tick(150_000);
    assert_eq!(ptt.state(), PttState::On);

    // Check at t=181ms: should be off
    ptt.tick(181_000);
    assert_eq!(ptt.state(), PttState::Off);
}

#[test]
fn test_ptt_immediate_on() {
    let mut ptt = make_ptt(100);

    // Should be off
    assert_eq!(ptt.state(), PttState::Off);

    // Audio triggers immediate on (no delay)
    ptt.audio_sample(5000);
    assert_eq!(ptt.state(), PttState::On);
}

#[test]
fn test_ptt_reactivation() {
    let mut ptt = make_ptt(50); // 50ms tail

    // First activation
    ptt.audio_sample(0);
    assert_eq!(ptt.state(), PttState::On);

    // Expire
    ptt.tick(60_000);
    assert_eq!(ptt.state(), PttState::Off);

    // Reactivate
    ptt.audio_sample(70_000);
    assert_eq!(ptt.state(), PttState::On);
}

#[test]
fn test_source_initial_state() {
    let selector = AudioSourceSelector::new();
    assert_eq!(selector.get(), AudioSource::Silence);
}

#[test]
fn test_source_set_sidetone() {
    let mut selector = AudioSourceSelector::new();
    selector.set(AudioSource::Sidetone);
    assert_eq!(selector.get(), AudioSource::Sidetone);
}

#[test]
fn test_source_set_remote() {
    let mut selector = AudioSourceSelector::new();
    selector.set(AudioSource::Remote);
    assert_eq!(selector.get(), AudioSource::Remote);
}

#[test]
fn test_source_swap_and_from_u8() {
    let mut selector = AudioSourceSelector::new();
    let previous = selector.swap(AudioSource::Remote);
    assert_eq!(previous, AudioSource::Silence);
    assert_eq!(selector.get(), AudioSource::Remote);

    assert_eq!(AudioSource::from_u8(0), AudioSource::Silence);
    assert_eq!(AudioSource::from_u8(1), AudioSource::Sidetone);
    assert_eq!(AudioSource::from_u8(2), AudioSource::Remote);
    assert_eq!(AudioSource::from_u8(99), AudioSource::Silence);
}

#[test]
fn test_sidetone_gen_creation() {
    let gen = SidetoneGen::new(700, SAMPLE_RATE, 40); // 700Hz, 8kHz, 5ms fade (40 samples)
    assert_eq!(gen.fade_state(), FadeState::Silent);
}

#[test]
fn test_sidetone_silent_when_key_up() {
    let mut gen = SidetoneGen::new(700, SAMPLE_RATE, 40);

    // Generate samples with key up
    for _ in 0..100 {
        let sample = gen.next_sample(false);
        assert_eq!(sample, 0, "Should be silent when key up");
    }
}

#[test]
fn test_sidetone_produces_audio_when_key_down() {
    let mut gen = SidetoneGen::new(700, SAMPLE_RATE, 40);

    // Key down, skip fade-in period
    for _ in 0..50 {
        gen.next_sample(true);
    }

    // Now should be producing audio
    let sample = gen.next_sample(true);
    assert_ne!(sample, 0, "Should produce audio when key down after fade-in");
}

#[test]
fn test_sidetone_fade_in() {
    let mut gen = SidetoneGen::new(700, SAMPLE_RATE, 40);

    // First sample is at the start of the fade
    let _first = gen.next_sample(true).abs();

    // Skip to end of fade
    for _ in 0..38 {
        gen.next_sample(true);
    }

    let _last = gen.next_sample(true).abs();

    // After fade, should be at full amplitude
    gen.next_sample(true);
    assert_eq!(gen.fade_state(), FadeState::Sustain);
}

#[test]
fn test_sidetone_fade_out() {
    let mut gen = SidetoneGen::new(700, SAMPLE_RATE, 40);

    // Key down, complete fade-in
    for _ in 0..50 {
        gen.next_sample(true);
    }
    assert_eq!(gen.fade_state(), FadeState::Sustain);

    // Key up, should start fade-out
    gen.next_sample(false);
    assert_eq!(gen.fade_state(), FadeState::FadeOut);

    // Complete fade-out
    for _ in 0..50 {
        gen.next_sample(false);
    }
    assert_eq!(gen.fade_state(), FadeState::Silent);
}

#[test]
fn test_sidetone_frequency_accuracy() {
    let mut gen = SidetoneGen::new(800, SAMPLE_RATE, 8); // 800 Hz, minimal fade

    // Key down, skip fade
    for _ in 0..10 {
        gen.next_sample(true);
    }

    // At 800 Hz and 8000 sample rate, one cycle = 10 samples
    // Collect one full cycle worth of samples
    let mut samples = Vec::new();
    for _ in 0..10 {
        samples.push(gen.next_sample(true));
    }

    // Should have both positive and negative values (completed a cycle)
    let has_positive = samples.iter().any(|&s| s > 1000);
    let has_negative = samples.iter().any(|&s| s < -1000);
    assert!(has_positive && has_negative, "Should complete a cycle in 10 samples");
}

#[test]
fn test_lut_size() {
    let table = sine_table();
    assert_eq!(table.len(), LUT_SIZE);
    assert_eq!(LUT_SIZE, 256);
}

#[test]
fn test_lut_zero_crossing() {
    let table = sine_table();

    // Index 0 should be ~0 (sine starts at 0)
    assert!(table[0].abs() < 100, "table[0] should be near zero");

    // Index 64 should be ~max (sine peak at 90 degrees)
    assert!(table[64] > 30000, "table[64] should be near max");

    // Index 128 should be ~0 (sine at 180 degrees)
    assert!(table[128].abs() < 100, "table[128] should be near zero");

    // Index 192 should be ~min (sine trough at 270 degrees)
    assert!(table[192] < -30000, "table[192] should be near min");
}

#[test]
fn test_lut_symmetry() {
    let table = sine_table();

    // First half positive peak, second half negative
    for i in 0..64 {
        assert!(table[i] >= 0 || i == 0, "First quadrant should be non-negative");
    }
    for i in 128..192 {
        assert!(table[i] <= 0, "Third quadrant should be non-positive");
    }
}

#[test]
fn test_lut_amplitude() {
    let table = sine_table();
    let max = table.iter().max().copied().unwrap();
    let min = table.iter().min().copied().unwrap();

    // Should use full i16 range
    assert!(max > 32000, "Max should be near i16::MAX");
    assert!(min < -32000, "Min should be near i16::MIN");
}

#[test]
fn test_full_audio_pipeline() {
    // Components
    let mut sidetone = SidetoneGen::new(700, SAMPLE_RATE, FADE_SAMPLES);
    let mut sidetone_buf: AudioRingBuffer<64> = AudioRingBuffer::new();
    let mut ptt = PttController::new(100); // 100ms tail
    let source = AudioSourceSelector::new();

    // Initial state
    assert_eq!(ptt.state(), PttState::Off);
    assert_eq!(source.get(), AudioSource::Silence);
    assert_eq!(sidetone.fade_state(), FadeState::Silent);

    // Simulate key down at t=0
    let key_down = true;
    let mut timestamp_us: u64 = 0;

    // Generate 50 samples (key down)
    for _ in 0..50 {
        let sample = sidetone.next_sample(key_down);
        sidetone_buf.push(sample);

        if sample != 0 {
            ptt.audio_sample(timestamp_us);
        }

        timestamp_us += 125; // 8kHz = 125us per sample
    }

    // PTT should be on
    assert_eq!(ptt.state(), PttState::On);

    // Sidetone should be in sustain (past fade-in)
    assert_eq!(sidetone.fade_state(), FadeState::Sustain);

    // Buffer should have samples
    assert!(!sidetone_buf.is_empty());

    // Simulate key up
    let key_down = false;

    // Generate samples until fade completes
    for _ in 0..100 {
        let sample = sidetone.next_sample(key_down);
        sidetone_buf.push(sample);
        timestamp_us += 125;
        ptt.tick(timestamp_us);
    }

    // Sidetone should be silent
    assert_eq!(sidetone.fade_state(), FadeState::Silent);

    // PTT should still be on (within tail)
    assert_eq!(ptt.state(), PttState::On);

    // Advance time past PTT tail (100ms = 100000us)
    timestamp_us += 100_000;
    ptt.tick(timestamp_us);

    // Now PTT should be off
    assert_eq!(ptt.state(), PttState::Off);
}

#[test]
fn test_buffer_to_dma_pattern() {
    let mut sidetone = SidetoneGen::new(600, SAMPLE_RATE, 8);
    let mut buf: AudioRingBuffer<64> = AudioRingBuffer::new();

    // Producer: fill buffer with sidetone
    for _ in 0..32 {
        buf.push(sidetone.next_sample(true));
    }

    assert_eq!(buf.len(), 32);

    // Consumer: read into DMA buffer
    let mut dma_buf = [0i16; 16];
    let read = buf.read_into(&mut dma_buf);

    assert_eq!(read, 16);
    assert_eq!(buf.len(), 16); // 32 - 16 remaining

    // Verify we got actual audio (not all zeros)
    let non_zero = dma_buf.iter().filter(|&&s| s != 0).count();
    assert!(non_zero > 0, "Should have non-zero samples");
}

#[test]
fn test_source_switching_with_ptt() {
    let mut ptt = PttController::new(50);
    let mut source = AudioSourceSelector::new();

    // Key down -> sidetone
    source.set(AudioSource::Sidetone);
    ptt.audio_sample(0);

    assert_eq!(source.get(), AudioSource::Sidetone);
    assert_eq!(ptt.state(), PttState::On);

    // PTT tail expires
    ptt.tick(100_000);
    assert_eq!(ptt.state(), PttState::Off);

    // Switch to remote (PTT off enables remote)
    source.set(AudioSource::Remote);
    assert_eq!(source.get(), AudioSource::Remote);
}
