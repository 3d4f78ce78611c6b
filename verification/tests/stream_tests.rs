//! Tests for the keying stream: compression, edges, the ring window and
//! consumer cursors.

use cw_keyer::sample::{GpioState, StreamSample, MAX_SILENCE_RUN};
use cw_keyer::stream::{KeyingStream, StreamConsumer};

fn make_stream(capacity: usize) -> KeyingStream {
    KeyingStream::with_buffer(vec![StreamSample::zero(); capacity])
}

fn keyed(local_key: bool) -> StreamSample {
    StreamSample::Concrete { gpio: GpioState::new(), local_key, remote_key: false, flags: 0 }
}

fn gpio_sample(bits: u8) -> StreamSample {
    StreamSample::Concrete {
        gpio: GpioState::from_bits(bits),
        local_key: false,
        remote_key: false,
        flags: 0,
    }
}

#[test]
fn test_stream_basic_write_read() {
    let mut stream = make_stream(64);

    stream.push(keyed(true));

    let read = stream.read(0);
    assert!(read.is_some());
    assert!(read.unwrap().local_key());
}

#[test]
fn test_stream_silence_compression() {
    let mut stream = make_stream(64);

    // Push same sample multiple times
    let sample = StreamSample::zero();
    for _ in 0..100 {
        stream.push(sample);
    }

    // Flush to write silence marker
    stream.flush();

    // Should have written only 1 silence marker
    assert_eq!(stream.write_position(), 1);

    let read = stream.read(0).unwrap();
    assert!(read.is_silence());
    assert_eq!(read.silence_ticks(), 100);
}

#[test]
fn test_stream_silence_compression_boundary() {
    // A run of exactly the largest length one marker carries is one slot;
    // one tick more takes a second marker, and no tick is lost.
    let mut stream = make_stream(64);
    let sample = StreamSample::zero();
    for _ in 0..MAX_SILENCE_RUN {
        stream.push(sample);
    }
    stream.flush();
    assert_eq!(stream.write_position(), 1);
    assert_eq!(stream.read(0).unwrap().silence_ticks(), MAX_SILENCE_RUN);

    let mut stream = make_stream(64);
    for _ in 0..(MAX_SILENCE_RUN + 5) {
        stream.push(sample);
    }
    stream.flush();
    assert_eq!(stream.write_position(), 2);
    let first = stream.read(0).unwrap();
    let second = stream.read(1).unwrap();
    assert!(first.is_silence() && second.is_silence());
    assert_eq!(first.silence_ticks() + second.silence_ticks(), MAX_SILENCE_RUN + 5);
}

#[test]
fn test_stream_edge_detection() {
    let mut stream = make_stream(64);

    // First sample: key up
    stream.push(keyed(false));

    // Second sample: key down
    stream.push(keyed(true));

    // Read second sample, should have edge flag
    let read = stream.read(1).unwrap();
    assert!(read.has_local_edge());
    assert!(read.local_key());
}

#[test]
fn test_stream_wrap_around() {
    let mut stream = make_stream(64);

    // Write more than buffer size
    for i in 0..100u8 {
        stream.push_raw(gpio_sample(i));
    }

    // Old indices should be invalid (overwritten)
    assert!(stream.read(0).is_none());
    assert!(stream.read(30).is_none());

    // Recent indices should be valid
    assert!(stream.read(50).is_some());
    assert_eq!(stream.read(99).unwrap().gpio().bits, 99);
}

#[test]
fn test_stream_overrun_detection() {
    let mut stream = make_stream(64);

    // Write more than buffer size
    for i in 0..100u8 {
        stream.push_raw(gpio_sample(i));
    }

    // Old indices should be overrun
    assert!(stream.is_overrun(0));
    assert!(stream.is_overrun(30));

    // Recent indices should be valid
    assert!(!stream.is_overrun(50));
    assert!(!stream.is_overrun(99));
}

#[test]
fn test_stream_overrun_boundary_exact() {
    // After exactly capacity + k writes, index 0 is gone while index k is
    // the oldest record still served.
    let capacity = 64usize;
    let k = 3usize;
    let mut stream = make_stream(capacity);
    for i in 0..(capacity + k) {
        stream.push_raw(gpio_sample(i as u8));
    }
    assert!(stream.read(0).is_none());
    assert!(stream.is_overrun(0));
    assert!(!stream.is_overrun(k));
    assert_eq!(stream.read(k).unwrap().gpio().bits, k as u8);
}

#[test]
fn test_stream_lag_calculation() {
    let mut stream = make_stream(64);

    for _ in 0..10 {
        stream.push_raw(StreamSample::zero());
    }

    assert_eq!(stream.lag(0), 10);
    assert_eq!(stream.lag(5), 5);
    assert_eq!(stream.lag(10), 0);
}

#[test]
fn test_consumer_basic() {
    let mut stream = make_stream(64);
    let mut consumer = StreamConsumer::new(&stream);

    // Initially no samples
    assert!(consumer.next(&stream).is_none());
    assert_eq!(consumer.lag(&stream), 0);

    // Push some samples
    for i in 0..5u8 {
        stream.push_raw(gpio_sample(i));
    }

    // Consumer should see them
    assert_eq!(consumer.lag(&stream), 5);

    for i in 0..5u8 {
        let sample = consumer.next(&stream).unwrap();
        assert_eq!(sample.gpio().bits, i);
    }

    // No more samples
    assert!(consumer.next(&stream).is_none());
    assert_eq!(consumer.lag(&stream), 0);
}

#[test]
fn test_consumer_skip_to_latest() {
    let mut stream = make_stream(64);
    let mut consumer = StreamConsumer::new(&stream);

    // Push many samples
    for i in 0..50u8 {
        stream.push_raw(gpio_sample(i));
    }

    // Skip to latest
    let skipped = consumer.skip_to_latest(&stream);
    assert_eq!(skipped, 50);
    assert_eq!(consumer.lag(&stream), 0);
    assert!(consumer.next(&stream).is_none());
}

#[test]
fn test_consumer_resync() {
    let mut stream = make_stream(64);
    let mut consumer = StreamConsumer::new(&stream);

    // Push way more than buffer size to cause overrun
    for i in 0..200u8 {
        stream.push_raw(gpio_sample(i));
    }

    // Consumer should be overrun
    assert!(consumer.is_overrun(&stream));

    // Resync
    consumer.resync(&stream);

    // Should no longer be overrun
    assert!(!consumer.is_overrun(&stream));

    // Should be able to read samples again
    assert!(consumer.next(&stream).is_some());
}

#[test]
fn test_consumer_from_position_peek() {
    let mut stream = make_stream(64);
    for i in 0..10u8 {
        stream.push_raw(gpio_sample(i));
    }
    let mut consumer = StreamConsumer::from_position(&stream, 4);
    assert_eq!(consumer.position(), 4);
    assert_eq!(consumer.peek(&stream).unwrap().gpio().bits, 4);
    // Peek does not advance.
    assert_eq!(consumer.position(), 4);
    assert_eq!(consumer.next(&stream).unwrap().gpio().bits, 4);
    assert_eq!(consumer.position(), 5);
}

#[test]
fn test_multiple_consumers_independent() {
    let mut stream = make_stream(64);
    let mut consumer1 = StreamConsumer::new(&stream);
    let mut consumer2 = StreamConsumer::new(&stream);

    // Push some samples
    for i in 0..10u8 {
        stream.push_raw(gpio_sample(i));
    }

    // Consumer1 reads 5 samples
    for _ in 0..5 {
        consumer1.next(&stream);
    }

    // Consumer2 reads 3 samples
    for _ in 0..3 {
        consumer2.next(&stream);
    }

    // They should be at different positions
    assert_eq!(consumer1.lag(&stream), 5);
    assert_eq!(consumer2.lag(&stream), 7);
    assert_eq!(consumer1.position(), 5);
    assert_eq!(consumer2.position(), 3);
}
