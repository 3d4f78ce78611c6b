//! Tests for the log ring and the entry formatting.

use cw_keyer::logging::{format_to_buffer, LogEntry, LogLevel, LogStream};
use cw_keyer::uart_logger::{format_log_entry, UartLoggerConfig};

#[test]
fn test_log_stream_basic() {
    let mut stream = LogStream::new(16);

    assert!(stream.push(1000, LogLevel::Info, b"test message"));
    assert!(stream.has_entries());
    assert_eq!(stream.pending(), 1);

    let entry = stream.drain().unwrap();
    assert_eq!(entry.timestamp_us, 1000);
    assert_eq!(entry.level, LogLevel::Info);
    assert_eq!(&entry.msg[..entry.len as usize], b"test message");

    assert!(!stream.has_entries());
}

#[test]
fn test_log_stream_full() {
    let mut stream = LogStream::new(4);

    // Fill the buffer
    assert!(stream.push(1, LogLevel::Info, b"1"));
    assert!(stream.push(2, LogLevel::Info, b"2"));
    assert!(stream.push(3, LogLevel::Info, b"3"));
    assert!(stream.push(4, LogLevel::Info, b"4"));

    // Should drop
    assert!(!stream.push(5, LogLevel::Info, b"5"));
    assert_eq!(stream.dropped(), 1);

    // Drain one, should be able to push again
    stream.drain();
    assert!(stream.push(6, LogLevel::Info, b"6"));
}

#[test]
fn test_log_stream_order_preserved() {
    let mut stream = LogStream::new(8);
    for i in 0..6i64 {
        assert!(stream.push(i, LogLevel::Debug, format!("msg {}", i).as_bytes()));
    }
    for i in 0..6i64 {
        let entry = stream.drain().unwrap();
        assert_eq!(entry.timestamp_us, i);
        assert_eq!(&entry.msg[..entry.len as usize], format!("msg {}", i).as_bytes());
    }
    assert!(stream.drain().is_none());
}

#[test]
fn test_log_stream_truncates_long_message() {
    let mut stream = LogStream::new(4);
    let long = vec![65u8; 500];
    assert!(stream.push(7, LogLevel::Warn, &long));
    let entry = stream.drain().unwrap();
    assert_eq!(entry.len as usize, 120);
    assert_eq!(&entry.msg[..], &long[..120]);
}

#[test]
fn test_log_stream_reset_dropped() {
    let mut stream = LogStream::new(4);
    for i in 0..8i64 {
        let _ = stream.push(i, LogLevel::Info, b"x");
    }
    assert_eq!(stream.dropped(), 4);
    stream.reset_dropped();
    assert_eq!(stream.dropped(), 0);
}

#[test]
fn test_format_to_buffer() {
    let mut buf = vec![0u8; 32];
    let len = format_to_buffer(&mut buf, format!("Hello {}", 42).as_bytes());
    assert_eq!(&buf[..len], b"Hello 42");
}

#[test]
fn test_format_to_buffer_truncates() {
    let mut buf = vec![0u8; 4];
    let len = format_to_buffer(&mut buf, b"overflowing");
    assert_eq!(len, 4);
    assert_eq!(&buf[..], b"over");
}

#[test]
fn test_log_level_ordering() {
    assert!(LogLevel::Error < LogLevel::Warn);
    assert!(LogLevel::Warn < LogLevel::Info);
    assert!(LogLevel::Info < LogLevel::Debug);
    assert!(LogLevel::Debug < LogLevel::Trace);
}

#[test]
fn test_log_level_as_str() {
    assert_eq!(LogLevel::Error.as_str(), "ERROR");
    assert_eq!(LogLevel::Warn.as_str(), "WARN");
    assert_eq!(LogLevel::Info.as_str(), "INFO");
    assert_eq!(LogLevel::Debug.as_str(), "DEBUG");
    assert_eq!(LogLevel::Trace.as_str(), "TRACE");
}

fn entry_with(timestamp_us: i64, level: LogLevel, text: &[u8], pad_to: usize) -> LogEntry {
    let mut msg = vec![0u8; pad_to];
    msg[..text.len()].copy_from_slice(text);
    LogEntry { timestamp_us, level, len: text.len() as u8, msg }
}

#[test]
fn test_format_log_entry() {
    let entry = entry_with(1234567, LogLevel::Info, b"Hello world", 120);

    let mut buf = vec![0u8; 256];
    let len = format_log_entry(&entry, &mut buf);

    let formatted = core::str::from_utf8(&buf[..len]).unwrap();
    assert!(formatted.contains("1234567"));
    assert!(formatted.contains("INFO"));
    assert!(formatted.contains("Hello world"));
}

#[test]
fn test_format_truncated_message() {
    let mut entry = entry_with(999, LogLevel::Error, b"TEST12345X", 120);
    entry.len = 5; // Only first 5 bytes are meaningful

    let mut buf = vec![0u8; 256];
    let len = format_log_entry(&entry, &mut buf);

    let formatted = core::str::from_utf8(&buf[..len]).unwrap();
    assert!(formatted.contains("ERROR"));
    assert!(formatted.contains("TEST1"));
    assert!(!formatted.contains("X"));
}

#[test]
fn test_format_log_entry_exact_layout() {
    // Timestamps are right-aligned to ten columns; negative values keep
    // their sign.
    let entry = entry_with(42, LogLevel::Warn, b"hi", 10);
    let mut buf = vec![0u8; 64];
    let len = format_log_entry(&entry, &mut buf);
    assert_eq!(core::str::from_utf8(&buf[..len]).unwrap(), "[        42] WARN: hi\n");

    let entry = entry_with(-5, LogLevel::Error, b"neg", 10);
    let len = format_log_entry(&entry, &mut buf);
    assert_eq!(core::str::from_utf8(&buf[..len]).unwrap(), "[        -5] ERROR: neg\n");
}

#[test]
fn test_uart_logger_config_default() {
    let config = UartLoggerConfig::default();
    assert_eq!(config.baud_rate, 115200);
    assert_eq!(config.tx_pin, 6);
}
