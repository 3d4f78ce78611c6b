//! Formatting of log entries for serial output.
//!
//! The transport itself (a UART transmit driver and the loop that feeds
//! it) lives outside the library; what is here is the pure part: rendering
//! a [`LogEntry`] into the line format `[<timestamp, right-aligned to ten
//! columns>] LEVEL: message\n`, with the decimal conversion written out and
//! proved digit by digit.

use vstd::prelude::*;

use crate::logging::LogEntry;

verus! {

/// UART configuration for log output.
pub struct UartLoggerConfig {
    /// Serial baud rate.
    pub baud_rate: u32,
    /// Transmit pin number.
    pub tx_pin: u8,
}

impl Default for UartLoggerConfig {
    /// 115200 baud on pin 6.
    fn default() -> (r: Self)
        ensures
            r == (UartLoggerConfig { baud_rate: 115200, tx_pin: 6 }),
    {
        UartLoggerConfig { baud_rate: 115200, tx_pin: 6 }
    }
}

/// The decimal digits of `n`, most significant first, as ASCII bytes.
pub open spec fn spec_digits(n: nat) -> Seq<u8>
    decreases n,
{
    if n < 10 {
        seq![(48 + n) as u8]
    } else {
        spec_digits(n / 10).push((48 + n % 10) as u8)
    }
}

/// The decimal rendering of a signed value: a minus sign followed by the
/// digits of the magnitude, or just the digits.
pub open spec fn spec_signed_digits(t: int) -> Seq<u8> {
    if t < 0 {
        seq![45u8] + spec_digits((-t) as nat)
    } else {
        spec_digits(t as nat)
    }
}

/// `n` ASCII spaces.
pub open spec fn spec_spaces(n: nat) -> Seq<u8> {
    Seq::new(n, |i: int| 32u8)
}

/// A timestamp right-aligned to ten columns (wider values keep their full
/// width).
pub open spec fn spec_padded_timestamp(t: int) -> Seq<u8> {
    let digits = spec_signed_digits(t);
    if digits.len() < 10 {
        spec_spaces((10 - digits.len()) as nat) + digits
    } else {
        digits
    }
}

/// The full rendered line for a log entry:
/// `[<padded timestamp>] <LEVEL>: <message>\n`.
pub open spec fn spec_formatted_entry(e: LogEntry) -> Seq<u8> {
    seq![91u8] + spec_padded_timestamp(e.timestamp_us as int) + seq![93u8, 32u8]
        + e.level.spec_label_bytes() + seq![58u8, 32u8] + e.spec_message() + seq![10u8]
}

/// Append the decimal digits of `n` to `out`.
fn push_digits(n: u64, out: &mut Vec<u8>)
    ensures
        final(out)@ == old(out)@ + spec_digits(n as nat),
    decreases n,
{
    if n < 10 {
        out.push(48 + (n as u8));
        proof {
            assert(out@ =~= old(out)@ + spec_digits(n as nat));
        }
    } else {
        proof {
            assert(n / 10 < n && (n as nat) / 10 == (n / 10) as nat && (n as nat) % 10 == (n
                % 10) as nat) by (nonlinear_arith)
                requires
                    n >= 10,
            ;
        }
        push_digits(n / 10, out);
        out.push(48 + ((n % 10) as u8));
        proof {
            assert(out@ =~= old(out)@ + spec_digits(n as nat));
        }
    }
}

/// The magnitude of a signed value, computed without overflow.
fn magnitude_u64(t: i64) -> (r: u64)
    ensures
        r as int == if t >= 0 {
            t as int
        } else {
            -(t as int)
        },
{
    if t >= 0 {
        t as u64
    } else {
        let m = (-(t + 1)) as u64;
        m + 1
    }
}

/// Render a log entry into a fresh buffer.
pub fn format_log_entry_bytes(entry: &LogEntry) -> (r: Vec<u8>)
    requires
        entry.wf(),
    ensures
        r@ == spec_formatted_entry(*entry),
{
    let ghost e = *entry;
    let mut out: Vec<u8> = Vec::new();
    out.push(91);

    let mut digits: Vec<u8> = Vec::new();
    if entry.timestamp_us < 0 {
        digits.push(45);
    }
    push_digits(magnitude_u64(entry.timestamp_us), &mut digits);
    proof {
        assert(digits@ =~= spec_signed_digits(e.timestamp_us as int));
    }

    let dlen = digits.len();
    let mut pad: usize = dlen;
    while pad < 10
        invariant
            dlen <= pad,
            pad <= 10 || pad == dlen,
            out@ == seq![91u8] + spec_spaces((pad - dlen) as nat),
        decreases 10 - pad,
    {
        out.push(32);
        pad = pad + 1;
        proof {
            assert(out@ =~= seq![91u8] + spec_spaces((pad - dlen) as nat));
        }
    }
    out.append(&mut digits);
    proof {
        assert(out@ =~= seq![91u8] + spec_padded_timestamp(e.timestamp_us as int));
    }

    out.push(93);
    out.push(32);
    let mut label = entry.level.label_bytes();
    out.append(&mut label);
    out.push(58);
    out.push(32);
    let ghost head = seq![91u8] + spec_padded_timestamp(e.timestamp_us as int) + seq![93u8, 32u8]
        + e.level.spec_label_bytes() + seq![58u8, 32u8];
    proof {
        assert(out@ =~= head);
    }

    let msg_len = entry.len as usize;
    let mut j: usize = 0;
    while j < msg_len
        invariant
            j <= msg_len,
            msg_len <= entry.msg@.len(),
            entry.wf(),
            msg_len == entry.len as int,
            out@ == head + entry.msg@.take(j as int),
        decreases msg_len - j,
    {
        out.push(entry.msg[j]);
        proof {
            assert(out@ =~= head + entry.msg@.take(j + 1));
        }
        j = j + 1;
    }
    out.push(10);
    proof {
        assert(out@ =~= spec_formatted_entry(e));
    }
    out
}

/// Render a log entry into the front of a caller-supplied buffer,
/// truncating at the buffer's length; returns the number of bytes written.
pub fn format_log_entry(entry: &LogEntry, buf: &mut Vec<u8>) -> (r: usize)
    requires
        entry.wf(),
    ensures
        final(buf)@.len() == old(buf)@.len(),
        r == if spec_formatted_entry(*entry).len() <= old(buf)@.len() {
            spec_formatted_entry(*entry).len() as int
        } else {
            old(buf)@.len() as int
        },
        final(buf)@ == spec_formatted_entry(*entry).take(r as int) + old(buf)@.skip(r as int),
{
    let bytes = format_log_entry_bytes(entry);
    crate::logging::format_to_buffer(buf, bytes.as_slice())
}

} // verus!
