//! Real-time-safe logging: a fixed-capacity ring of log entries.
//!
//! Producers push formatted entries without ever blocking — when the ring
//! is full the entry is counted as dropped and forgotten, by design — and a
//! drain loop empties the ring at its leisure.  The ring's model is the
//! sequence of entries ever accepted; `drain` hands them back in order.

use vstd::pervasive::VecAdditionalExecFns;
use vstd::prelude::*;

use crate::stream::is_pow2;

verus! {

/// Maximum stored message length in bytes; longer messages are truncated.
pub const MAX_MSG_LEN: usize = 120;

/// Default number of entries in a log ring.
pub const LOG_BUFFER_SIZE: usize = 256;

/// Log severity.  The declaration order gives the ordering used for
/// filtering: `Error` is the smallest (most urgent) level.
#[derive(Clone, Copy, Debug, PartialEq, Eq, PartialOrd, Ord, Hash, Structural)]
pub enum LogLevel {
    Error,
    Warn,
    Info,
    Debug,
    Trace,
}

impl LogLevel {
    /// The level's display name.
    pub open spec fn spec_as_str(self) -> Seq<char> {
        match self {
            LogLevel::Error => "ERROR"@,
            LogLevel::Warn => "WARN"@,
            LogLevel::Info => "INFO"@,
            LogLevel::Debug => "DEBUG"@,
            LogLevel::Trace => "TRACE"@,
        }
    }

    /// The level's display name as bytes, as it appears in formatted
    /// output.
    pub open spec fn spec_label_bytes(self) -> Seq<u8> {
        match self {
            LogLevel::Error => seq![69, 82, 82, 79, 82],
            LogLevel::Warn => seq![87, 65, 82, 78],
            LogLevel::Info => seq![73, 78, 70, 79],
            LogLevel::Debug => seq![68, 69, 66, 85, 71],
            LogLevel::Trace => seq![84, 82, 65, 67, 69],
        }
    }

    /// Convert to a string for output.
    pub fn as_str(self) -> (r: &'static str)
        ensures
            r@ == self.spec_as_str(),
    {
        match self {
            LogLevel::Error => "ERROR",
            LogLevel::Warn => "WARN",
            LogLevel::Info => "INFO",
            LogLevel::Debug => "DEBUG",
            LogLevel::Trace => "TRACE",
        }
    }

    /// The level's display name as bytes.
    pub fn label_bytes(self) -> (r: Vec<u8>)
        ensures
            r@ == self.spec_label_bytes(),
    {
        let mut out: Vec<u8> = Vec::new();
        match self {
            LogLevel::Error => {
                out.push(69);
                out.push(82);
                out.push(82);
                out.push(79);
                out.push(82);
            },
            LogLevel::Warn => {
                out.push(87);
                out.push(65);
                out.push(82);
                out.push(78);
            },
            LogLevel::Info => {
                out.push(73);
                out.push(78);
                out.push(70);
                out.push(79);
            },
            LogLevel::Debug => {
                out.push(68);
                out.push(69);
                out.push(66);
                out.push(85);
                out.push(71);
            },
            LogLevel::Trace => {
                out.push(84);
                out.push(82);
                out.push(65);
                out.push(67);
                out.push(69);
            },
        }
        proof {
            assert(out@ =~= self.spec_label_bytes());
        }
        out
    }
}

/// A single log entry: a timestamp, a severity and the message bytes.
/// Only the first `len` bytes of `msg` are meaningful.
#[derive(Debug)]
pub struct LogEntry {
    /// Timestamp in microseconds.
    pub timestamp_us: i64,
    /// Log level.
    pub level: LogLevel,
    /// Message length in bytes.
    pub len: u8,
    /// Message bytes (not null-terminated; may hold stale bytes past `len`).
    pub msg: Vec<u8>,
}

impl LogEntry {
    /// The stored length never exceeds the message buffer.
    pub open spec fn wf(self) -> bool {
        self.len as int <= self.msg@.len()
    }

    /// The meaningful message bytes.
    pub open spec fn spec_message(self) -> Seq<u8> {
        self.msg@.take(self.len as int)
    }
}

impl Clone for LogEntry {
    /// A field-for-field copy: every field, the message bytes included,
    /// reads back equal.
    fn clone(&self) -> (r: Self)
        ensures
            r.timestamp_us == self.timestamp_us,
            r.level == self.level,
            r.len == self.len,
            r.msg@ == self.msg@,
    {
        let msg = self.msg.clone();
        proof {
            assert(msg@ =~= self.msg@);
        }
        LogEntry { timestamp_us: self.timestamp_us, level: self.level, len: self.len, msg }
    }
}

impl Default for LogEntry {
    /// An empty entry: zero timestamp, `Info`, no message.
    fn default() -> (r: Self)
        ensures
            r.timestamp_us == 0,
            r.level == LogLevel::Info,
            r.len == 0,
            r.msg@ == Seq::<u8>::empty(),
            r.wf(),
    {
        LogEntry { timestamp_us: 0, level: LogLevel::Info, len: 0, msg: Vec::new() }
    }
}

/// Whether two entries carry the same data (message compared by content).
pub open spec fn entry_eq(a: LogEntry, b: LogEntry) -> bool {
    &&& a.timestamp_us == b.timestamp_us
    &&& a.level == b.level
    &&& a.len == b.len
    &&& a.msg@ == b.msg@
}

/// Fixed-capacity ring of log entries.
///
/// `push` never blocks: a push against a full ring increments the dropped
/// counter and is otherwise forgotten.  `drain` returns accepted entries
/// oldest first.
pub struct LogStream {
    entries: Vec<LogEntry>,
    write_idx: usize,
    read_idx: usize,
    dropped: u32,
    log: Ghost<Seq<LogEntry>>,
}

impl LogStream {
    /// Every entry ever accepted, in order.
    pub closed spec fn accepted(&self) -> Seq<LogEntry> {
        self.log@
    }

    /// Logical index of the next entry `drain` will return.
    pub closed spec fn spec_read_pos(&self) -> usize {
        self.read_idx
    }

    /// Logical index one past the last accepted entry.
    pub closed spec fn spec_write_pos(&self) -> usize {
        self.write_idx
    }

    /// The ring capacity.
    pub closed spec fn spec_capacity(&self) -> usize {
        self.entries.len()
    }

    /// How many pushes have been dropped against a full ring.
    pub closed spec fn spec_dropped(&self) -> u32 {
        self.dropped
    }

    /// Representation detail: every undrained slot holds its accepted
    /// entry.
    pub closed spec fn slots_hold_entries(&self) -> bool {
        forall|i: int|
            self.read_idx <= i < self.write_idx ==> entry_eq(
                self.entries[i % (self.entries.len() as int)],
                #[trigger] self.log@[i],
            )
    }

    /// Structural invariant: a nonzero power-of-two capacity that fits the
    /// counters, indices that never cross, and slots holding their entries.
    pub open spec fn wf(&self) -> bool {
        &&& 0 < self.spec_capacity() <= 0x4000_0000
        &&& is_pow2(self.spec_capacity() as nat)
        &&& self.accepted().len() == self.spec_write_pos()
        &&& self.spec_read_pos() <= self.spec_write_pos()
        &&& self.spec_write_pos() - self.spec_read_pos() <= self.spec_capacity()
        &&& self.slots_hold_entries()
    }

    /// Number of accepted entries waiting to be drained.
    pub open spec fn spec_pending(&self) -> usize {
        (self.spec_write_pos() - self.spec_read_pos()) as usize
    }

    /// Create an empty ring with the given capacity (a nonzero power of
    /// two).
    pub fn new(capacity: usize) -> (r: Self)
        requires
            0 < capacity <= 0x4000_0000,
            is_pow2(capacity as nat),
        ensures
            r.wf(),
            r.accepted() == Seq::<LogEntry>::empty(),
            r.spec_read_pos() == 0,
            r.spec_write_pos() == 0,
            r.spec_capacity() == capacity,
            r.spec_dropped() == 0,
    {
        let mut entries: Vec<LogEntry> = Vec::new();
        let mut i: usize = 0;
        while i < capacity
            invariant
                entries.len() == i,
                i <= capacity,
            decreases capacity - i,
        {
            entries.push(LogEntry::default());
            i = i + 1;
        }
        LogStream { entries, write_idx: 0, read_idx: 0, dropped: 0, log: Ghost(Seq::empty()) }
    }

    /// Push a log entry; never blocks.
    ///
    /// Returns `true` and appends the entry — with the message truncated to
    /// [`MAX_MSG_LEN`] bytes — when the ring has room; returns `false` and
    /// counts the entry as dropped when the ring is full.
    pub fn push(&mut self, timestamp_us: i64, level: LogLevel, msg: &[u8]) -> (r: bool)
        requires
            old(self).wf(),
            old(self).spec_write_pos() < usize::MAX,
        ensures
            final(self).wf(),
            final(self).spec_capacity() == old(self).spec_capacity(),
            final(self).spec_read_pos() == old(self).spec_read_pos(),
            r == (old(self).spec_pending() < old(self).spec_capacity()),
            !r ==> {
                &&& final(self).accepted() == old(self).accepted()
                &&& final(self).spec_write_pos() == old(self).spec_write_pos()
                &&& final(self).spec_dropped() == if old(self).spec_dropped() == u32::MAX {
                    0u32
                } else {
                    (old(self).spec_dropped() + 1) as u32
                }
            },
            r ==> {
                &&& final(self).spec_dropped() == old(self).spec_dropped()
                &&& final(self).spec_write_pos() == old(self).spec_write_pos() + 1
                &&& final(self).accepted().len() == old(self).accepted().len() + 1
                &&& final(self).accepted().take(old(self).accepted().len() as int) == old(
                    self,
                ).accepted()
                &&& ({
                    let e = final(self).accepted().last();
                    &&& e.timestamp_us == timestamp_us
                    &&& e.level == level
                    &&& e.len as int == if msg@.len() <= MAX_MSG_LEN {
                        msg@.len() as int
                    } else {
                        MAX_MSG_LEN as int
                    }
                    &&& e.msg@ == msg@.take(e.len as int)
                    &&& e.wf()
                })
            },
    {
        let cap = self.entries.len();
        if self.write_idx - self.read_idx >= cap {
            self.dropped = if self.dropped == u32::MAX {
                0
            } else {
                self.dropped + 1
            };
            return false;
        }
        let take_len = if msg.len() <= MAX_MSG_LEN {
            msg.len()
        } else {
            MAX_MSG_LEN
        };
        let mut stored: Vec<u8> = Vec::new();
        let mut i: usize = 0;
        while i < take_len
            invariant
                i <= take_len,
                take_len <= msg@.len(),
                stored@ == msg@.take(i as int),
            decreases take_len - i,
        {
            stored.push(msg[i]);
            proof {
                assert(stored@ =~= msg@.take(i + 1));
            }
            i = i + 1;
        }
        let entry = LogEntry { timestamp_us, level, len: take_len as u8, msg: stored };
        let slot = self.write_idx % cap;
        proof {
            self.log@ = self.log@.push(entry);
        }
        self.entries.set(slot, entry);
        self.write_idx = self.write_idx + 1;
        proof {
            let capi = cap as int;
            let w = old(self).write_idx as int;
            assert forall|i2: int| self.read_idx <= i2 < self.write_idx implies entry_eq(
                self.entries[i2 % capi],
                #[trigger] self.log@[i2],
            ) by {
                if i2 == w {
                    assert(self.entries[w % capi] == self.log@[w]);
                } else {
                    crate::stream::lemma_live_mod_distinct(i2, w, capi);
                    assert(entry_eq(old(self).entries[i2 % capi], old(self).log@[i2]));
                }
            }
            assert(self.log@.take(old(self).log@.len() as int) =~= old(self).log@);
        }
        true
    }

    /// Drain the oldest waiting entry, if any.
    pub fn drain(&mut self) -> (r: Option<LogEntry>)
        requires
            old(self).wf(),
        ensures
            final(self).wf(),
            final(self).accepted() == old(self).accepted(),
            final(self).spec_capacity() == old(self).spec_capacity(),
            final(self).spec_write_pos() == old(self).spec_write_pos(),
            final(self).spec_dropped() == old(self).spec_dropped(),
            old(self).spec_pending() == 0 ==> r is None && final(self).spec_read_pos() == old(
                self,
            ).spec_read_pos(),
            old(self).spec_pending() > 0 ==> {
                &&& final(self).spec_read_pos() == old(self).spec_read_pos() + 1
                &&& r is Some
                &&& entry_eq(r.unwrap(), old(self).accepted()[old(self).spec_read_pos() as int])
            },
    {
        if self.read_idx == self.write_idx {
            return None;
        }
        let cap = self.entries.len();
        let entry = self.entries[self.read_idx % cap].clone();
        self.read_idx = self.read_idx + 1;
        Some(entry)
    }

    /// How many pushes were dropped against a full ring.
    pub fn dropped(&self) -> (r: u32)
        ensures
            r == self.spec_dropped(),
    {
        self.dropped
    }

    /// Reset the dropped counter (after reporting it).
    pub fn reset_dropped(&mut self)
        ensures
            final(self).spec_dropped() == 0,
            final(self).accepted() == old(self).accepted(),
            final(self).spec_read_pos() == old(self).spec_read_pos(),
            final(self).spec_write_pos() == old(self).spec_write_pos(),
            final(self).spec_capacity() == old(self).spec_capacity(),
            final(self).wf() == old(self).wf(),
    {
        self.dropped = 0;
    }

    /// Whether any entry is waiting to be drained.
    pub fn has_entries(&self) -> (r: bool)
        requires
            self.wf(),
        ensures
            r == (self.spec_pending() > 0),
    {
        self.read_idx != self.write_idx
    }

    /// Number of entries waiting to be drained.
    pub fn pending(&self) -> (r: u32)
        requires
            self.wf(),
        ensures
            r == self.spec_pending() as u32,
            r as int == self.spec_pending() as int,
    {
        (self.write_idx - self.read_idx) as u32
    }
}

/// Copy a message into the front of a fixed buffer, truncating to the
/// buffer's length; returns the number of bytes written.  The buffer keeps
/// its length; bytes past the copied prefix are untouched.
pub fn format_to_buffer(buf: &mut Vec<u8>, src: &[u8]) -> (r: usize)
    ensures
        final(buf)@.len() == old(buf)@.len(),
        r == if src@.len() <= old(buf)@.len() {
            src@.len() as int
        } else {
            old(buf)@.len() as int
        },
        final(buf)@ == src@.take(r as int) + old(buf)@.skip(r as int),
{
    let n = if src.len() <= buf.len() {
        src.len()
    } else {
        buf.len()
    };
    let mut i: usize = 0;
    while i < n
        invariant
            i <= n,
            n <= src@.len(),
            n <= buf@.len(),
            buf@.len() == old(buf)@.len(),
            buf@ == src@.take(i as int) + old(buf)@.skip(i as int),
        decreases n - i,
    {
        buf.set(i, src[i]);
        proof {
            assert(buf@ =~= src@.take(i + 1) + old(buf)@.skip(i + 1));
        }
        i = i + 1;
    }
    proof {
        assert(buf@ =~= src@.take(n as int) + old(buf)@.skip(n as int));
    }
    n
}

} // verus!
