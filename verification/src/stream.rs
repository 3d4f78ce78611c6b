//! The keying stream: a fixed-capacity ring that owns the keying timeline.
//!
//! One producer appends samples; any number of consumers read at their own
//! pace through a private cursor and never disturb the producer or each
//! other.  The producer never blocks and never waits for a reader: when a
//! reader falls more than one capacity behind, its old samples are simply
//! overwritten.  Identical consecutive samples are not stored one by one;
//! they accumulate in an idle counter and are written as a single silence
//! marker when the state next changes (or on [`KeyingStream::flush`]).
//!
//! The stream's model is the *timeline*: the sequence of every record ever
//! written.  The ring holds its last `capacity` entries; `read` answers
//! exactly for logical indices in that live window.

use vstd::pervasive::VecAdditionalExecFns;
use vstd::prelude::*;

use crate::sample::{StreamSample, MAX_SILENCE_RUN};

verus! {

/// Whether `n` is a power of two.
pub open spec fn is_pow2(n: nat) -> bool
    decreases n,
{
    if n == 0 {
        false
    } else if n == 1 {
        true
    } else {
        n % 2 == 0 && is_pow2(n / 2)
    }
}

/// The silence marker that compresses a run of `n` idle ticks.
pub open spec fn silence_marker(n: u32) -> StreamSample {
    StreamSample::Silence { ticks: n }
}

/// One unchanged push, seen on the stream's model: the idle run grows by a
/// tick, and a full run of `MAX_SILENCE_RUN` ticks is written out at once so
/// that no run ever outgrows what one marker can carry.
pub open spec fn idle_step(t: Seq<StreamSample>, idle: u32) -> (Seq<StreamSample>, u32) {
    if idle + 1 == MAX_SILENCE_RUN {
        (t.push(silence_marker(MAX_SILENCE_RUN)), 0u32)
    } else {
        (t, (idle + 1) as u32)
    }
}

/// `n` unchanged pushes in a row, starting from an empty idle run.
pub open spec fn idle_steps(t: Seq<StreamSample>, n: nat) -> (Seq<StreamSample>, u32)
    decreases n,
{
    if n == 0 {
        (t, 0u32)
    } else {
        let prev = idle_steps(t, (n - 1) as nat);
        idle_step(prev.0, prev.1)
    }
}

/// The total number of idle ticks a sequence of records stands for: silence
/// markers contribute their run length, concrete samples nothing.
pub open spec fn decoded_ticks(s: Seq<StreamSample>) -> int
    decreases s.len(),
{
    if s.len() == 0 {
        0
    } else {
        decoded_ticks(s.drop_last()) + s.last().spec_silence_ticks()
    }
}

/// Lock-free-style SPMC ring buffer for keying events, modelled with a
/// single owner: the producer appends through `&mut self`, readers query
/// through `&self`.
///
/// The single-producer rule is enforced by ownership rather than by
/// convention: only the holder of the mutable reference can append.
pub struct KeyingStream {
    /// The ring storage; its length is the capacity, a power of two.
    buffer: Vec<StreamSample>,
    /// Producer write index: logical position, monotonically increasing,
    /// never rewound.  The physical slot is `write_idx % capacity`.
    write_idx: usize,
    /// Idle ticks accumulated since the last written record.
    idle_ticks: u32,
    /// Last concrete sample written, for change detection.
    last_sample: StreamSample,
    /// The timeline: every record ever written, in order.
    log: Ghost<Seq<StreamSample>>,
}

impl KeyingStream {
    /// Every record ever written, in order.  `read` serves the final
    /// `capacity` entries of this sequence.
    pub closed spec fn timeline(&self) -> Seq<StreamSample> {
        self.log@
    }

    /// The producer's next logical index, equal to the number of records
    /// written so far.
    pub closed spec fn spec_write_position(&self) -> usize {
        self.write_idx
    }

    /// The ring capacity.
    pub closed spec fn spec_capacity(&self) -> usize {
        self.buffer.len()
    }

    /// Idle ticks accumulated and not yet written out as a marker.
    pub closed spec fn idle_run(&self) -> u32 {
        self.idle_ticks
    }

    /// The last concrete sample written, against which the next push is
    /// compared.
    pub closed spec fn last_concrete(&self) -> StreamSample {
        self.last_sample
    }

    /// Representation detail of the ring: every live slot holds its
    /// timeline entry.
    pub closed spec fn slots_hold_timeline(&self) -> bool {
        forall|i: int|
            self.write_idx - self.buffer.len() <= i < self.write_idx && 0 <= i
                ==> self.buffer[i % (self.buffer.len() as int)] == #[trigger] self.log@[i]
    }

    /// Structural invariant: the capacity is a nonzero power of two, the
    /// write index counts the timeline, the pending idle run is below what
    /// one marker carries, the comparison sample is concrete, and every
    /// live slot of the ring holds its timeline entry.
    pub open spec fn wf(&self) -> bool {
        &&& self.spec_capacity() > 0
        &&& is_pow2(self.spec_capacity() as nat)
        &&& self.timeline().len() == self.spec_write_position()
        &&& self.idle_run() < MAX_SILENCE_RUN
        &&& self.last_concrete() is Concrete
        &&& self.last_concrete().wf()
        &&& self.slots_hold_timeline()
    }

    /// How far a cursor at `read_idx` is behind the producer; zero for a
    /// cursor at or past the write position.
    pub open spec fn spec_lag(&self, read_idx: usize) -> usize {
        if read_idx <= self.spec_write_position() {
            (self.spec_write_position() - read_idx) as usize
        } else {
            0
        }
    }

    /// Whether a cursor has lost data: its lag exceeds the capacity, so a
    /// sample it still wanted has been overwritten.
    pub open spec fn spec_is_overrun(&self, read_idx: usize) -> bool {
        self.spec_lag(read_idx) > self.spec_capacity()
    }

    /// What `read` returns for a logical index: the timeline entry when the
    /// index is in the live window, nothing when it is not yet written or
    /// already overwritten.
    pub open spec fn spec_read(&self, idx: usize) -> Option<StreamSample> {
        if idx < self.spec_write_position() && self.spec_write_position() - idx
            <= self.spec_capacity() {
            Some(self.timeline()[idx as int])
        } else {
            None
        }
    }

    /// Create a stream that stores its records in `buffer`; the buffer's
    /// length, a nonzero power of two, is the capacity.
    pub fn with_buffer(buffer: Vec<StreamSample>) -> (r: Self)
        requires
            buffer.len() > 0,
            is_pow2(buffer.len() as nat),
        ensures
            r.wf(),
            r.timeline() == Seq::<StreamSample>::empty(),
            r.spec_write_position() == 0,
            r.spec_capacity() == buffer.len(),
            r.idle_run() == 0,
            r.last_concrete() == (StreamSample::Concrete {
                gpio: crate::sample::GpioState { bits: 0 },
                local_key: false,
                remote_key: false,
                flags: 0,
            }),
    {
        proof {
            assert(0u8 & 0x10u8 == 0) by (bit_vector);
        }
        KeyingStream {
            buffer,
            write_idx: 0,
            idle_ticks: 0,
            last_sample: StreamSample::zero(),
            log: Ghost(Seq::empty()),
        }
    }

    /// Write one record into the ring at the producer's index.
    fn write_slot(&mut self, sample: StreamSample)
        requires
            old(self).wf(),
            old(self).spec_write_position() < usize::MAX,
        ensures
            final(self).wf(),
            final(self).timeline() == old(self).timeline().push(sample),
            final(self).spec_write_position() == old(self).spec_write_position() + 1,
            final(self).spec_capacity() == old(self).spec_capacity(),
            final(self).idle_run() == old(self).idle_run(),
            final(self).last_concrete() == old(self).last_concrete(),
    {
        let cap = self.buffer.len();
        let slot = self.write_idx % cap;
        self.buffer.set(slot, sample);
        self.write_idx = self.write_idx + 1;
        proof {
            self.log@ = self.log@.push(sample);
            let capi = cap as int;
            let w = old(self).write_idx as int;
            assert forall|i: int|
                self.write_idx - self.buffer.len() <= i < self.write_idx && 0 <= i
                    implies self.buffer[i % capi] == #[trigger] self.log@[i] by {
                if i == w {
                    assert(self.buffer[w % capi] == sample);
                } else {
                    lemma_live_mod_distinct(i, w, capi);
                    assert(old(self).buffer[i % capi] == old(self).log@[i]);
                }
            }
        }
    }

    /// Push a sample, compressing unchanged runs (producer only).
    ///
    /// If the sample's keying state equals the last concrete sample's, only
    /// the idle counter moves (one marker is written when the run reaches
    /// the largest length a marker can carry).  Otherwise any pending idle
    /// run is flushed as a silence marker and the sample is written with
    /// edge flags computed against the previous concrete sample.
    ///
    /// Always succeeds; the `bool` mirrors a fallible interface kept for
    /// producer-side backpressure.
    pub fn push(&mut self, sample: StreamSample) -> (r: bool)
        requires
            old(self).wf(),
            sample is Concrete,
            sample.wf(),
            old(self).spec_write_position() + 2 <= usize::MAX,
        ensures
            r == true,
            final(self).wf(),
            final(self).spec_capacity() == old(self).spec_capacity(),
            sample.spec_has_change_from(old(self).last_concrete()) ==> {
                &&& final(self).timeline() == old(self).timeline() + (if old(self).idle_run() > 0 {
                    seq![silence_marker(old(self).idle_run())]
                } else {
                    Seq::<StreamSample>::empty()
                }) + seq![sample.spec_with_edges_from(old(self).last_concrete())]
                &&& final(self).idle_run() == 0
                &&& final(self).last_concrete() == sample
            },
            !sample.spec_has_change_from(old(self).last_concrete()) ==> {
                &&& (final(self).timeline(), final(self).idle_run()) == idle_step(
                    old(self).timeline(),
                    old(self).idle_run(),
                )
                &&& final(self).last_concrete() == old(self).last_concrete()
            },
    {
        if sample.has_change_from(&self.last_sample) {
            let idle = self.idle_ticks;
            if idle > 0 {
                self.idle_ticks = 0;
                self.write_slot(StreamSample::silence(idle));
            }
            let with_edges = sample.with_edges_from(&self.last_sample);
            self.write_slot(with_edges);
            self.last_sample = sample;
        } else {
            self.idle_ticks = self.idle_ticks + 1;
            if self.idle_ticks == MAX_SILENCE_RUN {
                self.idle_ticks = 0;
                self.write_slot(StreamSample::silence(MAX_SILENCE_RUN));
            }
        }
        true
    }

    /// Push a sample unconditionally: no compression, no edge computation,
    /// no change to the comparison state.  Used where every tick must be
    /// materialised.
    pub fn push_raw(&mut self, sample: StreamSample) -> (r: bool)
        requires
            old(self).wf(),
            old(self).spec_write_position() < usize::MAX,
        ensures
            r == true,
            final(self).wf(),
            final(self).timeline() == old(self).timeline().push(sample),
            final(self).spec_write_position() == old(self).spec_write_position() + 1,
            final(self).spec_capacity() == old(self).spec_capacity(),
            final(self).idle_run() == old(self).idle_run(),
            final(self).last_concrete() == old(self).last_concrete(),
    {
        self.write_slot(sample);
        true
    }

    /// Write any pending idle run out as a single silence marker.
    ///
    /// Call before a consumer may assume that no more data is coming (on
    /// shutdown or a mode change): afterwards the timeline carries every
    /// tick that was pushed.
    pub fn flush(&mut self)
        requires
            old(self).wf(),
            old(self).spec_write_position() < usize::MAX,
        ensures
            final(self).wf(),
            final(self).idle_run() == 0,
            final(self).spec_capacity() == old(self).spec_capacity(),
            final(self).last_concrete() == old(self).last_concrete(),
            final(self).timeline() == if old(self).idle_run() > 0 {
                old(self).timeline().push(silence_marker(old(self).idle_run()))
            } else {
                old(self).timeline()
            },
    {
        let idle = self.idle_ticks;
        if idle > 0 {
            self.idle_ticks = 0;
            self.write_slot(StreamSample::silence(idle));
        }
    }

    /// Read the record at a logical index.
    ///
    /// Returns the timeline entry if and only if the index is in the live
    /// window: already written, and not yet overwritten.  Safe to call for
    /// any index; absence of data is an answer, not an error.
    pub fn read(&self, idx: usize) -> (r: Option<StreamSample>)
        requires
            self.wf(),
        ensures
            r == self.spec_read(idx),
    {
        let w = self.write_idx;
        if idx >= w {
            return None;
        }
        let cap = self.buffer.len();
        if w - idx > cap {
            return None;
        }
        Some(self.buffer[idx % cap])
    }

    /// The producer's current write position (for consumer initialisation).
    pub fn write_position(&self) -> (r: usize)
        ensures
            r == self.spec_write_position(),
    {
        self.write_idx
    }

    /// How many records a cursor at `read_idx` is behind the producer.
    pub fn lag(&self, read_idx: usize) -> (r: usize)
        ensures
            r == self.spec_lag(read_idx),
    {
        let w = self.write_idx;
        if read_idx <= w {
            w - read_idx
        } else {
            0
        }
    }

    /// Whether a cursor at `read_idx` has missed records and must resync.
    pub fn is_overrun(&self, read_idx: usize) -> (r: bool)
        ensures
            r == self.spec_is_overrun(read_idx),
    {
        self.lag(read_idx) > self.buffer.len()
    }

    /// The ring capacity.
    pub fn capacity(&self) -> (r: usize)
        ensures
            r == self.spec_capacity(),
    {
        self.buffer.len()
    }
}

/// Why two live logical indices never share a ring slot.
pub proof fn lemma_live_mod_distinct(i: int, w: int, cap: int)
    requires
        cap > 0,
        0 <= i < w,
        w - i < cap,
    ensures
        i % cap != w % cap,
{
    if i % cap == w % cap {
        vstd::arithmetic::div_mod::lemma_fundamental_div_mod(i, cap);
        vstd::arithmetic::div_mod::lemma_fundamental_div_mod(w, cap);
        let d = w / cap - i / cap;
        assert(w - i == cap * d) by (nonlinear_arith)
            requires
                i == cap * (i / cap) + i % cap,
                w == cap * (w / cap) + w % cap,
                i % cap == w % cap,
                d == w / cap - i / cap,
        ;
        assert(false) by (nonlinear_arith)
            requires
                cap > 0,
                0 < cap * d < cap,
        ;
    }
}

/// A private cursor over a [`KeyingStream`].
///
/// Each consumer owns exactly one cursor; cursors are never shared.  A new
/// cursor starts at the stream's current write position, so a consumer only
/// sees records produced after it attaches unless it is explicitly placed
/// at a historical position.
pub struct StreamConsumer {
    /// This consumer's logical read index.
    read_idx: usize,
}

impl StreamConsumer {
    /// The cursor's current logical position.
    pub closed spec fn spec_position(&self) -> usize {
        self.read_idx
    }

    /// Create a cursor at the stream's current write position.
    pub fn new(stream: &KeyingStream) -> (r: Self)
        ensures
            r.spec_position() == stream.spec_write_position(),
    {
        StreamConsumer { read_idx: stream.write_position() }
    }

    /// Create a cursor at a specific logical position, for replaying
    /// history or resuming from a known point.
    pub fn from_position(_stream: &KeyingStream, position: usize) -> (r: Self)
        ensures
            r.spec_position() == position,
    {
        StreamConsumer { read_idx: position }
    }

    /// Read the record under the cursor and advance past it; `None` when
    /// the cursor has caught up with the producer (not an error) or when
    /// its record was already overwritten.
    pub fn next(&mut self, stream: &KeyingStream) -> (r: Option<StreamSample>)
        requires
            stream.wf(),
        ensures
            r == stream.spec_read(old(self).spec_position()),
            r is Some ==> final(self).spec_position() == old(self).spec_position() + 1,
            r is None ==> final(self).spec_position() == old(self).spec_position(),
    {
        let sample = stream.read(self.read_idx);
        if sample.is_some() {
            self.read_idx = self.read_idx + 1;
        }
        sample
    }

    /// Read the record under the cursor without consuming it.
    pub fn peek(&self, stream: &KeyingStream) -> (r: Option<StreamSample>)
        requires
            stream.wf(),
        ensures
            r == stream.spec_read(self.spec_position()),
    {
        stream.read(self.read_idx)
    }

    /// How many records this cursor is behind the producer.
    pub fn lag(&self, stream: &KeyingStream) -> (r: usize)
        ensures
            r == stream.spec_lag(self.spec_position()),
    {
        stream.lag(self.read_idx)
    }

    /// Whether this cursor has missed records.
    pub fn is_overrun(&self, stream: &KeyingStream) -> (r: bool)
        ensures
            r == stream.spec_is_overrun(self.spec_position()),
    {
        stream.is_overrun(self.read_idx)
    }

    /// Jump to the producer's position, discarding the backlog; returns how
    /// many records were skipped.
    pub fn skip_to_latest(&mut self, stream: &KeyingStream) -> (r: usize)
        ensures
            final(self).spec_position() == stream.spec_write_position(),
            r == stream.spec_lag(old(self).spec_position()),
    {
        let w = stream.write_position();
        let skipped = if self.read_idx <= w {
            w - self.read_idx
        } else {
            0
        };
        self.read_idx = w;
        skipped
    }

    /// Recover from an overrun: move to the oldest position the ring still
    /// holds.
    pub fn resync(&mut self, stream: &KeyingStream)
        ensures
            final(self).spec_position() == if stream.spec_write_position()
                >= stream.spec_capacity() {
                (stream.spec_write_position() - stream.spec_capacity()) as usize
            } else {
                0usize
            },
    {
        let w = stream.write_position();
        let cap = stream.capacity();
        self.read_idx = if w >= cap {
            w - cap
        } else {
            0
        };
    }

    /// The cursor's current logical position.
    pub fn position(&self) -> (r: usize)
        ensures
            r == self.spec_position(),
    {
        self.read_idx
    }
}

/// The sequence of `j` silence markers, each carrying a full run.
pub open spec fn full_markers(j: nat) -> Seq<StreamSample> {
    Seq::new(j, |i: int| silence_marker(MAX_SILENCE_RUN))
}

/// Shape of an unchanged run on the stream's model: after `n` unchanged
/// pushes from an empty idle run, the timeline has gained one full marker
/// for every complete `MAX_SILENCE_RUN` ticks, and the remainder is still
/// pending in the idle counter.
pub proof fn lemma_idle_steps_shape(t: Seq<StreamSample>, n: nat)
    ensures
        idle_steps(t, n).0 == t + full_markers(n / (MAX_SILENCE_RUN as nat)),
        idle_steps(t, n).1 == n % (MAX_SILENCE_RUN as nat),
    decreases n,
{
    let m = MAX_SILENCE_RUN as nat;
    if n == 0 {
        assert(t + full_markers(0) =~= t);
        vstd::arithmetic::div_mod::lemma_small_mod(0, m);
        vstd::arithmetic::div_mod::lemma_small_div_converse(0, m as int);
    } else {
        lemma_idle_steps_shape(t, (n - 1) as nat);
        let q = (n - 1) as nat / m;
        let r = (n - 1) as nat % m;
        vstd::arithmetic::div_mod::lemma_fundamental_div_mod((n - 1) as int, m as int);
        if r + 1 == m {
            vstd::arithmetic::div_mod::lemma_fundamental_div_mod_converse(
                n as int,
                m as int,
                q as int + 1,
                0,
            );
            assert((t + full_markers(q)).push(silence_marker(MAX_SILENCE_RUN)) =~= t
                + full_markers(q + 1));
        } else {
            vstd::arithmetic::div_mod::lemma_fundamental_div_mod_converse(
                n as int,
                m as int,
                q as int,
                r as int + 1,
            );
        }
    }
}

/// Appending a record adds exactly its own tick count to the decoded total.
proof fn lemma_decoded_ticks_push(s: Seq<StreamSample>, x: StreamSample)
    ensures
        decoded_ticks(s.push(x)) == decoded_ticks(s) + x.spec_silence_ticks(),
{
    assert(s.push(x).drop_last() =~= s);
    assert(s.push(x).last() == x);
}

/// A run of `j` full markers decodes to `j * MAX_SILENCE_RUN` ticks.
proof fn lemma_decoded_ticks_markers(t: Seq<StreamSample>, j: nat)
    ensures
        decoded_ticks(t + full_markers(j)) == decoded_ticks(t) + j * (MAX_SILENCE_RUN as int),
    decreases j,
{
    if j == 0 {
        assert(t + full_markers(0) =~= t);
    } else {
        lemma_decoded_ticks_markers(t, (j - 1) as nat);
        assert(t + full_markers(j) =~= (t + full_markers((j - 1) as nat)).push(
            silence_marker(MAX_SILENCE_RUN),
        ));
        lemma_decoded_ticks_push(t + full_markers((j - 1) as nat), silence_marker(MAX_SILENCE_RUN));
        assert(j * (MAX_SILENCE_RUN as int) == (j - 1) * (MAX_SILENCE_RUN as int)
            + MAX_SILENCE_RUN as int) by (nonlinear_arith);
    }
}

/// Silence compression round trip, up to the largest run one marker can
/// carry: `n` pushes of an unchanged sample starting from an empty idle run
/// (each of which, by the contract of [`KeyingStream::push`], takes the
/// stream through [`idle_step`]) leave the timeline untouched, and the
/// flush that follows writes exactly one record — a silence marker whose
/// decoded tick count is `n`.
pub proof fn lemma_silence_compression_round_trip(t: Seq<StreamSample>, n: nat)
    requires
        1 <= n <= MAX_SILENCE_RUN,
    ensures
        ({
            let after = idle_steps(t, n);
            let flushed = if after.1 > 0 {
                after.0.push(silence_marker(after.1))
            } else {
                after.0
            };
            &&& flushed =~= t.push(silence_marker(n as u32))
            &&& flushed.len() == t.len() + 1
            &&& flushed.last().spec_silence_ticks() == n
        }),
{
    let m = MAX_SILENCE_RUN as nat;
    lemma_idle_steps_shape(t, n);
    if n < m {
        vstd::arithmetic::div_mod::lemma_small_mod(n, m);
        vstd::arithmetic::div_mod::lemma_small_div_converse(n as int, m as int);
        assert(t + full_markers(0) =~= t);
    } else {
        vstd::arithmetic::div_mod::lemma_fundamental_div_mod_converse(n as int, m as int, 1, 0);
        assert(t + full_markers(1) =~= t.push(silence_marker(MAX_SILENCE_RUN)));
    }
}

/// No silence is ever truncated: whatever the length of an unchanged run —
/// including runs past what a single marker can carry — the records written
/// for it, plus the final flush, decode to exactly the run's tick count.
pub proof fn lemma_silence_never_truncated(t: Seq<StreamSample>, n: nat)
    ensures
        ({
            let after = idle_steps(t, n);
            let flushed = if after.1 > 0 {
                after.0.push(silence_marker(after.1))
            } else {
                after.0
            };
            decoded_ticks(flushed) == decoded_ticks(t) + n
        }),
{
    let m = MAX_SILENCE_RUN as nat;
    lemma_idle_steps_shape(t, n);
    lemma_decoded_ticks_markers(t, n / m);
    vstd::arithmetic::div_mod::lemma_fundamental_div_mod(n as int, m as int);
    let after = idle_steps(t, n);
    if after.1 > 0 {
        lemma_decoded_ticks_push(after.0, silence_marker(after.1));
    }
}

/// Overrun boundary law: once the producer has written `capacity + k`
/// records (`k >= 1`), logical index `0` is overrun and unreadable, while
/// logical index `k` is not overrun and reads back exactly the record the
/// timeline holds at `k`.
pub proof fn lemma_overrun_boundary(s: &KeyingStream, k: usize)
    requires
        s.wf(),
        s.spec_write_position() == s.spec_capacity() + k,
        k >= 1,
    ensures
        s.spec_is_overrun(0),
        !s.spec_is_overrun(k),
        s.spec_read(0) is None,
        s.spec_read(k) == Some(s.timeline()[k as int]),
{
}

} // verus!
