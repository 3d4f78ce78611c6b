//! Consumer policies over the keying stream.
//!
//! Two disciplines for falling behind the producer:
//! - [`HardRtConsumer`] must keep up or fault.  Used where timing is
//!   safety-relevant (TX keying, sidetone): corrupted timing is worse than
//!   silence, so the consumer records a fault and stops instead of playing
//!   late samples.
//! - [`BestEffortConsumer`] never errors.  Used for decoding, telemetry and
//!   relaying: it skips forward when it falls too far behind and counts what
//!   it dropped.

use vstd::prelude::*;

use crate::fault::{FaultCode, FaultState};
use crate::sample::StreamSample;
use crate::stream::KeyingStream;

verus! {

/// Hard real-time consumer: a private cursor plus a lag budget.
///
/// Its contract: read in order while within budget; the moment the backlog
/// exceeds `max_lag` (or data is already gone), record the fault and return
/// the error instead of a sample.  The caller must silence its actuator,
/// then `resync` once the cause is fixed.
pub struct HardRtConsumer {
    read_idx: usize,
    max_lag: usize,
}

impl HardRtConsumer {
    /// The cursor's logical read position.
    pub closed spec fn spec_read_idx(&self) -> usize {
        self.read_idx
    }

    /// The largest backlog the consumer tolerates before faulting.
    pub closed spec fn spec_max_lag(&self) -> usize {
        self.max_lag
    }

    /// Create a hard real-time consumer attached at the stream's current
    /// write position, with the given lag budget.
    pub fn new(stream: &KeyingStream, max_lag: usize) -> (r: Self)
        ensures
            r.spec_read_idx() == stream.spec_write_position(),
            r.spec_max_lag() == max_lag,
    {
        HardRtConsumer { read_idx: stream.write_position(), max_lag }
    }

    /// Read the next sample, or fault if the consumer can no longer keep
    /// its timing promise.
    ///
    /// Checked in order of severity: an overrun (data already overwritten)
    /// records `FaultCode::Overrun`; a backlog over `max_lag` records
    /// `FaultCode::LatencyExceeded`; otherwise the next sample is returned
    /// and the cursor advances, or `Ok(None)` says the consumer has caught
    /// up.  Each error records the current lag in the fault data and
    /// increments the cumulative fault count by exactly one; the fault
    /// state is untouched on the `Ok` paths.
    pub fn tick(&mut self, stream: &KeyingStream, fault: &mut FaultState) -> (r: Result<
        Option<StreamSample>,
        FaultCode,
    >)
        requires
            stream.wf(),
        ensures
            final(self).spec_max_lag() == old(self).spec_max_lag(),
            ({
                let lag = stream.spec_lag(old(self).spec_read_idx());
                if lag > stream.spec_capacity() {
                    &&& r == Err::<Option<StreamSample>, FaultCode>(FaultCode::Overrun)
                    &&& final(self).spec_read_idx() == old(self).spec_read_idx()
                    &&& final(fault).spec_active()
                    &&& final(fault).spec_code() == FaultCode::Overrun
                    &&& final(fault).spec_data() == lag as u32
                    &&& final(fault).spec_count() == if old(fault).spec_count() == u32::MAX {
                        0u32
                    } else {
                        (old(fault).spec_count() + 1) as u32
                    }
                } else if lag > old(self).spec_max_lag() {
                    &&& r == Err::<Option<StreamSample>, FaultCode>(FaultCode::LatencyExceeded)
                    &&& final(self).spec_read_idx() == old(self).spec_read_idx()
                    &&& final(fault).spec_active()
                    &&& final(fault).spec_code() == FaultCode::LatencyExceeded
                    &&& final(fault).spec_data() == lag as u32
                    &&& final(fault).spec_count() == if old(fault).spec_count() == u32::MAX {
                        0u32
                    } else {
                        (old(fault).spec_count() + 1) as u32
                    }
                } else if lag > 0 {
                    &&& r == Ok::<Option<StreamSample>, FaultCode>(
                        Some(stream.timeline()[old(self).spec_read_idx() as int]),
                    )
                    &&& final(self).spec_read_idx() == old(self).spec_read_idx() + 1
                    &&& *final(fault) == *old(fault)
                } else {
                    &&& r == Ok::<Option<StreamSample>, FaultCode>(None)
                    &&& final(self).spec_read_idx() == old(self).spec_read_idx()
                    &&& *final(fault) == *old(fault)
                }
            }),
    {
        if stream.is_overrun(self.read_idx) {
            let lag = stream.lag(self.read_idx);
            fault.set(FaultCode::Overrun, #[verifier::truncate] (lag as u32));
            return Err(FaultCode::Overrun);
        }
        let lag = stream.lag(self.read_idx);
        if lag > self.max_lag {
            fault.set(FaultCode::LatencyExceeded, #[verifier::truncate] (lag as u32));
            return Err(FaultCode::LatencyExceeded);
        }
        match stream.read(self.read_idx) {
            Some(sample) => {
                self.read_idx = self.read_idx + 1;
                Ok(Some(sample))
            },
            None => Ok(None),
        }
    }

    /// Jump to the producer's position after fault recovery, so reading can
    /// resume on fresh data.
    pub fn resync(&mut self, stream: &KeyingStream)
        ensures
            final(self).spec_read_idx() == stream.spec_write_position(),
            final(self).spec_max_lag() == old(self).spec_max_lag(),
    {
        self.read_idx = stream.write_position();
    }

    /// The consumer's current backlog.
    pub fn lag(&self, stream: &KeyingStream) -> (r: usize)
        ensures
            r == stream.spec_lag(self.spec_read_idx()),
    {
        stream.lag(self.read_idx)
    }

    /// The cursor's logical read position.
    pub fn read_idx(&self) -> (r: usize)
        ensures
            r == self.spec_read_idx(),
    {
        self.read_idx
    }
}

/// Best-effort consumer: a private cursor plus a dropped-sample counter.
///
/// It never produces an error: when the backlog exceeds the ring capacity
/// it jumps forward to `resync_headroom` records behind the producer
/// (headroom to catch up, rather than snapping to the head), adds what it
/// skipped to the dropped counter, and carries on.  The headroom starts at
/// half the ring capacity — a heuristic, so it is configurable.
pub struct BestEffortConsumer {
    read_idx: usize,
    dropped: usize,
    resync_headroom: usize,
}

impl BestEffortConsumer {
    /// The cursor's logical read position.
    pub closed spec fn spec_read_idx(&self) -> usize {
        self.read_idx
    }

    /// How many samples have been skipped so far.
    pub closed spec fn spec_dropped(&self) -> usize {
        self.dropped
    }

    /// How far behind the producer the cursor lands after an overrun skip
    /// (clamped to the ring capacity when it is applied).
    pub closed spec fn spec_resync_headroom(&self) -> usize {
        self.resync_headroom
    }

    /// Where the cursor stands after the overrun check: moved to the
    /// resync headroom (at most one capacity) behind the producer if it was
    /// overrun, otherwise unmoved.
    pub open spec fn spec_adjusted(&self, stream: &KeyingStream) -> usize {
        if stream.spec_is_overrun(self.spec_read_idx()) {
            (stream.spec_write_position() - (if self.spec_resync_headroom()
                <= stream.spec_capacity() {
                self.spec_resync_headroom()
            } else {
                stream.spec_capacity()
            })) as usize
        } else {
            self.spec_read_idx()
        }
    }

    /// The dropped count after the overrun check: grown by the backlog that
    /// was abandoned, saturating at the type bound.
    pub open spec fn spec_adjusted_dropped(&self, stream: &KeyingStream) -> usize {
        if stream.spec_is_overrun(self.spec_read_idx()) {
            if self.spec_dropped() + stream.spec_lag(self.spec_read_idx()) <= usize::MAX {
                (self.spec_dropped() + stream.spec_lag(self.spec_read_idx())) as usize
            } else {
                usize::MAX
            }
        } else {
            self.spec_dropped()
        }
    }

    /// Create a best-effort consumer attached at the stream's current write
    /// position, with the default resync headroom of half the capacity.
    pub fn new(stream: &KeyingStream) -> (r: Self)
        ensures
            r.spec_read_idx() == stream.spec_write_position(),
            r.spec_dropped() == 0,
            r.spec_resync_headroom() == stream.spec_capacity() / 2,
    {
        BestEffortConsumer {
            read_idx: stream.write_position(),
            dropped: 0,
            resync_headroom: stream.capacity() / 2,
        }
    }

    /// The configured resync headroom.
    pub fn resync_headroom(&self) -> (r: usize)
        ensures
            r == self.spec_resync_headroom(),
    {
        self.resync_headroom
    }

    /// Change the resync headroom: how far behind the producer the cursor
    /// lands after an overrun skip (clamped to the capacity when applied).
    pub fn set_resync_headroom(&mut self, samples: usize)
        ensures
            final(self).spec_resync_headroom() == samples,
            final(self).spec_read_idx() == old(self).spec_read_idx(),
            final(self).spec_dropped() == old(self).spec_dropped(),
    {
        self.resync_headroom = samples;
    }

    /// If the cursor is overrun, abandon the backlog: move to the resync
    /// headroom behind the producer and count the skipped samples.
    fn catch_up(&mut self, stream: &KeyingStream)
        requires
            stream.wf(),
        ensures
            final(self).spec_read_idx() == old(self).spec_adjusted(stream),
            final(self).spec_dropped() == old(self).spec_adjusted_dropped(stream),
            final(self).spec_resync_headroom() == old(self).spec_resync_headroom(),
            stream.spec_lag(final(self).spec_read_idx()) <= stream.spec_capacity(),
    {
        if stream.is_overrun(self.read_idx) {
            let w = stream.write_position();
            let skipped = w - self.read_idx;
            let cap = stream.capacity();
            let headroom = if self.resync_headroom <= cap {
                self.resync_headroom
            } else {
                cap
            };
            self.read_idx = w - headroom;
            self.dropped = if self.dropped <= usize::MAX - skipped {
                self.dropped + skipped
            } else {
                usize::MAX
            };
        }
    }

    /// Read the next sample if one is available, skipping forward first if
    /// the consumer has fallen too far behind.  Never an error: `None` only
    /// means the consumer has caught up.  The dropped counter never
    /// decreases.
    pub fn tick(&mut self, stream: &KeyingStream) -> (r: Option<StreamSample>)
        requires
            stream.wf(),
        ensures
            final(self).spec_dropped() >= old(self).spec_dropped(),
            final(self).spec_dropped() == old(self).spec_adjusted_dropped(stream),
            final(self).spec_resync_headroom() == old(self).spec_resync_headroom(),
            r == stream.spec_read(old(self).spec_adjusted(stream)),
            r is Some ==> final(self).spec_read_idx() == old(self).spec_adjusted(stream) + 1,
            r is None ==> final(self).spec_read_idx() == old(self).spec_adjusted(stream),
    {
        self.catch_up(stream);
        match stream.read(self.read_idx) {
            Some(sample) => {
                self.read_idx = self.read_idx + 1;
                Some(sample)
            },
            None => None,
        }
    }

    /// Drain every currently available sample, in order.
    ///
    /// Equivalent to calling [`BestEffortConsumer::tick`] until it returns
    /// `None`: one catch-up skip if the consumer was overrun, then the
    /// whole live backlog.  Afterwards the consumer has caught up with the
    /// producer, unless its cursor was already past the producer.
    pub fn drain(&mut self, stream: &KeyingStream) -> (r: Vec<StreamSample>)
        requires
            stream.wf(),
        ensures
            final(self).spec_dropped() == old(self).spec_adjusted_dropped(stream),
            final(self).spec_resync_headroom() == old(self).spec_resync_headroom(),
            ({
                let start = old(self).spec_adjusted(stream);
                if start <= stream.spec_write_position() {
                    &&& r@ == stream.timeline().subrange(
                        start as int,
                        stream.spec_write_position() as int,
                    )
                    &&& final(self).spec_read_idx() == stream.spec_write_position()
                } else {
                    &&& r@ == Seq::<StreamSample>::empty()
                    &&& final(self).spec_read_idx() == start
                }
            }),
    {
        self.catch_up(stream);
        let ghost start = self.read_idx;
        let w = stream.write_position();
        let mut out: Vec<StreamSample> = Vec::new();
        if self.read_idx > w {
            proof {
                assert(out@ =~= Seq::<StreamSample>::empty());
            }
            return out;
        }
        while self.read_idx < w
            invariant
                stream.wf(),
                start <= self.read_idx <= w,
                w == stream.spec_write_position(),
                stream.spec_write_position() - self.read_idx <= stream.spec_capacity(),
                out@ == stream.timeline().subrange(start as int, self.read_idx as int),
                self.dropped == old(self).spec_adjusted_dropped(stream),
                self.resync_headroom == old(self).spec_resync_headroom(),
            decreases w - self.read_idx,
        {
            match stream.read(self.read_idx) {
                Some(sample) => {
                    out.push(sample);
                    self.read_idx = self.read_idx + 1;
                    proof {
                        assert(out@ =~= stream.timeline().subrange(
                            start as int,
                            self.read_idx as int,
                        ));
                    }
                },
                None => {
                    proof {
                        assert(false);
                    }
                },
            }
        }
        out
    }

    /// How many samples this consumer has skipped because it fell behind.
    pub fn dropped(&self) -> (r: usize)
        ensures
            r == self.spec_dropped(),
    {
        self.dropped
    }

    /// The consumer's current backlog.
    pub fn lag(&self, stream: &KeyingStream) -> (r: usize)
        ensures
            r == stream.spec_lag(self.spec_read_idx()),
    {
        stream.lag(self.read_idx)
    }

    /// The cursor's logical read position.
    pub fn read_idx(&self) -> (r: usize)
        ensures
            r == self.spec_read_idx(),
    {
        self.read_idx
    }

    /// Reset the dropped counter (after reporting it).
    pub fn reset_dropped(&mut self)
        ensures
            final(self).spec_dropped() == 0,
            final(self).spec_read_idx() == old(self).spec_read_idx(),
            final(self).spec_resync_headroom() == old(self).spec_resync_headroom(),
    {
        self.dropped = 0;
    }
}

} // verus!
