//! Fault state for the keying core.
//!
//! The guiding rule is that corrupted CW timing is worse than silence: a
//! consumer that can no longer guarantee its timing records a fault here and
//! stops, and a supervisor clears the fault once the cause is fixed.  The
//! cumulative fault count survives every [`FaultState::clear`], so the audit
//! trail is never lost across fault/clear cycles.

use vstd::prelude::*;

verus! {

/// Why the keyer stopped.  A closed set: nothing else is ever reported.
#[derive(Clone, Copy, Debug, PartialEq, Eq, Structural)]
pub enum FaultCode {
    /// No fault (normal operation).
    NoFault,
    /// Stream overrun: a consumer fell so far behind that the samples it
    /// needed were already overwritten.
    Overrun,
    /// Latency exceeded: a consumer is behind by more than its budget,
    /// though its data is still present.
    LatencyExceeded,
    /// Producer overrun: reserved for producer-side backpressure; does not
    /// occur with correct sizing.
    ProducerOverrun,
    /// Hardware fault: reserved for peripheral-level errors surfaced
    /// through the same channel.
    HardwareFault,
}

impl FaultCode {
    /// The code a raw byte denotes; unknown values fall back to `NoFault`.
    pub open spec fn spec_from_u8(value: u8) -> FaultCode {
        if value == 1 {
            FaultCode::Overrun
        } else if value == 2 {
            FaultCode::LatencyExceeded
        } else if value == 3 {
            FaultCode::ProducerOverrun
        } else if value == 4 {
            FaultCode::HardwareFault
        } else {
            FaultCode::NoFault
        }
    }

    /// Convert from a raw byte value.
    pub fn from_u8(value: u8) -> (r: Self)
        ensures
            r == Self::spec_from_u8(value),
    {
        match value {
            1 => FaultCode::Overrun,
            2 => FaultCode::LatencyExceeded,
            3 => FaultCode::ProducerOverrun,
            4 => FaultCode::HardwareFault,
            _ => FaultCode::NoFault,
        }
    }
}

/// Process-wide fault record.
///
/// Set by any consumer that detects a timing violation, read and cleared by
/// a supervisory loop.  `code` and `data` are meaningful only while the
/// fault is active; they stay readable (stale) after a clear until the next
/// set.  The cumulative count is incremented by every set and reset by
/// nothing.
pub struct FaultState {
    active: bool,
    code: FaultCode,
    data: u32,
    count: u32,
}

impl FaultState {
    /// Whether a fault is currently active.
    pub closed spec fn spec_active(&self) -> bool {
        self.active
    }

    /// The most recently recorded fault code.
    pub closed spec fn spec_code(&self) -> FaultCode {
        self.code
    }

    /// The data recorded with the most recent fault.
    pub closed spec fn spec_data(&self) -> u32 {
        self.data
    }

    /// How many faults have been recorded since construction.
    pub closed spec fn spec_count(&self) -> u32 {
        self.count
    }

    /// Create a new fault state with no fault recorded.
    pub fn new() -> (r: Self)
        ensures
            !r.spec_active(),
            r.spec_code() == FaultCode::NoFault,
            r.spec_data() == 0,
            r.spec_count() == 0,
    {
        FaultState { active: false, code: FaultCode::NoFault, data: 0, count: 0 }
    }

    /// Record a fault: mark active, overwrite code and data, and increment
    /// the cumulative count by exactly one (wrapping at the type bound).
    pub fn set(&mut self, code: FaultCode, data: u32)
        ensures
            final(self).spec_active(),
            final(self).spec_code() == code,
            final(self).spec_data() == data,
            final(self).spec_count() == if old(self).spec_count() == u32::MAX {
                0u32
            } else {
                (old(self).spec_count() + 1) as u32
            },
    {
        self.code = code;
        self.data = data;
        self.count = if self.count == u32::MAX {
            0
        } else {
            self.count + 1
        };
        self.active = true;
    }

    /// Check whether a fault is currently active.
    pub fn is_active(&self) -> (r: bool)
        ensures
            r == self.spec_active(),
    {
        self.active
    }

    /// The recorded fault code (meaningful only while active).
    pub fn code(&self) -> (r: FaultCode)
        ensures
            r == self.spec_code(),
    {
        self.code
    }

    /// The recorded fault data (meaning depends on the fault code).
    pub fn data(&self) -> (r: u32)
        ensures
            r == self.spec_data(),
    {
        self.data
    }

    /// The cumulative fault count since construction.
    pub fn count(&self) -> (r: u32)
        ensures
            r == self.spec_count(),
    {
        self.count
    }

    /// Clear the active flag after recovery.  Code, data and the cumulative
    /// count are left exactly as they were: the history is preserved.
    pub fn clear(&mut self)
        ensures
            !final(self).spec_active(),
            final(self).spec_code() == old(self).spec_code(),
            final(self).spec_data() == old(self).spec_data(),
            final(self).spec_count() == old(self).spec_count(),
    {
        self.active = false;
    }

    /// A copy of the whole fault record at this instant.
    pub fn snapshot(&self) -> (r: FaultSnapshot)
        ensures
            r == (FaultSnapshot {
                active: self.spec_active(),
                code: self.spec_code(),
                data: self.spec_data(),
                count: self.spec_count(),
            }),
    {
        FaultSnapshot { active: self.active, code: self.code, data: self.data, count: self.count }
    }
}

impl Default for FaultState {
    /// Same as [`FaultState::new`]: no fault recorded.
    fn default() -> (r: Self)
        ensures
            !r.spec_active(),
            r.spec_code() == FaultCode::NoFault,
            r.spec_data() == 0,
            r.spec_count() == 0,
    {
        FaultState::new()
    }
}

/// Snapshot of the fault state at a point in time, for diagnostics.
#[derive(Clone, Copy, Debug, PartialEq, Eq, Structural)]
pub struct FaultSnapshot {
    pub active: bool,
    pub code: FaultCode,
    pub data: u32,
    pub count: u32,
}

} // verus!
