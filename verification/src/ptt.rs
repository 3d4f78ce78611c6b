//! PTT (push-to-talk) state machine.
//!
//! PTT turns on with the first audio sample and turns off once no audio has
//! been reported for the configured tail time, so short gaps inside a
//! transmission do not drop the TX line.

use vstd::prelude::*;

verus! {

/// PTT state.
#[derive(Clone, Copy, Debug, PartialEq, Eq, Structural)]
pub enum PttState {
    /// Not transmitting (RX mode).
    Off,
    /// Transmitting (TX mode).
    On,
}

/// PTT controller: tracks audio activity and applies the tail timeout.
pub struct PttController {
    state: PttState,
    tail_us: u64,
    last_audio_us: u64,
    audio_active: bool,
}

impl PttController {
    /// Current PTT state.
    pub closed spec fn spec_state(&self) -> PttState {
        self.state
    }

    /// Tail timeout in microseconds.
    pub closed spec fn spec_tail_us(&self) -> u64 {
        self.tail_us
    }

    /// Timestamp of the last reported audio sample.
    pub closed spec fn spec_last_audio_us(&self) -> u64 {
        self.last_audio_us
    }

    /// Whether audio has been reported since PTT last turned off.
    pub closed spec fn spec_audio_active(&self) -> bool {
        self.audio_active
    }

    /// Whether a tick at `timestamp_us` switches PTT off: it is on, audio
    /// has been seen, and the tail has elapsed since the last audio.
    pub open spec fn spec_tail_expired(&self, timestamp_us: u64) -> bool {
        &&& self.spec_state() == PttState::On
        &&& self.spec_audio_active()
        &&& (if timestamp_us >= self.spec_last_audio_us() {
            timestamp_us - self.spec_last_audio_us()
        } else {
            0
        }) >= self.spec_tail_us()
    }

    /// Create a controller in the off state with the given tail, in
    /// milliseconds.
    pub fn new(tail_ms: u32) -> (r: Self)
        ensures
            r.spec_state() == PttState::Off,
            r.spec_tail_us() == tail_ms as int * 1000,
            r.spec_last_audio_us() == 0,
            !r.spec_audio_active(),
    {
        PttController {
            state: PttState::Off,
            tail_us: (tail_ms as u64) * 1000,
            last_audio_us: 0,
            audio_active: false,
        }
    }

    /// Current PTT state.
    pub fn state(&self) -> (r: PttState)
        ensures
            r == self.spec_state(),
    {
        self.state
    }

    /// Whether PTT is on.
    pub fn is_on(&self) -> (r: bool)
        ensures
            r == (self.spec_state() == PttState::On),
    {
        match self.state {
            PttState::On => true,
            PttState::Off => false,
        }
    }

    /// Report an audio sample at `timestamp_us`: PTT turns (or stays) on
    /// and the tail timer restarts.
    pub fn audio_sample(&mut self, timestamp_us: u64)
        ensures
            final(self).spec_state() == PttState::On,
            final(self).spec_audio_active(),
            final(self).spec_last_audio_us() == timestamp_us,
            final(self).spec_tail_us() == old(self).spec_tail_us(),
    {
        self.last_audio_us = timestamp_us;
        self.audio_active = true;
        if let PttState::Off = self.state {
            self.state = PttState::On;
        }
    }

    /// Periodic check: switch PTT off exactly when the tail has expired;
    /// otherwise change nothing.
    pub fn tick(&mut self, timestamp_us: u64)
        ensures
            final(self).spec_tail_us() == old(self).spec_tail_us(),
            final(self).spec_last_audio_us() == old(self).spec_last_audio_us(),
            old(self).spec_tail_expired(timestamp_us) ==> final(self).spec_state()
                == PttState::Off && !final(self).spec_audio_active(),
            !old(self).spec_tail_expired(timestamp_us) ==> *final(self) == *old(self),
    {
        let on = match self.state {
            PttState::On => true,
            PttState::Off => false,
        };
        if on && self.audio_active {
            let elapsed = if timestamp_us >= self.last_audio_us {
                timestamp_us - self.last_audio_us
            } else {
                0
            };
            if elapsed >= self.tail_us {
                self.state = PttState::Off;
                self.audio_active = false;
            }
        }
    }

    /// Update the tail timeout, in milliseconds.
    pub fn set_tail_ms(&mut self, tail_ms: u32)
        ensures
            final(self).spec_tail_us() == tail_ms as int * 1000,
            final(self).spec_state() == old(self).spec_state(),
            final(self).spec_last_audio_us() == old(self).spec_last_audio_us(),
            final(self).spec_audio_active() == old(self).spec_audio_active(),
    {
        self.tail_us = (tail_ms as u64) * 1000;
    }

    /// Force PTT off immediately.
    pub fn force_off(&mut self)
        ensures
            final(self).spec_state() == PttState::Off,
            !final(self).spec_audio_active(),
            final(self).spec_tail_us() == old(self).spec_tail_us(),
            final(self).spec_last_audio_us() == old(self).spec_last_audio_us(),
    {
        self.state = PttState::Off;
        self.audio_active = false;
    }

    /// Reset to the initial state, keeping the configured tail.
    pub fn reset(&mut self)
        ensures
            final(self).spec_state() == PttState::Off,
            !final(self).spec_audio_active(),
            final(self).spec_last_audio_us() == 0,
            final(self).spec_tail_us() == old(self).spec_tail_us(),
    {
        self.state = PttState::Off;
        self.last_audio_us = 0;
        self.audio_active = false;
    }
}

} // verus!
