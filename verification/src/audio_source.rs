//! Audio source selection: silence, local sidetone, or remote audio.

use vstd::prelude::*;

verus! {

/// Which audio the output stage plays.
#[derive(Clone, Copy, Debug, PartialEq, Eq, Structural)]
pub enum AudioSource {
    /// No audio output.
    Silence,
    /// Local sidetone (keyer).
    Sidetone,
    /// Remote audio (received from the network).
    Remote,
}

impl AudioSource {
    /// The source a raw byte denotes; unknown values fall back to silence.
    pub open spec fn spec_from_u8(v: u8) -> AudioSource {
        if v == 1 {
            AudioSource::Sidetone
        } else if v == 2 {
            AudioSource::Remote
        } else {
            AudioSource::Silence
        }
    }

    /// Convert from a raw byte.
    pub fn from_u8(v: u8) -> (r: Self)
        ensures
            r == Self::spec_from_u8(v),
    {
        match v {
            1 => AudioSource::Sidetone,
            2 => AudioSource::Remote,
            _ => AudioSource::Silence,
        }
    }
}

/// Holder of the active audio source.
pub struct AudioSourceSelector {
    source: AudioSource,
}

impl AudioSourceSelector {
    /// The active source.
    pub closed spec fn spec_source(&self) -> AudioSource {
        self.source
    }

    /// Create a selector that starts at silence.
    pub fn new() -> (r: Self)
        ensures
            r.spec_source() == AudioSource::Silence,
    {
        AudioSourceSelector { source: AudioSource::Silence }
    }

    /// The active source.
    pub fn get(&self) -> (r: AudioSource)
        ensures
            r == self.spec_source(),
    {
        self.source
    }

    /// Select a source.
    pub fn set(&mut self, source: AudioSource)
        ensures
            final(self).spec_source() == source,
    {
        self.source = source;
    }

    /// Select a source and return the one it replaces.
    pub fn swap(&mut self, source: AudioSource) -> (r: AudioSource)
        ensures
            final(self).spec_source() == source,
            r == old(self).spec_source(),
    {
        let previous = self.source;
        self.source = source;
        previous
    }
}

impl Default for AudioSourceSelector {
    /// Same as [`AudioSourceSelector::new`]: starts at silence.
    fn default() -> (r: Self)
        ensures
            r.spec_source() == AudioSource::Silence,
    {
        AudioSourceSelector::new()
    }
}

} // verus!
