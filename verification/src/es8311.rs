//! Volume and mute model of the ES8311 audio codec.
//!
//! This is the device-independent part of the codec driver: the volume and
//! mute state the rest of the system reads and sets.  The I2C register
//! programming that realises this state on the chip lives outside the
//! library, beside the bus driver.

use vstd::prelude::*;

verus! {

/// ES8311 I2C address (AD0 pin low).
pub const ES8311_ADDR: u8 = 0x18;

/// ES8311 configuration.
#[derive(Clone, Copy, Debug)]
pub struct Es8311Config {
    /// Sample rate in Hz.
    pub sample_rate: u32,
    /// Initial DAC volume (0 to 100).
    pub volume: u8,
}

impl Default for Es8311Config {
    /// 8 kHz at volume 70.
    fn default() -> (r: Self)
        ensures
            r == (Es8311Config { sample_rate: 8000, volume: 70 }),
    {
        Es8311Config { sample_rate: 8000, volume: 70 }
    }
}

/// ES8311 driver error.
#[derive(Clone, Copy, Debug, PartialEq, Eq, Structural)]
pub enum Es8311Error {
    /// I2C communication error.
    I2cError,
    /// Invalid configuration.
    InvalidConfig,
    /// Chip not responding or wrong ID.
    ChipNotFound,
}

/// Codec state: the configuration it was built with, the current volume
/// and the mute flag.
pub struct Es8311 {
    config: Es8311Config,
    volume: u8,
    muted: bool,
}

impl Es8311 {
    /// The configuration the driver was created with.
    pub closed spec fn spec_config(&self) -> Es8311Config {
        self.config
    }

    /// The current DAC volume (0 to 100).
    pub closed spec fn spec_volume(&self) -> u8 {
        self.volume
    }

    /// Whether the DAC output is muted.
    pub closed spec fn spec_muted(&self) -> bool {
        self.muted
    }

    /// Create a new driver state; the volume starts at the configured
    /// value, unmuted.
    pub fn new(config: Es8311Config) -> (r: Self)
        ensures
            r.spec_volume() == config.volume,
            !r.spec_muted(),
            r.spec_config() == config,
    {
        let volume = config.volume;
        Es8311 { config, volume, muted: false }
    }

    /// Initialise the codec state.  Register programming happens outside
    /// the library; the state itself needs no work.
    pub fn init(&mut self) -> (r: Result<(), Es8311Error>)
        ensures
            r == Ok::<(), Es8311Error>(()),
            *final(self) == *old(self),
    {
        Ok(())
    }

    /// Set the DAC volume, clamped to 100.
    pub fn set_volume(&mut self, volume: u8) -> (r: Result<(), Es8311Error>)
        ensures
            r == Ok::<(), Es8311Error>(()),
            final(self).spec_volume() == if volume <= 100 {
                volume
            } else {
                100u8
            },
            final(self).spec_muted() == old(self).spec_muted(),
            final(self).spec_config() == old(self).spec_config(),
    {
        self.volume = if volume <= 100 {
            volume
        } else {
            100
        };
        Ok(())
    }

    /// Mute or unmute the DAC output.
    pub fn mute(&mut self, mute: bool) -> (r: Result<(), Es8311Error>)
        ensures
            r == Ok::<(), Es8311Error>(()),
            final(self).spec_muted() == mute,
            final(self).spec_volume() == old(self).spec_volume(),
            final(self).spec_config() == old(self).spec_config(),
    {
        self.muted = mute;
        Ok(())
    }

    /// The current volume.
    pub fn volume(&self) -> (r: u8)
        ensures
            r == self.spec_volume(),
    {
        self.volume
    }

    /// Whether the output is muted.
    pub fn is_muted(&self) -> (r: bool)
        ensures
            r == self.spec_muted(),
    {
        self.muted
    }
}

} // verus!
