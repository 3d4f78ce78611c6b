//! Plain configuration records for the hardware layer.
//!
//! The drivers themselves (GPIO, I2S, I2C) are outside the library; these
//! records are the values the composition root hands them.

use vstd::prelude::*;

verus! {

/// Paddle pin configuration.
pub struct PaddleConfig {
    pub dit_pin: i32,
    pub dah_pin: i32,
    pub straight_key_pin: Option<i32>,
    pub active_low: bool,
}

/// TX output configuration.
pub struct TxConfig {
    pub pin: i32,
    pub active_high: bool,
}

/// Audio output configuration.
pub struct AudioConfig {
    /// Output sample rate in Hz.
    pub sample_rate: u32,
    /// Sidetone frequency in Hz.
    pub sidetone_freq: u32,
    /// Output volume (0 to 100).
    pub volume: u8,
}

impl Default for AudioConfig {
    /// 8 kHz output, 700 Hz sidetone, volume 80.
    fn default() -> (r: Self)
        ensures
            r == (AudioConfig { sample_rate: 8000, sidetone_freq: 700, volume: 80 }),
    {
        AudioConfig { sample_rate: 8000, sidetone_freq: 700, volume: 80 }
    }
}

} // verus!
