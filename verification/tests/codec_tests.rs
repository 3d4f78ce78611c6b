//! Tests for the codec state model and the hardware configuration records.

use cw_keyer::es8311::{Es8311, Es8311Config, ES8311_ADDR};
use cw_keyer::hal::AudioConfig;

#[test]
fn test_es8311_defaults_and_init() {
    let config = Es8311Config::default();
    assert_eq!(config.sample_rate, 8000);
    assert_eq!(config.volume, 70);

    let mut codec = Es8311::new(config);
    assert_eq!(codec.volume(), 70);
    assert!(!codec.is_muted());
    assert!(codec.init().is_ok());
}

#[test]
fn test_es8311_volume_clamped() {
    let mut codec = Es8311::new(Es8311Config::default());
    assert!(codec.set_volume(55).is_ok());
    assert_eq!(codec.volume(), 55);
    assert!(codec.set_volume(250).is_ok());
    assert_eq!(codec.volume(), 100);
}

#[test]
fn test_es8311_mute() {
    let mut codec = Es8311::new(Es8311Config::default());
    assert!(codec.mute(true).is_ok());
    assert!(codec.is_muted());
    assert!(codec.mute(false).is_ok());
    assert!(!codec.is_muted());
    assert_eq!(ES8311_ADDR, 0x18);
}

#[test]
fn test_audio_config_default() {
    let config = AudioConfig::default();
    assert_eq!(config.sample_rate, 8000);
    assert_eq!(config.sidetone_freq, 700);
    assert_eq!(config.volume, 80);
}
