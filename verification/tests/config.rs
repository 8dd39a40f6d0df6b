use audio_spectrum::config::decimal;
use audio_spectrum::config::CaptureConfig;
use audio_spectrum::config::ConfigError;

fn config(width: usize, capacity: usize, frame: usize, rate: u32) -> Result<CaptureConfig, ConfigError> {
    CaptureConfig::new(String::from("default"), width, capacity, frame, rate)
}

#[test]
fn valid_settings_are_kept() {
    let made = config(2, 4096, 2048, 44100).ok().unwrap();
    assert_eq!(made.source(), "default");
    assert_eq!(made.sample_width(), 2);
    assert_eq!(made.capacity(), 4096);
    assert_eq!(made.frame_samples(), 2048);
    assert_eq!(made.sample_rate(), 44100);
    assert_eq!(made.frame_bytes(), 4096);
}

#[test]
fn unsupported_width_is_refused() {
    assert_eq!(config(0, 4096, 2048, 44100).err(), Some(ConfigError::UnsupportedWidth));
    assert_eq!(config(5, 4096, 2048, 44100).err(), Some(ConfigError::UnsupportedWidth));
    assert_eq!(config(5, 3, 0, 0).err(), Some(ConfigError::UnsupportedWidth));
}

#[test]
fn invalid_capacity_is_refused() {
    assert_eq!(config(2, 0, 2048, 44100).err(), Some(ConfigError::InvalidCapacity));
    assert_eq!(config(2, 4000, 2048, 44100).err(), Some(ConfigError::InvalidCapacity));
    assert_eq!(config(2, usize::MAX, 0, 0).err(), Some(ConfigError::InvalidCapacity));
}

#[test]
fn invalid_frame_is_refused() {
    assert_eq!(config(2, 4096, 0, 44100).err(), Some(ConfigError::InvalidFrame));
    assert_eq!(config(2, 4096, usize::MAX, 44100).err(), Some(ConfigError::InvalidFrame));
    assert_eq!(
        config(4, 4096, (isize::MAX as usize) / 4 + 1, 0).err(),
        Some(ConfigError::InvalidFrame)
    );
    assert!(config(4, 4096, (isize::MAX as usize) / 4, 44100).is_ok());
}

#[test]
fn zero_rate_is_refused() {
    assert_eq!(config(2, 4096, 2048, 0).err(), Some(ConfigError::InvalidRate));
}

#[test]
fn frame_bytes_is_samples_times_width() {
    assert_eq!(config(1, 8, 100, 8000).ok().unwrap().frame_bytes(), 100);
    assert_eq!(config(3, 8, 100, 8000).ok().unwrap().frame_bytes(), 300);
    assert_eq!(config(4, 8, 1, 8000).ok().unwrap().frame_bytes(), 4);
}

#[test]
fn decoder_arguments_ask_for_raw_little_endian_samples() {
    let made = config(2, 4096, 2048, 44100).ok().unwrap();
    assert_eq!(
        made.decoder_arguments(),
        vec![
            "-f", "alsa", "-i", "default", "-f", "s16le", "-ar", "44100", "-ac", "1", "-v",
            "quiet", "pipe:1"
        ]
    );
}

#[test]
fn decoder_arguments_follow_the_settings() {
    let made = CaptureConfig::new(String::from("hw:1,0"), 4, 1024, 256, 48000).ok().unwrap();
    let arguments = made.decoder_arguments();
    assert_eq!(arguments[3], "hw:1,0");
    assert_eq!(arguments[5], "s32le");
    assert_eq!(arguments[7], "48000");
    let narrow = CaptureConfig::new(String::from("default"), 1, 1024, 256, 8000).ok().unwrap();
    assert_eq!(narrow.decoder_arguments()[5], "s8");
    let odd = CaptureConfig::new(String::from("default"), 3, 1024, 256, 96000).ok().unwrap();
    assert_eq!(odd.decoder_arguments()[5], "s24le");
}

#[test]
fn decimal_writes_numbers_as_std_does() {
    for n in [0u32, 1, 9, 10, 11, 99, 100, 101, 44100, 48000, 1_000_000, u32::MAX] {
        assert_eq!(decimal(n), n.to_string());
    }
    assert_eq!(decimal(44100), "44100");
    assert_eq!(decimal(7), "7");
    assert_eq!(decimal(4_294_967_295), "4294967295");
}
