//! Engine construction and transport control on concrete scenarios.

use audio_playback::AudioError;
use audio_playback::AudioStreamManager;
use audio_playback::BufferSizePolicy;
use audio_playback::BufferSizeRange;
use audio_playback::DecodedAudio;
use audio_playback::OutputDeviceConfig;
use audio_playback::SampleFormat;

fn device(channels: u16) -> OutputDeviceConfig {
    OutputDeviceConfig {
        channels,
        sample_format: Some(SampleFormat::I16),
        buffer_size: BufferSizeRange::Unknown,
    }
}

fn engine(
    samples: Vec<i32>,
    sample_rate: u32,
    file_channels: usize,
    device_channels: u16,
) -> AudioStreamManager {
    let decoded = DecodedAudio { samples, sample_rate, channels: file_channels };
    AudioStreamManager::from_decoded(Some(decoded), Some(device(device_channels))).unwrap()
}

#[test]
fn mono_file_on_stereo_device_doubles_sample_count() {
    // One second of mono at 44100 Hz: each sample duplicated into two
    // interleaved channel slots.
    let samples: Vec<i32> = vec![7; 44100];
    let m = engine(samples, 44100, 1, 2);
    assert_eq!(m.sample_count(), 88200);
}

#[test]
fn stereo_file_on_stereo_device_is_unchanged() {
    let samples: Vec<i32> = vec![1, 2, 3, 4, 5, 6];
    let m = engine(samples, 44100, 2, 2);
    assert_eq!(m.sample_count(), 6);
}

#[test]
fn stereo_file_on_mono_device_halves_and_averages() {
    let samples: Vec<i32> = vec![2, 4, 10, 20];
    let mut m = engine(samples, 44100, 2, 1);
    assert_eq!(m.sample_count(), 2);
    assert_eq!(m.fill_raw(2), vec![3, 15]);
}

#[test]
fn three_channel_file_is_rejected() {
    let decoded = DecodedAudio { samples: vec![0; 9], sample_rate: 44100, channels: 3 };
    let r = AudioStreamManager::from_decoded(Some(decoded), Some(device(2)));
    assert!(matches!(r, Err(AudioError::ConversionError)));
}

#[test]
fn missing_decode_is_file_error() {
    let r = AudioStreamManager::from_decoded(None, Some(device(2)));
    assert!(matches!(r, Err(AudioError::FileError)));
}

#[test]
fn zero_sample_rate_is_file_error() {
    let decoded = DecodedAudio { samples: vec![0; 4], sample_rate: 0, channels: 2 };
    let r = AudioStreamManager::from_decoded(Some(decoded), Some(device(2)));
    assert!(matches!(r, Err(AudioError::FileError)));
}

#[test]
fn missing_device_is_device_error() {
    let decoded = DecodedAudio { samples: vec![0; 4], sample_rate: 44100, channels: 2 };
    let r = AudioStreamManager::from_decoded(Some(decoded), None);
    assert!(matches!(r, Err(AudioError::DeviceError)));
}

#[test]
fn unsupported_wire_format_is_stream_error() {
    let decoded = DecodedAudio { samples: vec![0; 4], sample_rate: 44100, channels: 2 };
    let config = OutputDeviceConfig {
        channels: 2,
        sample_format: None,
        buffer_size: BufferSizeRange::Unknown,
    };
    let r = AudioStreamManager::from_decoded(Some(decoded), Some(config));
    assert!(matches!(r, Err(AudioError::StreamError)));
}

#[test]
fn error_messages_name_the_variant() {
    assert_eq!(AudioError::FileError.message(), "FileError");
    assert_eq!(AudioError::DeviceError.message(), "DeviceError");
    assert_eq!(AudioError::StreamError.message(), "StreamError");
    assert_eq!(AudioError::ConversionError.message(), "ConversionError");
}

#[test]
fn negotiated_parameters_come_from_file_and_device() {
    let decoded = DecodedAudio { samples: vec![0; 4], sample_rate: 48000, channels: 2 };
    let config = OutputDeviceConfig {
        channels: 2,
        sample_format: Some(SampleFormat::F32),
        buffer_size: BufferSizeRange::Bounded { min: 64, max: 4096 },
    };
    let m = AudioStreamManager::from_decoded(Some(decoded), Some(config)).unwrap();
    assert_eq!(m.sample_rate(), 48000);
    assert_eq!(m.channels(), 2);
    assert_eq!(m.sample_format(), SampleFormat::F32);
    assert_eq!(m.buffer_size(), BufferSizePolicy::Fixed(4096));
}

#[test]
fn unbounded_device_sizing_falls_back_to_default() {
    let m = engine(vec![0; 4], 44100, 2, 2);
    assert_eq!(m.buffer_size(), BufferSizePolicy::DeviceDefault);
}

#[test]
fn engine_starts_paused_and_transport_toggles() {
    let mut m = engine(vec![0; 8], 44100, 2, 2);
    assert!(!m.is_playing());
    m.play();
    assert!(m.is_playing());
    m.pause();
    assert!(!m.is_playing());
}

#[test]
fn pause_leaves_position_untouched() {
    let mut m = engine(vec![1, 2, 3, 4], 44100, 2, 2);
    m.play();
    let _: Vec<i16> = m.fill(3);
    m.pause();
    assert_eq!(m.current_sample_index(), 3);
    m.play();
    assert_eq!(m.current_sample_index(), 3);
}

#[test]
fn seek_sets_rounded_sample_index_and_reports_it() {
    // Three seconds of samples at 44100 Hz; a seek to 2.5 s lands on
    // sample 110250 and reads back as 2500 ms.
    let mut m = engine(vec![0; 132300], 44100, 1, 1);
    m.set_time(2500);
    assert_eq!(m.current_sample_index(), 110250);
    assert_eq!(m.get_time(), 2500);
}

#[test]
fn skip_back_lands_on_earlier_time() {
    let mut m = engine(vec![0; 132300], 44100, 1, 1);
    m.set_time(2500);
    m.skip_time(-1000);
    assert_eq!(m.current_sample_index(), 66150);
    assert_eq!(m.get_time(), 1500);
}

#[test]
fn seeking_twice_yields_the_same_position() {
    let mut m = engine(vec![0; 132300], 44100, 1, 1);
    m.set_time(1234);
    let first = m.current_sample_index();
    m.set_time(1234);
    assert_eq!(m.current_sample_index(), first);
    assert_eq!(first, 54419);
}

#[test]
fn seek_past_end_clamps_to_buffer_length() {
    let mut m = engine(vec![0; 100], 44100, 1, 1);
    m.set_time(60_000);
    assert_eq!(m.current_sample_index(), 100);
}

#[test]
fn skip_before_start_stops_at_time_zero() {
    let mut m = engine(vec![0; 132300], 44100, 1, 1);
    m.set_time(1000);
    m.skip_time(-5000);
    assert_eq!(m.current_sample_index(), 0);
    assert_eq!(m.get_time(), 0);
}

#[test]
fn index_and_time_conversions_round_half_up() {
    let m = engine(vec![0; 100], 44100, 1, 1);
    assert_eq!(m.get_sample_index_from_time(2500), 110250);
    assert_eq!(m.get_sample_index_from_time(1), 44);
    assert_eq!(m.get_time_from_sample_index(110250), 2500);
    assert_eq!(m.get_time_from_sample_index(22050), 500);
}

#[test]
fn time_round_trip_stays_within_rounding_error() {
    let m = engine(vec![0; 100], 44100, 1, 1);
    // 44100 Hz allows at most (44100 + 1000) / 2000 samples of drift.
    for p in [0usize, 1, 44, 22050, 110250, 110260, 999_999] {
        let t = m.get_time_from_sample_index(p);
        let back = m.get_sample_index_from_time(t);
        let drift = if back > p { back - p } else { p - back };
        assert!(2000 * drift <= 44100 + 1000);
    }
}
