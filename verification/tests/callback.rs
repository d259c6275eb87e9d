//! The real-time fill path: reading under the advancing cursor,
//! silence past the end of the data, and the per-format output.

use audio_playback::AudioStreamManager;
use audio_playback::BufferSizeRange;
use audio_playback::DecodedAudio;
use audio_playback::OutputDeviceConfig;
use audio_playback::SAMPLE_UNIT;
use audio_playback::SampleBuffer;
use audio_playback::SampleFormat;
use audio_playback::fill_buffer;
use audio_playback::fill_buffer_raw;

fn engine_with(samples: Vec<i32>) -> AudioStreamManager {
    let decoded = DecodedAudio { samples, sample_rate: 44100, channels: 2 };
    let config = OutputDeviceConfig {
        channels: 2,
        sample_format: Some(SampleFormat::I16),
        buffer_size: BufferSizeRange::Unknown,
    };
    AudioStreamManager::from_decoded(Some(decoded), Some(config)).unwrap()
}

#[test]
fn fill_reads_samples_then_silence() {
    let mut buf = SampleBuffer::new(vec![SAMPLE_UNIT, 0, -SAMPLE_UNIT]);
    let out: Vec<i16> = fill_buffer(&mut buf, 5);
    assert_eq!(out, vec![i16::MAX, 0, -i16::MAX, 0, 0]);
    assert_eq!(buf.current(), 3);
}

#[test]
fn fill_raw_hands_samples_through_unquantized() {
    let mut buf = SampleBuffer::new(vec![5, -9]);
    let out = fill_buffer_raw(&mut buf, 4);
    assert_eq!(out, vec![5, -9, 0, 0]);
    assert_eq!(buf.current(), 2);
}

#[test]
fn consecutive_fills_continue_where_the_last_stopped() {
    let mut buf = SampleBuffer::new(vec![1, 2, 3, 4, 5]);
    assert_eq!(fill_buffer_raw(&mut buf, 2), vec![1, 2]);
    assert_eq!(fill_buffer_raw(&mut buf, 2), vec![3, 4]);
    assert_eq!(fill_buffer_raw(&mut buf, 2), vec![5, 0]);
    assert_eq!(buf.current(), 5);
}

#[test]
fn fills_at_end_of_data_produce_silence_and_hold_position() {
    // Cursor at the very end: every further fill yields the silence
    // value of each format and never moves the cursor.
    let mut m = engine_with(vec![SAMPLE_UNIT; 6]);
    m.set_time(u64::MAX);
    assert_eq!(m.current_sample_index(), 6);
    for _ in 0..3 {
        let out: Vec<i16> = m.fill(4);
        assert_eq!(out, vec![0, 0, 0, 0]);
        assert_eq!(m.current_sample_index(), 6);
    }
    let unsigned: Vec<u8> = m.fill(2);
    assert_eq!(unsigned, vec![0, 0]);
    let wide: Vec<i64> = m.fill(2);
    assert_eq!(wide, vec![0, 0]);
    let raw = m.fill_raw(2);
    assert_eq!(raw, vec![0, 0]);
    assert_eq!(m.current_sample_index(), 6);
}

#[test]
fn engine_fill_quantizes_to_the_wire_format() {
    let mut m = engine_with(vec![SAMPLE_UNIT, SAMPLE_UNIT / 2, 0, -SAMPLE_UNIT]);
    let out: Vec<i16> = m.fill(4);
    assert_eq!(out, vec![i16::MAX, 16383, 0, -i16::MAX]);
    assert_eq!(m.current_sample_index(), 4);
}

#[test]
fn a_seek_rewinds_what_the_callback_reads() {
    let mut m = engine_with(vec![10, 20, 30, 40]);
    assert_eq!(m.fill_raw(3), vec![10, 20, 30]);
    m.set_time(0);
    assert_eq!(m.fill_raw(3), vec![10, 20, 30]);
}

#[test]
fn empty_buffer_streams_silence_from_the_start() {
    let mut buf = SampleBuffer::new(Vec::new());
    let out: Vec<i16> = fill_buffer(&mut buf, 3);
    assert_eq!(out, vec![0, 0, 0]);
    assert_eq!(buf.current(), 0);
}

#[test]
fn buffer_seek_clamps_to_length() {
    let mut buf = SampleBuffer::new(vec![1, 2, 3]);
    buf.seek(2);
    assert_eq!(buf.current(), 2);
    buf.seek(17);
    assert_eq!(buf.current(), 3);
    assert_eq!(buf.len(), 3);
}
