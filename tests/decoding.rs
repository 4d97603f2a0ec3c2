use audio_decoder::flac::scale_sample;
use audio_decoder::timing::duration_of;
use audio_decoder::{Decoder, DecoderError, Format};

fn push_u16(v: &mut Vec<u8>, x: u16) {
    v.extend_from_slice(&x.to_le_bytes());
}

fn push_u32(v: &mut Vec<u8>, x: u32) {
    v.extend_from_slice(&x.to_le_bytes());
}

/// A 16-bit PCM WAV file holding `samples`, interleaved.
fn wav_bytes(channels: u16, rate: u32, samples: &[i16]) -> Vec<u8> {
    let data_len = (samples.len() * 2) as u32;
    let mut v = Vec::new();
    v.extend_from_slice(b"RIFF");
    push_u32(&mut v, 36 + data_len);
    v.extend_from_slice(b"WAVE");
    v.extend_from_slice(b"fmt ");
    push_u32(&mut v, 16);
    push_u16(&mut v, 1);
    push_u16(&mut v, channels);
    push_u32(&mut v, rate);
    push_u32(&mut v, rate * channels as u32 * 2);
    push_u16(&mut v, channels * 2);
    push_u16(&mut v, 16);
    v.extend_from_slice(b"data");
    push_u32(&mut v, data_len);
    for s in samples {
        v.extend_from_slice(&s.to_le_bytes());
    }
    v
}

/// A FLAC stream of a lone STREAMINFO block (16 bits per sample) and no
/// frames; `total` is the sample count it states, 0 meaning unknown.
fn flac_bytes(channels: u8, rate: u32, total: u32) -> Vec<u8> {
    let mut v = Vec::new();
    v.extend_from_slice(b"fLaC");
    v.extend_from_slice(&[0x80, 0x00, 0x00, 34]);
    v.extend_from_slice(&[0x10, 0x00, 0x10, 0x00]);
    v.extend_from_slice(&[0, 0, 0, 0, 0, 0]);
    let bps_minus_one: u8 = 15;
    v.extend_from_slice(&((rate >> 4) as u16).to_be_bytes());
    v.push((((rate & 0xf) as u8) << 4) | ((channels - 1) << 1) | (bps_minus_one >> 4));
    v.push((bps_minus_one & 0xf) << 4);
    v.extend_from_slice(&total.to_be_bytes());
    v.extend_from_slice(&[0u8; 16]);
    v
}

fn drain(d: &mut Decoder) -> Vec<i16> {
    let mut out = Vec::new();
    while let Some(s) = d.next() {
        out.push(s);
    }
    out
}

fn ramp(n: usize) -> Vec<i16> {
    (0..n).map(|i| (i as i16) * 100 - 700).collect()
}

#[test]
fn wav_two_channels_ten_frames() {
    let samples = ramp(20);
    let mut d = Decoder::new(wav_bytes(2, 44100, &samples)).unwrap();
    assert_eq!(d.channels(), 2);
    assert_eq!(d.samples_rate(), 44100);
    let out = drain(&mut d);
    assert_eq!(out.len(), 20);
    assert_eq!(out, samples);
    assert_eq!(d.next(), None);
    assert_eq!(d.next(), None);
}

#[test]
fn wav_metadata_and_hints() {
    let d = Decoder::new(wav_bytes(2, 44100, &ramp(20))).unwrap();
    assert_eq!(d.size_hint(), (20, Some(20)));
    assert_eq!(d.current_frame_len(), None);
    assert_eq!(d.total_duration_parts(), Some((0, 226757)));
    let dur = d.total_duration().unwrap();
    assert_eq!(dur.as_secs(), 0);
    assert_eq!(dur.subsec_nanos(), 226757);
}

#[test]
fn wav_one_second() {
    let d = Decoder::new(wav_bytes(1, 8000, &vec![0i16; 8000])).unwrap();
    assert_eq!(d.total_duration_parts(), Some((1, 0)));
    assert_eq!(d.total_duration(), Some(std::time::Duration::from_secs(1)));
}

#[test]
fn wav_sample_count_is_channels_times_frames() {
    let mut d = Decoder::new(wav_bytes(3, 22050, &ramp(21))).unwrap();
    assert_eq!(d.size_hint(), (21, Some(21)));
    d.next();
    assert_eq!(d.size_hint(), (20, Some(20)));
    let rest = drain(&mut d);
    assert_eq!(rest.len() + 1, 3 * 7);
    assert_eq!(d.size_hint(), (0, Some(0)));
}

#[test]
fn wav_empty_data_chunk() {
    let mut d = Decoder::new(wav_bytes(2, 44100, &[])).unwrap();
    assert_eq!(d.size_hint(), (0, Some(0)));
    assert_eq!(d.next(), None);
}

#[test]
fn empty_input_is_unrecognized() {
    assert!(matches!(Decoder::new(Vec::new()), Err(DecoderError::UnrecognizedFormat)));
}

#[test]
fn truncated_wav_is_unrecognized() {
    let bytes = wav_bytes(2, 44100, &ramp(20));
    assert!(matches!(Decoder::new(bytes[..0].to_vec()), Err(DecoderError::UnrecognizedFormat)));
    assert!(matches!(Decoder::new(bytes[..20].to_vec()), Err(DecoderError::UnrecognizedFormat)));
}

#[test]
fn garbage_is_refused_every_time() {
    let bytes: Vec<u8> = (0..200u32).map(|i| (i * 37 % 251) as u8).collect();
    let first = Decoder::new(bytes.clone()).err();
    let second = Decoder::new(bytes.clone()).err();
    assert_eq!(first, Some(DecoderError::UnrecognizedFormat));
    assert_eq!(first, second);
}

#[test]
fn flac_without_duration() {
    let mut d = Decoder::new(flac_bytes(2, 44100, 0)).unwrap();
    assert_eq!(d.total_duration(), None);
    assert_eq!(d.total_duration_parts(), None);
    assert_eq!(d.channels(), 2);
    assert_eq!(d.samples_rate(), 44100);
    assert_eq!(d.current_frame_len(), Some(0));
    assert_eq!(d.size_hint(), (0, None));
    assert_eq!(d.next(), None);
    assert_eq!(d.next(), None);
}

#[test]
fn flac_with_duration() {
    let d = Decoder::new(flac_bytes(1, 48000, 72000)).unwrap();
    assert_eq!(d.channels(), 1);
    assert_eq!(d.samples_rate(), 48000);
    assert_eq!(d.total_duration_parts(), Some((1, 500_000_000)));
    assert_eq!(d.total_duration(), Some(std::time::Duration::from_millis(1500)));
}

#[test]
fn flac_is_found_after_wav_declines() {
    // The WAV probe runs first and declines; FLAC still recognises the bytes.
    let bytes = flac_bytes(2, 44100, 0);
    let a = Decoder::new(bytes.clone()).unwrap();
    let b = Decoder::new(bytes).unwrap();
    assert_eq!(a.channels(), b.channels());
    assert_eq!(a.samples_rate(), 44100);
}

#[test]
fn same_bytes_same_decoder() {
    let bytes = wav_bytes(2, 32000, &ramp(16));
    let mut a = Decoder::new(bytes.clone()).unwrap();
    let mut b = Decoder::new(bytes.clone()).unwrap();
    assert_eq!(a.channels(), b.channels());
    assert_eq!(a.samples_rate(), b.samples_rate());
    assert_eq!(a.total_duration(), b.total_duration());
    assert_eq!(a.size_hint(), b.size_hint());
    assert_eq!(drain(&mut a), drain(&mut b));
}

#[test]
fn error_description() {
    assert_eq!(DecoderError::UnrecognizedFormat.description(), "Unrecognized format");
}

#[test]
fn format_values_are_distinct() {
    assert_ne!(Format::Wav, Format::Flac);
    assert_ne!(Format::Flac, Format::Vorbis);
}

#[test]
fn scaling_to_sixteen_bits() {
    assert_eq!(scale_sample(1234, 16), 1234);
    assert_eq!(scale_sample(40000, 16), 32767);
    assert_eq!(scale_sample(-40000, 16), -32768);
    assert_eq!(scale_sample(1, 8), 256);
    assert_eq!(scale_sample(-128, 8), -32768);
    assert_eq!(scale_sample(-256, 24), -1);
    assert_eq!(scale_sample(255, 24), 0);
    assert_eq!(scale_sample(-1, 17), -1);
    assert_eq!(scale_sample(8388607, 24), 32767);
    assert_eq!(scale_sample(i32::MIN, 32), -32768);
}

#[test]
fn durations_from_frames() {
    assert_eq!(duration_of(10, 44100), Some((0, 226757)));
    assert_eq!(duration_of(88200, 44100), Some((2, 0)));
    assert_eq!(duration_of(5, 0), None);
    assert_eq!(duration_of(u64::MAX, u32::MAX), Some((u64::MAX / u32::MAX as u64, 0)));
}

#[test]
fn wav_short_data_chunk_ends_early() {
    let mut bytes = wav_bytes(2, 44100, &ramp(20));
    bytes.truncate(44 + 10);
    let mut d = Decoder::new(bytes).unwrap();
    assert_eq!(d.size_hint(), (20, Some(20)));
    let out = drain(&mut d);
    assert_eq!(out, ramp(5));
    assert_eq!(d.next(), None);
    assert_eq!(d.size_hint(), (0, Some(0)));
}
