use outphase::container::container_walk_ok;
use outphase::container::encode_output;
use outphase::container::process;
use outphase::container::read_mono_audio;
use outphase::container::AudioError;
use std::io::Cursor;

/// Serializes a track through the wav crate, as a caller of the library
/// would produce its input files.
fn wav_bytes(channels: u16, rate: u32, bits: u16, track: wav::BitDepth) -> Vec<u8> {
    let header = wav::Header::new(wav::header::WAV_FORMAT_PCM, channels, rate, bits);
    let mut out: Vec<u8> = Vec::new();
    wav::write(header, &track, &mut Cursor::new(&mut out)).unwrap();
    out
}

fn float_wav_bytes(channels: u16, rate: u32, samples: Vec<f32>) -> Vec<u8> {
    let header = wav::Header::new(wav::header::WAV_FORMAT_IEEE_FLOAT, channels, rate, 32);
    let mut out: Vec<u8> = Vec::new();
    wav::write(header, &wav::BitDepth::ThirtyTwoFloat(samples), &mut Cursor::new(&mut out))
        .unwrap();
    out
}

#[test]
fn decodes_mono_sixteen_bit() {
    let bytes = wav_bytes(1, 44100, 16, wav::BitDepth::Sixteen(vec![100, -100, 50]));
    let (mono, rate) = read_mono_audio(&bytes).unwrap();
    assert_eq!(mono, vec![100i16, -100, 50]);
    assert_eq!(rate, 44100);
}

#[test]
fn decodes_and_reduces_stereo() {
    let bytes = wav_bytes(2, 22050, 16, wav::BitDepth::Sixteen(vec![10, 20, 30, 40, 50]));
    let (mono, rate) = read_mono_audio(&bytes).unwrap();
    assert_eq!(mono, vec![15i16, 35]);
    assert_eq!(rate, 22050);
}

#[test]
fn decodes_eight_bit() {
    let bytes = wav_bytes(1, 8000, 8, wav::BitDepth::Eight(vec![0, 255, 100]));
    let (mono, _) = read_mono_audio(&bytes).unwrap();
    assert_eq!(mono, vec![0i16, 255, 100]);
}

#[test]
fn decodes_twenty_four_bit() {
    let bytes = wav_bytes(1, 48000, 24, wav::BitDepth::TwentyFour(vec![100 << 8, -100 << 8]));
    let (mono, _) = read_mono_audio(&bytes).unwrap();
    assert_eq!(mono, vec![100i16, -100]);
}

#[test]
fn decodes_float_samples() {
    let bytes = float_wav_bytes(1, 44100, vec![1.0, 0.0, -1.0, 0.5]);
    let (mono, _) = read_mono_audio(&bytes).unwrap();
    assert_eq!(mono, vec![32767i16, 0, -32767, 16383]);
}

#[test]
fn rejects_garbage_bytes() {
    let bytes = vec![1u8, 2, 3];
    assert_eq!(read_mono_audio(&bytes).unwrap_err(), AudioError::Decode);
}

#[test]
fn rejects_truncated_riff() {
    // Declares 100 bytes of chunk data but carries none: the chunk walk
    // would leave the data.
    let mut bytes = Vec::new();
    bytes.extend_from_slice(b"RIFF");
    bytes.extend_from_slice(&100u32.to_le_bytes());
    bytes.extend_from_slice(b"WAVE");
    assert_eq!(read_mono_audio(&bytes).unwrap_err(), AudioError::Decode);
}

#[test]
fn rejects_non_ascii_chunk_id() {
    let mut bytes = Vec::new();
    bytes.extend_from_slice(b"RIFF");
    bytes.extend_from_slice(&16u32.to_le_bytes());
    bytes.extend_from_slice(b"WAVE");
    bytes.extend_from_slice(&[0xffu8, 0xfe, 0xfd, 0xfc]);
    bytes.extend_from_slice(&0u32.to_le_bytes());
    assert_eq!(read_mono_audio(&bytes).unwrap_err(), AudioError::Decode);
}

#[test]
fn whole_run_without_blend() {
    let input = wav_bytes(1, 44100, 16, wav::BitDepth::Sixteen(vec![100, -100, 50]));
    let out_bytes = process(&input, None).unwrap();
    let (header, data) = wav::read(&mut Cursor::new(&out_bytes)).unwrap();
    assert_eq!(header.channel_count, 2);
    assert_eq!(header.sampling_rate, 44100);
    assert_eq!(header.bits_per_sample, 16);
    match data {
        wav::BitDepth::Sixteen(v) => assert_eq!(v, vec![100, -100, -100, 100, 50, -50]),
        _ => panic!("output is not 16-bit"),
    }
}

#[test]
fn whole_run_with_blend() {
    let input = wav_bytes(1, 44100, 16, wav::BitDepth::Sixteen(vec![0, 0]));
    let blend = wav_bytes(1, 44100, 16, wav::BitDepth::Sixteen(vec![160, 0]));
    let out_bytes = process(&input, Some(&blend)).unwrap();
    let (header, data) = wav::read(&mut Cursor::new(&out_bytes)).unwrap();
    assert_eq!(header.channel_count, 2);
    assert_eq!(header.sampling_rate, 44100);
    match data {
        wav::BitDepth::Sixteen(v) => assert_eq!(v, vec![10, 10, 0, 0]),
        _ => panic!("output is not 16-bit"),
    }
}

#[test]
fn whole_run_blend_shorter_than_primary() {
    let input = wav_bytes(1, 32000, 16, wav::BitDepth::Sixteen(vec![5, 6, 7]));
    let blend = wav_bytes(1, 32000, 16, wav::BitDepth::Sixteen(vec![160]));
    let out_bytes = process(&input, Some(&blend)).unwrap();
    let (_, data) = wav::read(&mut Cursor::new(&out_bytes)).unwrap();
    match data {
        wav::BitDepth::Sixteen(v) => assert_eq!(v, vec![5, 15, -6, 6, -7, 7]),
        _ => panic!("output is not 16-bit"),
    }
}

#[test]
fn rate_mismatch_fails_with_no_output() {
    let input = wav_bytes(1, 44100, 16, wav::BitDepth::Sixteen(vec![1, 2]));
    let blend = wav_bytes(1, 48000, 16, wav::BitDepth::Sixteen(vec![3, 4]));
    assert_eq!(process(&input, Some(&blend)).unwrap_err(), AudioError::RateMismatch);
}

#[test]
fn empty_track_round_trips_as_empty_container() {
    // A container whose data chunk holds no samples decodes to an empty
    // sequence, and the run writes an output container with an empty data
    // chunk.
    let mut bytes = Vec::new();
    bytes.extend_from_slice(b"RIFF");
    bytes.extend_from_slice(&36u32.to_le_bytes());
    bytes.extend_from_slice(b"WAVE");
    bytes.extend_from_slice(b"fmt ");
    bytes.extend_from_slice(&16u32.to_le_bytes());
    bytes.extend_from_slice(&1u16.to_le_bytes()); // PCM
    bytes.extend_from_slice(&1u16.to_le_bytes()); // one channel
    bytes.extend_from_slice(&8000u32.to_le_bytes());
    bytes.extend_from_slice(&16000u32.to_le_bytes());
    bytes.extend_from_slice(&2u16.to_le_bytes());
    bytes.extend_from_slice(&16u16.to_le_bytes());
    bytes.extend_from_slice(b"data");
    bytes.extend_from_slice(&0u32.to_le_bytes());
    let (mono, rate) = read_mono_audio(&bytes).unwrap();
    assert_eq!(mono, Vec::<i16>::new());
    assert_eq!(rate, 8000);
    let out_bytes = process(&bytes, None).unwrap();
    let (out_mono, out_rate) = read_mono_audio(&out_bytes).unwrap();
    assert_eq!(out_mono, Vec::<i16>::new());
    assert_eq!(out_rate, 8000);
}

#[test]
fn oversized_rate_cannot_be_encoded() {
    // The output header's byte-rate field is 32-bit: four bytes per frame
    // at this rate cannot be represented, so the run fails on encoding.
    let input = wav_bytes(1, 0x4000_0000, 16, wav::BitDepth::Sixteen(vec![1, 2]));
    assert_eq!(process(&input, None).unwrap_err(), AudioError::Encode);
}

#[test]
fn encode_output_round_trips() {
    let bytes = encode_output(8000, vec![1i16, 2, 3, 4]).unwrap();
    let (header, data) = wav::read(&mut Cursor::new(&bytes)).unwrap();
    assert_eq!(header.audio_format, wav::header::WAV_FORMAT_PCM);
    assert_eq!(header.channel_count, 2);
    assert_eq!(header.sampling_rate, 8000);
    assert_eq!(header.bits_per_sample, 16);
    match data {
        wav::BitDepth::Sixteen(v) => assert_eq!(v, vec![1, 2, 3, 4]),
        _ => panic!("output is not 16-bit"),
    }
}

#[test]
fn walk_screen_accepts_sound_and_refuses_truncated_containers() {
    let sound = wav_bytes(1, 44100, 16, wav::BitDepth::Sixteen(vec![1, 2]));
    assert!(container_walk_ok(&sound));
    let mut truncated = Vec::new();
    truncated.extend_from_slice(b"RIFF");
    truncated.extend_from_slice(&100u32.to_le_bytes());
    truncated.extend_from_slice(b"WAVE");
    assert!(!container_walk_ok(&truncated));
}
