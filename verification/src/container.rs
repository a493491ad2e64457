//! Reading and writing RIFF/WAVE containers, and the full pipeline from
//! container bytes to container bytes.
//!
//! The container crate's reader aborts rather than erring when its chunk
//! walk runs off the end of the data or meets a chunk identifier that is
//! not text, so the walk is screened here first: `wav_read_safe` replays
//! the walk over the raw bytes, and only byte strings that pass are handed
//! to the reader. Everything that fails the screen is reported as a decode
//! error, as any malformed container is.

use crate::downmix::reduce_spec;
use crate::downmix::reduce_channels;
use crate::samples::normalize;
use crate::samples::normalize_spec;
use crate::samples::RawModel;
use crate::samples::RawSamples;
use crate::stereo::blended_spec;
use crate::stereo::no_blend_spec;
use crate::stereo::phase_blend;
use vstd::prelude::*;

verus! {

/// A failure of the pipeline: the input container could not be decoded,
/// the two inputs disagree on their sampling rate, or the output could not
/// be encoded.
#[derive(Clone, Copy, Debug, PartialEq, Eq, Structural)]
pub enum AudioError {
    Decode,
    RateMismatch,
    Encode,
}

/// The format tag of uncompressed PCM sample data.
pub const PCM_FORMAT_TAG: u16 = 1;

/// The output container always carries two channels.
pub const OUTPUT_CHANNELS: u16 = 2;

/// The output container always carries 16-bit samples.
pub const OUTPUT_BIT_DEPTH: u16 = 16;

/// The 32-bit little-endian unsigned integer at `pos`.
pub open spec fn le32_at(s: Seq<u8>, pos: int) -> int {
    s[pos] + 256 * s[pos + 1] + 65536 * s[pos + 2] + 16777216 * s[pos + 3]
}

/// Whether the four bytes at `pos` are ASCII, as a chunk identifier must
/// be for the reader to compare it against a name.
pub open spec fn ascii_id(s: Seq<u8>, pos: int) -> bool {
    s[pos] < 128 && s[pos + 1] < 128 && s[pos + 2] < 128 && s[pos + 3] < 128
}

/// Where the chunk walk stands after the chunk at `cur`: past its 8-byte
/// header and its contents, padded to an even length.
pub open spec fn chunk_step(s: Seq<u8>, cur: int) -> int {
    cur + 8 + le32_at(s, cur + 4) + le32_at(s, cur + 4) % 2
}

/// Whether the chunk walk from `cur` stays within the data until it passes
/// `end`: every chunk it visits has its full 8-byte header inside the data
/// and an ASCII identifier.
pub open spec fn walk_safe(s: Seq<u8>, cur: int, end: int) -> bool
    decreases end - cur,
{
    if cur >= end {
        true
    } else if cur + 8 > s.len() {
        false
    } else if !ascii_id(s, cur) {
        false
    } else {
        if chunk_step(s, cur) < end {
            walk_safe(s, chunk_step(s, cur), end)
        } else {
            true
        }
    }
}

/// The end of the outer chunk's children: the outer header's four id bytes
/// plus its declared length.
pub open spec fn riff_end(s: Seq<u8>) -> int {
    4 + le32_at(s, 4)
}

/// Whether the container reader can walk these bytes without leaving the
/// data. Byte strings too short to carry a form type, and those not
/// declaring the WAVE form, are refused by the reader before it walks, so
/// they are safe; the form type's four bytes must themselves be ASCII for
/// the reader to compare them at all.
pub open spec fn wav_read_safe(s: Seq<u8>) -> bool {
    if s.len() < 12 {
        true
    } else if !ascii_id(s, 8) {
        false
    } else if !(s[8] == 87 && s[9] == 65 && s[10] == 86 && s[11] == 69) {
        true
    } else {
        walk_safe(s, 12, riff_end(s))
    }
}

/// Reads the 32-bit little-endian unsigned integer at `pos`.
fn read_le32(bytes: &Vec<u8>, pos: usize) -> (v: u64)
    requires
        pos + 4 <= bytes@.len(),
    ensures
        v == le32_at(bytes@, pos as int),
        v <= 0xffff_ffff,
{
    let _n: usize = bytes.len();
    bytes[pos] as u64 + 256 * (bytes[pos + 1] as u64) + 65536 * (bytes[pos + 2] as u64)
        + 16777216 * (bytes[pos + 3] as u64)
}

/// Replays the container reader's chunk walk over the bytes and reports
/// whether it stays within them.
pub fn container_walk_ok(bytes: &Vec<u8>) -> (ok: bool)
    ensures
        ok == wav_read_safe(bytes@),
{
    let n: usize = bytes.len();
    if n < 12 {
        return true;
    }
    if !(bytes[8] < 128 && bytes[9] < 128 && bytes[10] < 128 && bytes[11] < 128) {
        return false;
    }
    if !(bytes[8] == 87 && bytes[9] == 65 && bytes[10] == 86 && bytes[11] == 69) {
        return true;
    }
    let end: u64 = 4 + read_le32(bytes, 4);
    let mut cur: u64 = 12;
    while cur < end
        invariant
            bytes@.len() == n <= usize::MAX,
            end <= 0x1_0000_0003,
            wav_read_safe(bytes@) == walk_safe(bytes@, cur as int, end as int),
        decreases end - cur,
    {
        if cur + 8 > n as u64 {
            return false;
        }
        let c: usize = cur as usize;
        if !(bytes[c] < 128 && bytes[c + 1] < 128 && bytes[c + 2] < 128 && bytes[c + 3] < 128) {
            return false;
        }
        let clen: u64 = read_le32(bytes, c + 4);
        let next: u64 = cur + 8 + clen + clen % 2;
        proof {
            assert(chunk_step(bytes@, cur as int) == next);
        }
        if next >= end {
            return true;
        }
        cur = next;
    }
    true
}

/// What the container reader yields for a byte string: the channel count,
/// the sampling rate, and the sample payload, or nothing where the bytes
/// are not a readable container. The result is a function of the bytes
/// alone.
pub uninterp spec fn wav_parse_of(bytes: Seq<u8>) -> Option<(u16, u32, RawModel)>;

/// The bytes of the container serializing `data` under the given header
/// fields; a function of its arguments alone.
pub uninterp spec fn wav_bytes_of(
    format: u16,
    channels: u16,
    rate: u32,
    bits: u16,
    data: Seq<i16>,
) -> Seq<u8>;

/// Relies on `wav::read` (wav 1.0.1): parses a RIFF/WAVE container held in
/// memory into its header and sample payload, a function of the bytes
/// alone, here named `wav_parse_of`. The reader's chunk walk unwraps its
/// reads, so the `requires` admits only byte strings whose walk stays
/// within the data (`wav_read_safe`); callers screen with
/// `container_walk_ok` first. Float samples are carried out by their
/// IEEE-754 bits; the reader's error detail is collapsed into the decode
/// error.
#[verifier::external_body]
fn wav_parse(bytes: &Vec<u8>) -> (r: Result<(u16, u32, RawSamples), AudioError>)
    requires
        wav_read_safe(bytes@),
    ensures
        match r {
            Ok(d) => wav_parse_of(bytes@) == Some((d.0, d.1, d.2@)),
            Err(e) => wav_parse_of(bytes@) is None && e == AudioError::Decode,
        },
{
    let mut cur = std::io::Cursor::new(bytes.as_slice());
    match wav::read(&mut cur) {
        Err(_) => Err(AudioError::Decode),
        Ok((h, d)) => {
            let raw = match d {
                wav::BitDepth::Eight(v) => RawSamples::Eight(v),
                wav::BitDepth::Sixteen(v) => RawSamples::Sixteen(v),
                wav::BitDepth::TwentyFour(v) => RawSamples::TwentyFour(v),
                wav::BitDepth::ThirtyTwoFloat(v) => RawSamples::FloatBits(v.into_iter().map(|x| x.to_bits()).collect()),
                wav::BitDepth::Empty => RawSamples::Empty,
            };
            Ok((h.channel_count, h.sampling_rate, raw))
        },
    }
}

/// Relies on `wav::write` (wav 1.0.1): serializes a 16-bit track into a
/// RIFF/WAVE container written to an in-memory buffer, a function of the
/// header fields and samples alone, here named `wav_bytes_of`. The
/// `requires` keeps out header fields whose byte-rate product overflows,
/// on which `wav::Header::new` would not return, and payloads so large
/// that the writer's 32-bit chunk-size arithmetic would overflow; within
/// those bounds a write to memory cannot fail (a track with no samples
/// becomes an empty data chunk), so the call always returns the container
/// bytes.
#[verifier::external_body]
fn wav_encode(format: u16, channels: u16, rate: u32, bits: u16, data: Vec<i16>) -> (r: Result<
    Vec<u8>,
    AudioError,
>)
    requires
        (bits as int / 8) * (channels as int) <= u16::MAX,
        (bits as int / 8) * (channels as int) * (rate as int) <= u32::MAX,
        2 * data@.len() + 44 <= u32::MAX,
    ensures
        r is Ok,
        r->Ok_0@ == wav_bytes_of(format, channels, rate, bits, data@),
{
    let mut out: Vec<u8> = Vec::new();
    let head = wav::Header::new(format, channels, rate, bits);
    let res = wav::write(head, &wav::BitDepth::Sixteen(data), &mut std::io::Cursor::new(&mut out));
    match res {
        Ok(_) => Ok(out),
        Err(_) => Err(AudioError::Encode),
    }
}

/// The mono sequence and sampling rate decoded from a container: the
/// payload normalized to 16 bits and averaged down to one channel. Nothing
/// where the bytes cannot be walked or parsed, or where the header claims
/// no channels at all.
pub open spec fn decoded_mono(bytes: Seq<u8>) -> Option<(Seq<i16>, u32)> {
    if !wav_read_safe(bytes) {
        None
    } else {
        match wav_parse_of(bytes) {
            None => None,
            Some((ch, rate, raw)) => if ch == 0 {
                None
            } else {
                Some((reduce_spec(normalize_spec(raw), ch as int), rate))
            },
        }
    }
}

/// Decodes a waveform container into its mono 16-bit sequence and its
/// sampling rate: the payload is normalized to 16 bits and the interleaved
/// channels are averaged frame by frame. Fails with the decode error on
/// exactly the byte strings that decode to nothing: containers that cannot
/// be walked or parsed, and headers claiming no channels.
pub fn read_mono_audio(bytes: &Vec<u8>) -> (r: Result<(Vec<i16>, u32), AudioError>)
    ensures
        match r {
            Ok(d) => decoded_mono(bytes@) == Some((d.0@, d.1)),
            Err(e) => decoded_mono(bytes@) is None && e == AudioError::Decode,
        },
{
    if !container_walk_ok(bytes) {
        return Err(AudioError::Decode);
    }
    match wav_parse(bytes) {
        Err(e) => Err(e),
        Ok((ch, rate, raw)) => {
            if ch == 0 {
                return Err(AudioError::Decode);
            }
            let data = normalize(raw);
            let mono = reduce_channels(&data, ch);
            Ok((mono, rate))
        },
    }
}

/// Whether a track of `len` samples at this rate fits the fixed output
/// format: the header's byte-rate field and the container's chunk sizes
/// are 32-bit.
pub open spec fn encodable(rate: u32, len: nat) -> bool {
    rate <= 0x3fff_ffff && 2 * len + 44 <= u32::MAX
}

/// The encoder's result: the output container's bytes, or the encode
/// error where the track does not fit the format.
pub open spec fn encode_result(rate: u32, samples: Seq<i16>) -> Result<Seq<u8>, AudioError> {
    if encodable(rate, samples.len()) {
        Ok(wav_bytes_of(PCM_FORMAT_TAG, OUTPUT_CHANNELS, rate, OUTPUT_BIT_DEPTH, samples))
    } else {
        Err(AudioError::Encode)
    }
}

/// Serializes a stereo interleaved 16-bit track as a PCM container with
/// two channels at the given rate.
pub fn encode_output(rate: u32, samples: Vec<i16>) -> (r: Result<Vec<u8>, AudioError>)
    ensures
        encodable(rate, samples@.len()) ==> r is Ok && r->Ok_0@ == wav_bytes_of(
            PCM_FORMAT_TAG,
            OUTPUT_CHANNELS,
            rate,
            OUTPUT_BIT_DEPTH,
            samples@,
        ),
        !encodable(rate, samples@.len()) ==> r is Err && r->Err_0 == AudioError::Encode,
{
    let len: usize = samples.len();
    if rate > 0x3fff_ffff {
        return Err(AudioError::Encode);
    }
    if len as u64 > (0xffff_ffffu64 - 44) / 2 {
        return Err(AudioError::Encode);
    }
    proof {
        assert(OUTPUT_BIT_DEPTH as int / 8 == 2);
        assert(2 * 2 * (rate as int) <= u32::MAX);
        assert((OUTPUT_BIT_DEPTH as int / 8) * (OUTPUT_CHANNELS as int) * (rate as int) == 2 * 2 * (rate as int)) by (nonlinear_arith)
            requires
                OUTPUT_BIT_DEPTH as int / 8 == 2,
                OUTPUT_CHANNELS == 2,
        ;
    }
    wav_encode(PCM_FORMAT_TAG, OUTPUT_CHANNELS, rate, OUTPUT_BIT_DEPTH, samples)
}

/// The view of an optional borrowed byte vector.
pub open spec fn opt_bytes(b: Option<&Vec<u8>>) -> Option<Seq<u8>> {
    match b {
        None => None,
        Some(v) => Some(v@),
    }
}

/// The whole pipeline's result for a primary container and an optional
/// blend container: each is decoded and averaged down to mono, the rates
/// must agree where a blend is given, and the transformed stereo track is
/// re-encoded. The rates are compared before any mixing: a mismatch fails
/// the run with no output.
pub open spec fn pipeline_spec(p: Seq<u8>, b: Option<Seq<u8>>) -> Result<Seq<u8>, AudioError> {
    match decoded_mono(p) {
        None => Err(AudioError::Decode),
        Some((mono, rate)) => match b {
            None => encode_result(rate, no_blend_spec(mono)),
            Some(bb) => match decoded_mono(bb) {
                None => Err(AudioError::Decode),
                Some((bmono, brate)) => if brate != rate {
                    Err(AudioError::RateMismatch)
                } else {
                    encode_result(rate, blended_spec(mono, bmono))
                },
            },
        },
    }
}

/// Decodes the primary container and, if given, the blend container,
/// requires their rates to agree, applies the phase-blend transform, and
/// encodes the stereo result at the primary's rate.
pub fn process(primary: &Vec<u8>, blend: Option<&Vec<u8>>) -> (r: Result<Vec<u8>, AudioError>)
    ensures
        match (r, pipeline_spec(primary@, opt_bytes(blend))) {
            (Ok(v), Ok(s)) => v@ == s,
            (Err(e1), Err(e2)) => e1 == e2,
            _ => false,
        },
{
    let decoded = match read_mono_audio(primary) {
        Ok(d) => d,
        Err(e) => {
            return Err(e);
        },
    };
    let mono = decoded.0;
    let rate = decoded.1;
    let stereo: Vec<i16> = match blend {
        None => phase_blend(&mono, None),
        Some(bb) => {
            let bdecoded = match read_mono_audio(bb) {
                Ok(d) => d,
                Err(e) => {
                    return Err(e);
                },
            };
            if bdecoded.1 != rate {
                return Err(AudioError::RateMismatch);
            }
            phase_blend(&mono, Some(&bdecoded.0))
        },
    };
    encode_output(rate, stereo)
}

/// Law: where both containers decode but disagree on their sampling rate,
/// the run fails with the rate-mismatch error and produces no bytes.
pub proof fn lemma_rate_mismatch_rejected(p: Seq<u8>, b: Seq<u8>)
    requires
        decoded_mono(p) matches Some(dp) && decoded_mono(b) matches Some(db) && dp.1 != db.1,
    ensures
        pipeline_spec(p, Some(b)) == Err::<Seq<u8>, AudioError>(AudioError::RateMismatch),
{
}

} // verus!
