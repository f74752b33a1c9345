//! The two directions of the pipeline over in-memory byte buffers, and the
//! mathematical models their contracts are stated against.

use vstd::prelude::*;
use crate::compress::COMPRESSION_LEVEL;
use crate::compress::MAX_DELTA_ORDER;
use crate::compress::qc_compress;
use crate::compress::qc_decompress;
use crate::compress::spec_compressed;
use crate::compress::spec_decompressed;
use crate::container::spec_parse_header;
use crate::container::spec_parse_samples;
use crate::container::spec_wav_bytes;
use crate::container::starts_with;
use crate::container::tail_from;
use crate::container::wav_open;
use crate::container::wav_samples;
use crate::container::wav_write;
use crate::format::AudioHeader;
use crate::format::CodecError;
use crate::format::spec_validate;
use crate::format::validate_header;

verus! {

/// The delta encoding order used when the caller gives none.
pub const DEFAULT_DELTA_ORDER: usize = 2;

/// What the read side of the encode path returns for a byte sequence:
/// the header and every sample, or the first error met — a malformed
/// container, or a header that breaks a format constraint.
pub open spec fn spec_read_wav(input: Seq<u8>) -> Result<(AudioHeader, Seq<i16>), CodecError> {
    match spec_parse_header(input) {
        Option::None => Err(CodecError::Decode),
        Option::Some(h) => match spec_validate(h) {
            Result::Err(e) => Err(e),
            Result::Ok(_) => match spec_parse_samples(input) {
                Option::None => Err(CodecError::Decode),
                Option::Some(s) => Ok((h, s)),
            },
        },
    }
}

/// The read side of the encode path: parse the container, validate its
/// header, then extract every sample.
pub fn read_wav(input: &Vec<u8>) -> (r: Result<(AudioHeader, Vec<i16>), CodecError>)
    ensures
        r matches Ok(p) ==> spec_read_wav(input@) == Ok::<(AudioHeader, Seq<i16>), CodecError>(
            (p.0, p.1@),
        ),
        r matches Ok(p) ==> p.0.supported(),
        r matches Err(e) ==> spec_read_wav(input@) == Err::<(AudioHeader, Seq<i16>), CodecError>(
            e,
        ),
{
    let h = match wav_open(input) {
        Ok(h) => h,
        Err(e) => {
            return Err(e);
        },
    };
    match validate_header(&h) {
        Ok(_) => (),
        Err(e) => {
            return Err(e);
        },
    };
    let samples = match wav_samples(input) {
        Ok(v) => v,
        Err(e) => {
            return Err(e);
        },
    };
    Ok((h, samples))
}

/// The container writer of the decode path: a fully conformant container
/// holding the recovered samples under the recovered header.
pub fn write_wav(h: &AudioHeader, samples: &Vec<i16>) -> (out: Vec<u8>)
    requires
        h.supported(),
        h.writable(),
        2 * samples@.len() + 44 <= u32::MAX,
    ensures
        out@ == spec_wav_bytes(*h, samples@),
        spec_parse_header(out@) == Some(*h),
        spec_parse_samples(out@) == Some(samples@),
{
    wav_write(h, samples)
}

/// What the read side of the decode path returns for a byte sequence. The
/// layout it accepts is exactly what the encode path emits: the container
/// writer's zero-sample framing for a supported, writable header, followed
/// by the payload verbatim.
pub open spec fn spec_read_compressed(input: Seq<u8>) -> Result<
    (AudioHeader, Seq<u8>),
    CodecError,
> {
    match spec_parse_header(input) {
        Option::None => Err(CodecError::Decode),
        Option::Some(h) => match spec_validate(h) {
            Result::Err(e) => Err(e),
            Result::Ok(_) => if !h.writable() {
                Err(CodecError::Decode)
            } else {
                let hb = spec_wav_bytes(h, Seq::<i16>::empty());
                if hb.len() <= input.len() && input.subrange(0, hb.len() as int) == hb {
                    Ok((h, input.subrange(hb.len() as int, input.len() as int)))
                } else {
                    Err(CodecError::Decode)
                }
            },
        },
    }
}

/// The container writer of the encode path: the header framed by the
/// container format's own writer with zero frames, then the payload
/// appended verbatim. The result is not a conformant container; the decode
/// path special-cases this layout.
pub fn write_compressed(h: &AudioHeader, payload: &Vec<u8>) -> (out: Vec<u8>)
    requires
        h.supported(),
        h.writable(),
    ensures
        out@ == spec_wav_bytes(*h, Seq::<i16>::empty()) + payload@,
        spec_read_compressed(out@) == Ok::<(AudioHeader, Seq<u8>), CodecError>((*h, payload@)),
{
    let empty: Vec<i16> = Vec::new();
    let mut out = wav_write(h, &empty);
    let ghost hb = out@;
    let mut i: usize = 0;
    while i < payload.len()
        invariant
            i <= payload@.len(),
            out@ == hb + payload@.subrange(0, i as int),
        decreases payload@.len() - i,
    {
        out.push(payload[i]);
        proof {
            assert(out@ =~= hb + payload@.subrange(0, i + 1 as int));
        }
        i += 1;
    }
    proof {
        assert(payload@.subrange(0, payload@.len() as int) =~= payload@);
        assert(spec_parse_header(hb + payload@) == Some(*h));
        assert((hb + payload@).subrange(0, hb.len() as int) =~= hb);
        assert((hb + payload@).subrange(hb.len() as int, (hb + payload@).len() as int)
            =~= payload@);
    }
    out
}

/// The read side of the decode path: recover the header from the framing,
/// check the framing is byte for byte what the encode path would have
/// written for it, and hand back the payload after it.
pub fn read_compressed(input: &Vec<u8>) -> (r: Result<(AudioHeader, Vec<u8>), CodecError>)
    ensures
        r matches Ok(p) ==> spec_read_compressed(input@) == Ok::<
            (AudioHeader, Seq<u8>),
            CodecError,
        >((p.0, p.1@)) && p.0.supported() && p.0.writable(),
        r matches Err(e) ==> spec_read_compressed(input@) == Err::<
            (AudioHeader, Seq<u8>),
            CodecError,
        >(e),
{
    let h = match wav_open(input) {
        Ok(h) => h,
        Err(e) => {
            return Err(e);
        },
    };
    match validate_header(&h) {
        Ok(_) => (),
        Err(e) => {
            return Err(e);
        },
    };
    if h.sample_rate == 0 || h.sample_rate > u32::MAX / 2 {
        return Err(CodecError::Decode);
    }
    let empty: Vec<i16> = Vec::new();
    let hb = wav_write(&h, &empty);
    if !starts_with(input, &hb) {
        return Err(CodecError::Decode);
    }
    let payload = tail_from(input, hb.len());
    Ok((h, payload))
}

/// The encode path's result: the output bytes, and the two numbers the
/// caller's diagnostic lines report — how many samples went in, and how many
/// payload bytes came out.
#[derive(Debug, PartialEq, Eq)]
pub struct Encoded {
    pub bytes: Vec<u8>,
    pub sample_count: usize,
    pub payload_len: usize,
}

/// The decode path's result: the output bytes, and how many samples were
/// recovered.
#[derive(Debug, PartialEq, Eq)]
pub struct Decoded {
    pub bytes: Vec<u8>,
    pub sample_count: usize,
}

/// What the encode path emits for a byte sequence and a delta encoding
/// order, or the first error met. A parsed header the container writer
/// cannot frame — a zero sample rate, or one whose byte rate overflows the
/// 32-bit field — is rejected as malformed.
pub open spec fn spec_encode(input: Seq<u8>, order: int) -> Result<Seq<u8>, CodecError> {
    match spec_read_wav(input) {
        Result::Err(e) => Err(e),
        Result::Ok(p) => if !p.0.writable() {
            Err(CodecError::Decode)
        } else {
            Ok(
                spec_wav_bytes(p.0, Seq::<i16>::empty()) + spec_compressed(
                    COMPRESSION_LEVEL as int,
                    order,
                    p.1,
                ),
            )
        },
    }
}

/// What the decode path emits for a byte sequence, or the first error met.
/// A recovered sample sequence too long for the container's 32-bit size
/// fields is rejected as malformed.
pub open spec fn spec_decode(input: Seq<u8>) -> Result<Seq<u8>, CodecError> {
    match spec_read_compressed(input) {
        Result::Err(e) => Err(e),
        Result::Ok(p) => match spec_decompressed(p.1) {
            Option::None => Err(CodecError::Decode),
            Option::Some(s) => if 2 * s.len() + 44 <= u32::MAX {
                Ok(spec_wav_bytes(p.0, s))
            } else {
                Err(CodecError::Decode)
            },
        },
    }
}

/// The whole encode path: read and validate the container, compress the
/// samples at the fixed level with the given order, and frame the payload
/// behind the header's zero-sample framing.
///
/// The last clause of the Ok case is the round-trip identity: whenever the
/// recovered samples fit the container's size fields, running the decode
/// path's model over the emitted bytes gives exactly the container of the
/// original header and the original samples, bit for bit.
pub fn encode(input: &Vec<u8>, order: usize) -> (r: Result<Encoded, CodecError>)
    requires
        order <= MAX_DELTA_ORDER,
    ensures
        r matches Ok(enc) ==> {
            &&& spec_encode(input@, order as int) == Ok::<Seq<u8>, CodecError>(enc.bytes@)
            &&& spec_read_wav(input@) matches Ok(p) && enc.sample_count == p.1.len()
                && enc.payload_len == spec_compressed(
                COMPRESSION_LEVEL as int,
                order as int,
                p.1,
            ).len() && spec_decompressed(
                spec_compressed(COMPRESSION_LEVEL as int, order as int, p.1),
            ) == Some(p.1) && (2 * p.1.len() + 44 <= u32::MAX ==> spec_decode(enc.bytes@)
                == Ok::<Seq<u8>, CodecError>(spec_wav_bytes(p.0, p.1)))
        },
        r matches Err(e) ==> spec_encode(input@, order as int) == Err::<Seq<u8>, CodecError>(e),
{
    let (h, samples) = match read_wav(input) {
        Ok(p) => p,
        Err(e) => {
            return Err(e);
        },
    };
    if h.sample_rate == 0 || h.sample_rate > u32::MAX / 2 {
        return Err(CodecError::Decode);
    }
    let payload = qc_compress(COMPRESSION_LEVEL, order, &samples);
    let payload_len = payload.len();
    let sample_count = samples.len();
    let out = write_compressed(&h, &payload);
    Ok(Encoded { bytes: out, sample_count, payload_len })
}

/// The whole decode path: recover the header and the payload, decompress
/// the payload, and re-synthesize a conformant container. The emitted bytes
/// parse back to exactly the recovered header and samples.
pub fn decode(input: &Vec<u8>) -> (r: Result<Decoded, CodecError>)
    ensures
        r matches Ok(d) ==> {
            &&& spec_decode(input@) == Ok::<Seq<u8>, CodecError>(d.bytes@)
            &&& spec_read_compressed(input@) matches Ok(p) && spec_decompressed(p.1)
                matches Some(s) && d.sample_count == s.len() && d.bytes@ == spec_wav_bytes(
                p.0,
                s,
            ) && spec_parse_header(d.bytes@) == Some(p.0) && spec_parse_samples(d.bytes@)
                == Some(s)
        },
        r matches Err(e) ==> spec_decode(input@) == Err::<Seq<u8>, CodecError>(e),
{
    let (h, payload) = match read_compressed(input) {
        Ok(p) => p,
        Err(e) => {
            return Err(e);
        },
    };
    let samples = match qc_decompress(&payload) {
        Ok(v) => v,
        Err(e) => {
            return Err(e);
        },
    };
    if samples.len() > 2147483625 {
        // 2 * len + 44 would overflow the container's 32-bit size fields
        return Err(CodecError::Decode);
    }
    let sample_count = samples.len();
    let out = write_wav(&h, &samples);
    Ok(Decoded { bytes: out, sample_count })
}

} // verus!
