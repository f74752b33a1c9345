//! The audio container codec, behind trusted wrappers.
//!
//! Parsing and writing the container framing is deterministic, so each side
//! stands for a function of the bytes alone: three spec names below, one for
//! the writer's output and two for what the reader makes of a byte sequence.
//! The wrappers state of them only what the container library's source
//! shows, and the verified pipeline builds on those statements.

use vstd::prelude::*;
use crate::format::AudioHeader;
use crate::format::CodecError;
use crate::format::SampleFormat;

verus! {

/// The bytes the container writer produces for a header and a sample
/// sequence: the RIFF framing, the format chunk, and a data chunk holding
/// exactly the samples.
pub uninterp spec fn spec_wav_bytes(h: AudioHeader, samples: Seq<i16>) -> Seq<u8>;

/// The header the container reader recovers from a byte sequence, or nothing
/// if the framing is malformed.
pub uninterp spec fn spec_parse_header(bytes: Seq<u8>) -> Option<AudioHeader>;

/// The 16-bit sample sequence the container reader recovers from a byte
/// sequence, or nothing if the framing or the sample data is malformed.
pub uninterp spec fn spec_parse_samples(bytes: Seq<u8>) -> Option<Seq<i16>>;

/// Relies on hound::WavReader::new and WavReader::spec: the recovered header
/// is a function of the bytes alone, and the reader rejects a format chunk
/// with zero channels. Nothing more is assumed of the fields — in particular
/// the sample rate may be zero or arbitrarily large, so the pipeline guards
/// it before handing any header to the writer.
#[verifier::external_body]
pub(crate) fn wav_open(bytes: &Vec<u8>) -> (r: Result<AudioHeader, CodecError>)
    ensures
        match r {
            Ok(h) => spec_parse_header(bytes@) == Some(h) && 1 <= h.channels,
            Err(e) => spec_parse_header(bytes@) is None && e == CodecError::Decode,
        },
{
    let reader = match hound::WavReader::new(std::io::Cursor::new(bytes.as_slice())) {
        Ok(reader) => reader,
        Err(_) => return Err(CodecError::Decode),
    };
    let s = reader.spec();
    Ok(AudioHeader {
        channels: s.channels,
        sample_rate: s.sample_rate,
        bits_per_sample: s.bits_per_sample,
        sample_format: match s.sample_format {
            hound::SampleFormat::Int => SampleFormat::Int,
            hound::SampleFormat::Float => SampleFormat::Float,
        },
    })
}

/// Relies on hound::WavReader::samples::<i16>: the sample sequence is a
/// function of the bytes alone, and any truncated or mismatched sample data
/// comes back as an error from the iterator.
#[verifier::external_body]
pub(crate) fn wav_samples(bytes: &Vec<u8>) -> (r: Result<Vec<i16>, CodecError>)
    ensures
        match r {
            Ok(v) => spec_parse_samples(bytes@) == Some(v@),
            Err(e) => spec_parse_samples(bytes@) is None && e == CodecError::Decode,
        },
{
    let mut reader = match hound::WavReader::new(std::io::Cursor::new(bytes.as_slice())) {
        Ok(reader) => reader,
        Err(_) => return Err(CodecError::Decode),
    };
    match reader.samples::<i16>().collect::<Result<Vec<i16>, _>>() {
        Ok(v) => Ok(v),
        Err(_) => Err(CodecError::Decode),
    }
}

/// Relies on hound::WavWriter over an in-memory cursor: for a supported,
/// writable header it writes the framing deterministically and cannot fail,
/// and hound's own reader recovers exactly the header and samples written.
/// The reader stops at the start of the data chunk and never looks past the
/// length that chunk declares, so bytes appended after a zero-sample
/// container leave its header readable. The preconditions keep out what
/// would make the writer abort: a sample format other than 16-bit integer, a
/// zero or oversized sample rate, and sample data whose byte length would
/// overflow the 32-bit size fields.
#[verifier::external_body]
pub(crate) fn wav_write(h: &AudioHeader, samples: &Vec<i16>) -> (out: Vec<u8>)
    requires
        h.supported(),
        h.writable(),
        2 * samples@.len() + 44 <= u32::MAX,
    ensures
        out@ == spec_wav_bytes(*h, samples@),
        spec_parse_header(out@) == Some(*h),
        spec_parse_samples(out@) == Some(samples@),
        samples@.len() == 0 ==> forall|rest: Seq<u8>|
            #[trigger] spec_parse_header(out@ + rest) == Some(*h),
{
    let mut out: Vec<u8> = Vec::new();
    let spec = hound::WavSpec {
        channels: h.channels,
        sample_rate: h.sample_rate,
        bits_per_sample: h.bits_per_sample,
        sample_format: hound::SampleFormat::Int,
    };
    let mut writer = hound::WavWriter::new(std::io::Cursor::new(&mut out), spec).unwrap();
    let mut sample_writer = writer.get_i16_writer(samples.len() as u32);
    for s in samples.iter() {
        sample_writer.write_sample(*s);
    }
    sample_writer.flush().unwrap();
    writer.finalize().unwrap();
    out
}

/// Does `bytes` begin with `prefix`, byte for byte?
pub(crate) fn starts_with(bytes: &Vec<u8>, prefix: &Vec<u8>) -> (r: bool)
    ensures
        r <==> (prefix@.len() <= bytes@.len() && bytes@.subrange(
            0,
            prefix@.len() as int,
        ) == prefix@),
{
    if prefix.len() > bytes.len() {
        return false;
    }
    let mut i: usize = 0;
    while i < prefix.len()
        invariant
            i <= prefix@.len(),
            prefix@.len() <= bytes@.len(),
            forall|j: int| 0 <= j < i ==> bytes@[j] == prefix@[j],
        decreases prefix@.len() - i,
    {
        if bytes[i] != prefix[i] {
            proof {
                assert(bytes@.subrange(0, prefix@.len() as int)[i as int] != prefix@[i as int]);
            }
            return false;
        }
        i += 1;
    }
    proof {
        assert(bytes@.subrange(0, prefix@.len() as int) =~= prefix@);
    }
    true
}

/// Copies the bytes from `start` on into a vector of their own.
pub(crate) fn tail_from(bytes: &Vec<u8>, start: usize) -> (out: Vec<u8>)
    requires
        start <= bytes@.len(),
    ensures
        out@ == bytes@.subrange(start as int, bytes@.len() as int),
{
    let mut out: Vec<u8> = Vec::new();
    let mut i: usize = start;
    while i < bytes.len()
        invariant
            start <= i <= bytes@.len(),
            out@ == bytes@.subrange(start as int, i as int),
        decreases bytes@.len() - i,
    {
        out.push(bytes[i]);
        proof {
            assert(out@ =~= bytes@.subrange(start as int, i + 1 as int));
        }
        i += 1;
    }
    proof {
        assert(out@ =~= bytes@.subrange(start as int, bytes@.len() as int));
    }
    out
}

} // verus!
