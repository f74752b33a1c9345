//! The delta compressor and its inverse, behind trusted wrappers.
//!
//! Compression is purely functional: the same samples and the same
//! configuration always give the same bytes, and decompression recovers the
//! samples exactly. The two spec names below stand for those two functions of
//! the bytes; nothing else is assumed of them.

use vstd::prelude::*;
use crate::format::CodecError;

verus! {

/// The compression level handed to the compressor on every run: fixed by the
/// pipeline, not chosen by the caller.
pub const COMPRESSION_LEVEL: usize = 12;

/// The largest delta encoding order the compressor accepts; a larger one
/// makes it abort.
pub const MAX_DELTA_ORDER: usize = 7;

/// The bytes the compressor produces for a level, an order and a sample
/// sequence. Deterministic, so a function of the three alone.
pub uninterp spec fn spec_compressed(level: int, order: int, samples: Seq<i16>) -> Seq<u8>;

/// What the decompressor makes of a byte sequence: the samples it recovers,
/// or nothing if the bytes are truncated, corrupted or structurally
/// incompatible.
pub uninterp spec fn spec_decompressed(bytes: Seq<u8>) -> Option<Seq<i16>>;

/// Relies on q_compress::standalone::Compressor::simple_compress: for a fixed
/// configuration the output is a function of the samples alone, and
/// q_compress is lossless, so its own decompressor recovers exactly the
/// samples compressed. simple_compress aborts when the compression level
/// exceeds 12 or the delta encoding order exceeds 7; the preconditions keep
/// both out.
#[verifier::external_body]
pub(crate) fn qc_compress(level: usize, order: usize, samples: &Vec<i16>) -> (out: Vec<u8>)
    requires
        level <= COMPRESSION_LEVEL,
        order <= MAX_DELTA_ORDER,
    ensures
        out@ == spec_compressed(level as int, order as int, samples@),
        spec_decompressed(out@) == Some(samples@),
{
    let config = q_compress::CompressorConfig::default()
        .with_compression_level(level)
        .with_delta_encoding_order(order);
    let mut c = q_compress::Compressor::<i16>::from_config(config);
    c.simple_compress(samples)
}

/// Relies on q_compress::standalone::Decompressor::simple_decompress: the
/// result is a function of the compressed bytes alone (the payload carries
/// its own configuration), and every compatibility, corruption or missing
/// data problem comes back as an error.
#[verifier::external_body]
pub(crate) fn qc_decompress(bytes: &Vec<u8>) -> (r: Result<Vec<i16>, CodecError>)
    ensures
        match r {
            Ok(v) => spec_decompressed(bytes@) == Some(v@),
            Err(e) => spec_decompressed(bytes@) is None && e == CodecError::Decode,
        },
{
    let mut d = q_compress::Decompressor::<i16>::default();
    if std::io::Write::write_all(&mut d, bytes.as_slice()).is_err() {
        return Err(CodecError::Decode);
    }
    d.simple_decompress().map_err(|_| CodecError::Decode)
}

} // verus!
