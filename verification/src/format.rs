//! The header model of the audio container, the pipeline's error kinds, and
//! the checks that run before any sample is touched.

use vstd::prelude::*;
use vstd::string::StringExecFns;

verus! {

/// How samples are encoded in the container: as integers or as IEEE floats.
#[derive(Clone, Copy, Debug, PartialEq, Eq, Structural)]
pub enum SampleFormat {
    Int,
    Float,
}

/// The container header fields the pipeline reads. A header is carried
/// unchanged from input to output in both directions, so the container
/// round-trips losslessly at the header level.
#[derive(Clone, Copy, Debug, PartialEq, Eq, Structural)]
pub struct AudioHeader {
    pub channels: u16,
    pub sample_rate: u32,
    pub bits_per_sample: u16,
    pub sample_format: SampleFormat,
}

impl AudioHeader {
    /// The only format the pipeline accepts: mono, 16-bit, integer samples.
    pub open spec fn supported(self) -> bool {
        self.sample_format == SampleFormat::Int && self.channels == 1
            && self.bits_per_sample == 16
    }

    /// What the container writer's header arithmetic tolerates for a
    /// supported header: a positive sample rate whose byte rate still fits
    /// in 32 bits.
    pub open spec fn writable(self) -> bool {
        1 <= self.sample_rate && 2 * self.sample_rate <= u32::MAX
    }
}

/// Which of the three format constraints an input header broke.
#[derive(Clone, Copy, Debug, PartialEq, Eq, Structural)]
pub enum FormatIssue {
    /// The samples are not integer-encoded.
    NotInt,
    /// More than one channel.
    NotMono,
    /// A bit depth other than 16.
    NotSixteenBit,
}

/// Every way a run of the pipeline can fail. All are terminal: nothing is
/// retried or recovered.
#[derive(Clone, Copy, Debug, PartialEq, Eq, Structural)]
pub enum CodecError {
    /// The input header broke a format constraint.
    UnsupportedFormat(FormatIssue),
    /// A stream read or write failed.
    Io,
    /// The container is malformed or the compressed payload is corrupted.
    Decode,
    /// No direction flag was given.
    Usage,
}

/// The header check of the encode path: sample encoding first, then channel
/// count, then bit depth, each a hard precondition.
pub open spec fn spec_validate(h: AudioHeader) -> Result<(), CodecError> {
    if h.sample_format != SampleFormat::Int {
        Err(CodecError::UnsupportedFormat(FormatIssue::NotInt))
    } else if h.channels != 1 {
        Err(CodecError::UnsupportedFormat(FormatIssue::NotMono))
    } else if h.bits_per_sample != 16 {
        Err(CodecError::UnsupportedFormat(FormatIssue::NotSixteenBit))
    } else {
        Ok(())
    }
}

/// Rejects any header that is not mono, 16-bit, integer-encoded, and says
/// which constraint broke.
pub fn validate_header(h: &AudioHeader) -> (r: Result<(), CodecError>)
    ensures
        r == spec_validate(*h),
        r is Ok <==> h.supported(),
{
    if h.sample_format != SampleFormat::Int {
        Err(CodecError::UnsupportedFormat(FormatIssue::NotInt))
    } else if h.channels != 1 {
        Err(CodecError::UnsupportedFormat(FormatIssue::NotMono))
    } else if h.bits_per_sample != 16 {
        Err(CodecError::UnsupportedFormat(FormatIssue::NotSixteenBit))
    } else {
        Ok(())
    }
}

/// Which direction the pipeline runs.
#[derive(Clone, Copy, Debug, PartialEq, Eq, Structural)]
pub enum Mode {
    Compress,
    Decompress,
}

/// The flag decision: the compress flag wins, the decompress flag comes
/// second, and neither flag at all is a usage error.
pub fn select_mode(compress: bool, decompress: bool) -> (r: Result<Mode, CodecError>)
    ensures
        compress ==> r == Ok::<Mode, CodecError>(Mode::Compress),
        !compress && decompress ==> r == Ok::<Mode, CodecError>(Mode::Decompress),
        !compress && !decompress ==> r == Err::<Mode, CodecError>(CodecError::Usage),
{
    if compress {
        Ok(Mode::Compress)
    } else if decompress {
        Ok(Mode::Decompress)
    } else {
        Err(CodecError::Usage)
    }
}

/// The single human-readable line printed for each error kind.
pub fn error_message(e: &CodecError) -> (r: String)
    ensures
        *e == CodecError::UnsupportedFormat(FormatIssue::NotInt) ==> r@ == "we only handle int wavs"@,
        *e == CodecError::UnsupportedFormat(FormatIssue::NotMono) ==> r@ == "we only handle 1 channel wavs"@,
        *e == CodecError::UnsupportedFormat(FormatIssue::NotSixteenBit) ==> r@ == "we only handle 16-bit wavs"@,
        *e == CodecError::Io ==> r@ == "stream read or write failed"@,
        *e == CodecError::Decode ==> r@ == "malformed container or corrupted payload"@,
        *e == CodecError::Usage ==> r@ == "must specify -c or -d"@,
{
    match e {
        CodecError::UnsupportedFormat(FormatIssue::NotInt) => String::from_str("we only handle int wavs"),
        CodecError::UnsupportedFormat(FormatIssue::NotMono) => String::from_str("we only handle 1 channel wavs"),
        CodecError::UnsupportedFormat(FormatIssue::NotSixteenBit) => String::from_str("we only handle 16-bit wavs"),
        CodecError::Io => String::from_str("stream read or write failed"),
        CodecError::Decode => String::from_str("malformed container or corrupted payload"),
        CodecError::Usage => String::from_str("must specify -c or -d"),
    }
}

} // verus!
