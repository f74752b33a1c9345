//! Delta compression for mono 16-bit PCM audio containers.
//!
//! The library is a two-way pipeline over in-memory byte buffers. The encode
//! path parses a PCM container, rejects anything but mono 16-bit integer
//! audio, compresses the samples with a delta-encoding compressor, and frames
//! the result as the container's header bytes followed by the raw compressed
//! payload. The decode path inverts it: it recovers the header, decompresses
//! the payload, and re-synthesizes a conformant container holding the
//! original samples. Reading and writing the actual byte streams is left to
//! the caller.

pub mod compress;
pub mod container;
pub mod format;
pub mod pipeline;
