//! Conversion of archive jobs into finished archive entries.
//!
//! A [`job::ZipJob`] describes something to put into an archive: a directory
//! marker, the already-fetched contents of a filesystem path, or an in-memory
//! buffer, together with entry metadata. Converting a job produces a
//! [`file::ZipFile`]: compressed payload bytes, a CRC-32 checksum of the
//! uncompressed stream, the exact uncompressed size, and header metadata ready
//! for an archive serializer.

use vstd::prelude::*;

pub mod digest;
pub mod extra_field;
pub mod file;
pub mod job;
pub mod level;
pub mod metadata;

verus! {

/// The compression method applied to an entry's payload.
#[derive(Clone, Copy, Debug, PartialEq, Eq, Structural)]
pub enum CompressionType {
    /// Bytes are copied through unchanged.
    Stored,
    /// Bytes are compressed with the deflate algorithm.
    Deflate,
}

/// Why a conversion failed.
#[derive(Clone, Copy, Debug, PartialEq, Eq, Structural)]
pub enum ZipError {
    /// A filesystem path or byte source could not be read.
    IoFailure,
    /// The uncompressed byte count does not fit in 32 bits.
    SizeOverflow,
}

} // verus!
