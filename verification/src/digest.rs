use vstd::prelude::*;

use crate::{CompressionType, ZipError};

verus! {

/// CRC-32 of a byte stream, as the checksum engine computes it: the standard
/// 32-bit cyclic redundancy checksum of archive entries.
pub uninterp spec fn crc32_of(data: Seq<u8>) -> u32;

/// The deflate compressor's output on the given bytes at the given level, a
/// function of those two arguments alone.
pub uninterp spec fn deflate_of(data: Seq<u8>, level: int) -> Seq<u8>;

/// The payload an entry carries for the given source bytes, method and
/// level: the bytes themselves when stored, their deflate stream otherwise.
pub open spec fn payload_of(source: Seq<u8>, method: CompressionType, level: int) -> Seq<u8> {
    match method {
        CompressionType::Stored => source,
        CompressionType::Deflate => deflate_of(source, level),
    }
}

/// The result of digesting one byte source: payload bytes, the exact
/// uncompressed size, and the checksum of the uncompressed stream.
#[derive(Clone, Debug)]
pub struct FileDigest {
    /// Compressed or stored payload bytes.
    pub data: Vec<u8>,
    /// Exact number of source bytes.
    pub uncompressed_size: u32,
    /// CRC-32 of the source bytes, before any compression.
    pub crc: u32,
}

/// What a correct digest of `source` under `method` and `level` holds.
pub open spec fn digest_matches(
    d: FileDigest,
    source: Seq<u8>,
    method: CompressionType,
    level: int,
) -> bool {
    &&& d.data@ == payload_of(source, method, level)
    &&& d.uncompressed_size == source.len()
    &&& d.crc == crc32_of(source)
    &&& source.len() == 0 ==> d.crc == 0
}

/// Relies on flate2::Crc (new, update, sum): the standard CRC-32 of exactly
/// the bytes fed in; a fresh accumulator reports 0, so the checksum of an
/// empty stream is 0.
#[verifier::external_body]
pub(crate) fn crc32(data: &Vec<u8>) -> (r: u32)
    ensures
        r == crc32_of(data@),
        data@.len() == 0 ==> r == 0,
{
    let mut crc = flate2::Crc::new();
    crc.update(data.as_slice());
    crc.sum()
}

/// Relies on flate2::read::DeflateEncoder: reading it to the end yields the
/// raw deflate stream of the source bytes at the given level, a
/// deterministic function of bytes and level alone; reading from an
/// in-memory slice cannot fail.
#[verifier::external_body]
pub(crate) fn deflate_compress(data: &Vec<u8>, level: u32) -> (r: Vec<u8>)
    requires
        level <= 9,
    ensures
        r@ == deflate_of(data@, level as int),
{
    let mut encoder =
        flate2::read::DeflateEncoder::new(data.as_slice(), flate2::Compression::new(level));
    let mut out: Vec<u8> = Vec::new();
    std::io::Read::read_to_end(&mut encoder, &mut out)
        .expect("compressing from an in-memory slice does not fail");
    out
}

/// Checks the 32-bit size invariant: an uncompressed byte count must fit in
/// 32 bits, and a count that does not is an explicit overflow error, never a
/// silently truncated size.
pub fn checked_size(size: u64) -> (r: Result<u32, ZipError>)
    ensures
        size <= u32::MAX as u64 ==> r == Ok::<u32, ZipError>(size as u32),
        size > u32::MAX as u64 ==> r == Err::<u32, ZipError>(ZipError::SizeOverflow),
{
    if size <= u32::MAX as u64 {
        Ok(size as u32)
    } else {
        Err(ZipError::SizeOverflow)
    }
}

} // verus!
