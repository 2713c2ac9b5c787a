use vstd::prelude::*;

use crate::CompressionType;
use crate::extra_field::ExtraFields;

verus! {

/// Attribute word for a regular file on a platform with no native attribute
/// model: a regular file, permission bits 644.
pub const DEFAULT_UNIX_FILE_ATTRS: u16 = 0o100644;

/// Attribute word for a directory on a platform with no native attribute
/// model: a directory, permission bits 755.
pub const DEFAULT_UNIX_DIR_ATTRS: u16 = 0o040755;

/// The header metadata of a finished archive entry.
#[derive(Clone, Debug)]
pub struct ZipFileHeader {
    /// The compression method reported for the payload.
    pub compression_type: CompressionType,
    /// CRC-32 of the uncompressed byte stream, whatever method was used.
    pub crc: u32,
    /// Exact uncompressed size.
    pub uncompressed_size: u32,
    /// The entry's path inside the archive.
    pub filename: String,
    /// The attribute word, pre-shifted into the high 16 bits; the low 16
    /// bits are reserved for an externally managed legacy attribute flag.
    pub external_file_attributes: u32,
    /// The entry's auxiliary records.
    pub extra_fields: ExtraFields,
    /// An optional per-entry comment.
    pub file_comment: Option<String>,
}

/// A finished archive entry: header metadata plus payload bytes, ready to be
/// laid out by an archive serializer.
#[derive(Clone, Debug)]
pub struct ZipFile {
    pub header: ZipFileHeader,
    pub data: Vec<u8>,
}

impl ZipFile {
    /// The entry for a directory marker: no payload, zero size, zero
    /// checksum, the stored method, and the given metadata carried through
    /// with the attribute word shifted into the high bits.
    pub fn directory(
        archive_path: String,
        extra_fields: ExtraFields,
        external_attributes: u16,
        file_comment: Option<String>,
    ) -> (r: ZipFile)
        ensures
            r.header.compression_type == CompressionType::Stored,
            r.header.crc == 0,
            r.header.uncompressed_size == 0,
            r.data@ == Seq::<u8>::empty(),
            r.header.filename == archive_path,
            r.header.external_file_attributes == (external_attributes as u32) << 16,
            r.header.extra_fields == extra_fields,
            r.header.file_comment == file_comment,
    {
        ZipFile {
            header: ZipFileHeader {
                compression_type: CompressionType::Stored,
                crc: 0,
                uncompressed_size: 0,
                filename: archive_path,
                external_file_attributes: (external_attributes as u32) << 16,
                extra_fields,
                file_comment,
            },
            data: Vec::new(),
        }
    }
}

} // verus!
