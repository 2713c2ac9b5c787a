use vstd::prelude::*;

use crate::digest::{
    checked_size, crc32, crc32_of, deflate_compress, deflate_of, digest_matches, payload_of,
    FileDigest,
};
use crate::extra_field::{fs_derived_fields, ExtraFields};
use crate::file::{ZipFile, ZipFileHeader, DEFAULT_UNIX_DIR_ATTRS, DEFAULT_UNIX_FILE_ATTRS};
use crate::level::CompressionLevel;
use crate::metadata::{AttributeSource, FsMetadata};
use crate::{CompressionType, ZipError};

verus! {

/// Where a job's bytes come from.
#[derive(Debug)]
pub enum ZipJobOrigin {
    /// A directory marker: no bytes.
    Directory,
    /// A filesystem entry, already resolved by the caller that owns the
    /// filesystem access: its portable metadata and its full contents.
    Filesystem { metadata: FsMetadata, contents: Vec<u8> },
    /// An in-memory byte buffer, size known exactly.
    RawData(Vec<u8>),
}

/// One job: something to put into an archive, with the entry metadata to
/// attach. A job owns its input end to end and is consumed by conversion;
/// nothing is shared between jobs.
#[derive(Debug)]
pub struct ZipJob {
    /// The origin of the entry's bytes.
    pub data_origin: ZipJobOrigin,
    /// Caller-supplied auxiliary records; a filesystem origin's
    /// metadata-derived records are merged in front of them.
    pub extra_fields: ExtraFields,
    /// The entry's path inside the archive, already normalized by the caller.
    pub archive_path: String,
    /// An optional per-entry comment.
    pub file_comment: Option<String>,
    /// The entry's attribute word, used for directory and in-memory origins;
    /// a filesystem origin derives its own word from the metadata instead.
    pub external_attributes: u16,
    /// Ignored when `data_origin` is a directory.
    pub compression_level: CompressionLevel,
    /// Ignored when `data_origin` is a directory; a filesystem origin is
    /// always compressed with deflate, whatever this requests.
    pub compression_type: CompressionType,
}

/// The portable attribute word extracted from filesystem metadata: the
/// platform's native bits truncated to 16 bits, or fixed defaults where the
/// platform has no native attribute model.
pub open spec fn spec_attributes_from_fs(metadata: FsMetadata) -> u16 {
    match metadata.attributes {
        AttributeSource::WindowsAttributes(a) => (a & 0xFFFF) as u16,
        AttributeSource::LinuxMode(m) => (m & 0xFFFF) as u16,
        AttributeSource::UnixPermissions(p) => (p & 0xFFFF) as u16,
        AttributeSource::Unavailable => if metadata.is_dir {
            DEFAULT_UNIX_DIR_ATTRS
        } else {
            DEFAULT_UNIX_FILE_ATTRS
        },
    }
}

/// What the entry of a directory job holds: no payload, zero size and
/// checksum, the stored method, and the job's metadata carried through.
pub open spec fn is_directory_entry(f: ZipFile, job: ZipJob) -> bool {
    &&& f.data@ == Seq::<u8>::empty()
    &&& f.header.compression_type == CompressionType::Stored
    &&& f.header.crc == 0
    &&& f.header.uncompressed_size == 0
    &&& f.header.filename == job.archive_path
    &&& f.header.external_file_attributes == (job.external_attributes as u32) << 16
    &&& f.header.extra_fields == job.extra_fields
    &&& f.header.file_comment == job.file_comment
}

/// What the entry of a filesystem job holds: a deflate payload whatever
/// method the job requested, the checksum and exact size of the uncompressed
/// contents, the attribute word extracted from the metadata, and the
/// metadata-derived records merged in front of the caller's.
pub open spec fn is_filesystem_entry(
    f: ZipFile,
    job: ZipJob,
    metadata: FsMetadata,
    contents: Seq<u8>,
) -> bool {
    &&& f.header.compression_type == CompressionType::Deflate
    &&& f.data@ == deflate_of(contents, job.compression_level@)
    &&& f.header.crc == crc32_of(contents)
    &&& contents.len() == 0 ==> f.header.crc == 0
    &&& f.header.uncompressed_size == contents.len()
    &&& f.header.filename == job.archive_path
    &&& f.header.external_file_attributes == (spec_attributes_from_fs(metadata) as u32) << 16
    &&& f.header.extra_fields@ == fs_derived_fields(metadata) + job.extra_fields@
    &&& f.header.file_comment == job.file_comment
}

/// What the entry of an in-memory job holds: the requested method honored
/// for both payload and header, the checksum and exact size of the
/// uncompressed bytes, and the job's metadata carried through.
pub open spec fn is_raw_data_entry(f: ZipFile, job: ZipJob, data: Seq<u8>) -> bool {
    &&& f.header.compression_type == job.compression_type
    &&& f.data@ == payload_of(data, job.compression_type, job.compression_level@)
    &&& f.header.crc == crc32_of(data)
    &&& data.len() == 0 ==> f.header.crc == 0
    &&& f.header.uncompressed_size == data.len()
    &&& f.header.filename == job.archive_path
    &&& f.header.external_file_attributes == (job.external_attributes as u32) << 16
    &&& f.header.extra_fields == job.extra_fields
    &&& f.header.file_comment == job.file_comment
}

impl ZipJob {
    /// Truncates a platform attribute word to its portable low 16 bits.
    fn convert_attrs(attrs: u32) -> (r: u16)
        ensures
            r == (attrs & 0xFFFF) as u16,
    {
        (attrs & 0xFFFF) as u16
    }

    /// The attribute extractor: maps already-fetched filesystem metadata to
    /// the portable 16-bit attribute word. A pure function of the metadata;
    /// no further filesystem access.
    pub fn attributes_from_fs(metadata: &FsMetadata) -> (r: u16)
        ensures
            r == spec_attributes_from_fs(*metadata),
    {
        match metadata.attributes {
            AttributeSource::WindowsAttributes(a) => Self::convert_attrs(a),
            AttributeSource::LinuxMode(m) => Self::convert_attrs(m),
            AttributeSource::UnixPermissions(p) => Self::convert_attrs(p),
            AttributeSource::Unavailable => {
                if metadata.is_dir {
                    DEFAULT_UNIX_DIR_ATTRS
                } else {
                    DEFAULT_UNIX_FILE_ATTRS
                }
            },
        }
    }

    /// The digest engine: consumes the source bytes and produces the payload
    /// under the given method and level, the exact uncompressed size, and
    /// the checksum of the uncompressed bytes. Fails exactly when the source
    /// breaks the 32-bit size invariant, and then returns the overflow
    /// error, never a truncated size.
    pub fn compress_file(
        source: Vec<u8>,
        compression_type: CompressionType,
        compression_level: CompressionLevel,
    ) -> (r: Result<FileDigest, ZipError>)
        ensures
            source@.len() <= u32::MAX ==> (r matches Ok(d) && digest_matches(
                d,
                source@,
                compression_type,
                compression_level@,
            )),
            source@.len() > u32::MAX ==> r == Err::<FileDigest, ZipError>(ZipError::SizeOverflow),
    {
        let uncompressed_size: u32 = match checked_size(source.len() as u64) {
            Ok(s) => s,
            Err(e) => {
                return Err(e);
            },
        };
        let crc = crc32(&source);
        let data: Vec<u8> = match compression_type {
            CompressionType::Deflate => deflate_compress(&source, compression_level.value()),
            CompressionType::Stored => source,
        };
        Ok(FileDigest { data, uncompressed_size, crc })
    }

    /// Converts the job into its finished archive entry, dispatching on the
    /// origin: a directory yields the empty directory entry; a filesystem
    /// origin is digested with deflate forced, its attribute word extracted
    /// from the metadata and the metadata-derived records merged in front of
    /// the caller's; an in-memory origin is digested with the requested
    /// method and carries the caller's metadata unchanged. Fails exactly
    /// when the source bytes break the 32-bit size invariant.
    pub fn into_file(self) -> (r: Result<ZipFile, ZipError>)
        ensures
            match self.data_origin {
                ZipJobOrigin::Directory => r matches Ok(f) && is_directory_entry(f, self),
                ZipJobOrigin::Filesystem { metadata, contents } => if contents@.len()
                    <= u32::MAX {
                    r matches Ok(f) && is_filesystem_entry(f, self, metadata, contents@)
                } else {
                    r == Err::<ZipFile, ZipError>(ZipError::SizeOverflow)
                },
                ZipJobOrigin::RawData(data) => if data@.len() <= u32::MAX {
                    r matches Ok(f) && is_raw_data_entry(f, self, data@)
                } else {
                    r == Err::<ZipFile, ZipError>(ZipError::SizeOverflow)
                },
            },
    {
        let ZipJob {
            data_origin,
            extra_fields,
            archive_path,
            file_comment,
            external_attributes,
            compression_level,
            compression_type,
        } = self;
        match data_origin {
            ZipJobOrigin::Directory => Ok(
                ZipFile::directory(archive_path, extra_fields, external_attributes, file_comment),
            ),
            ZipJobOrigin::Filesystem { metadata, contents } => {
                let external_file_attributes = Self::attributes_from_fs(&metadata);
                let mut merged_fields = ExtraFields::new_from_fs(&metadata);
                merged_fields.extend(extra_fields);
                let digest = match Self::compress_file(
                    contents,
                    CompressionType::Deflate,
                    compression_level,
                ) {
                    Ok(d) => d,
                    Err(e) => {
                        return Err(e);
                    },
                };
                Ok(ZipFile {
                    header: ZipFileHeader {
                        compression_type: CompressionType::Deflate,
                        crc: digest.crc,
                        uncompressed_size: digest.uncompressed_size,
                        filename: archive_path,
                        external_file_attributes: (external_file_attributes as u32) << 16,
                        extra_fields: merged_fields,
                        file_comment,
                    },
                    data: digest.data,
                })
            },
            ZipJobOrigin::RawData(data) => {
                let digest = match Self::compress_file(data, compression_type, compression_level) {
                    Ok(d) => d,
                    Err(e) => {
                        return Err(e);
                    },
                };
                Ok(ZipFile {
                    header: ZipFileHeader {
                        compression_type,
                        crc: digest.crc,
                        uncompressed_size: digest.uncompressed_size,
                        filename: archive_path,
                        external_file_attributes: (external_attributes as u32) << 16,
                        extra_fields,
                        file_comment,
                    },
                    data: digest.data,
                })
            },
        }
    }
}

/// Law: converting an in-memory buffer with the stored method yields the
/// bytes themselves as payload, their exact length as the uncompressed size,
/// and their checksum.
pub proof fn lemma_raw_data_stored_identity(job: ZipJob, data: Vec<u8>, f: ZipFile)
    requires
        job.data_origin == ZipJobOrigin::RawData(data),
        job.compression_type == CompressionType::Stored,
        is_raw_data_entry(f, job, data@),
    ensures
        f.data@ == data@,
        f.header.uncompressed_size == data@.len(),
        f.header.crc == crc32_of(data@),
{
}

/// Law: converting an in-memory buffer with the deflate method yields the
/// deflate stream of the bytes as payload, while size and checksum still
/// speak of the uncompressed bytes.
pub proof fn lemma_raw_data_deflate_checksum(job: ZipJob, data: Vec<u8>, f: ZipFile)
    requires
        job.data_origin == ZipJobOrigin::RawData(data),
        job.compression_type == CompressionType::Deflate,
        is_raw_data_entry(f, job, data@),
    ensures
        f.data@ == deflate_of(data@, job.compression_level@),
        f.header.uncompressed_size == data@.len(),
        f.header.crc == crc32_of(data@),
{
}

/// Law: a directory job yields an empty payload and zero uncompressed size,
/// independent of the requested compression method and level (neither is
/// constrained here).
pub proof fn lemma_directory_yields_empty(job: ZipJob, f: ZipFile)
    requires
        job.data_origin == ZipJobOrigin::Directory,
        is_directory_entry(f, job),
    ensures
        f.data@.len() == 0,
        f.header.uncompressed_size == 0,
{
}

/// Law: a filesystem job reports deflate as the used method in its output
/// header, independent of the method the job requested (it is not
/// constrained here).
pub proof fn lemma_filesystem_reports_deflate(
    job: ZipJob,
    metadata: FsMetadata,
    contents: Seq<u8>,
    f: ZipFile,
)
    requires
        is_filesystem_entry(f, job, metadata, contents),
    ensures
        f.header.compression_type == CompressionType::Deflate,
{
}

/// Law: a digest of an empty source has checksum 0 and uncompressed size 0,
/// under either compression method.
pub proof fn lemma_empty_source_digest(d: FileDigest, method: CompressionType, level: int)
    requires
        digest_matches(d, Seq::<u8>::empty(), method, level),
    ensures
        d.crc == 0,
        d.uncompressed_size == 0,
{
}

} // verus!
