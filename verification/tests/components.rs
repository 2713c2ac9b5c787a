use zipjob::digest::checked_size;
use zipjob::extra_field::{ExtraField, ExtraFields};
use zipjob::file::{ZipFile, DEFAULT_UNIX_DIR_ATTRS, DEFAULT_UNIX_FILE_ATTRS};
use zipjob::job::ZipJob;
use zipjob::level::CompressionLevel;
use zipjob::metadata::{AttributeSource, FsMetadata};
use zipjob::{CompressionType, ZipError};

fn meta(attributes: AttributeSource, is_dir: bool) -> FsMetadata {
    FsMetadata { attributes, is_dir, mtime: None }
}

#[test]
fn size_above_32_bits_is_overflow_error() {
    assert_eq!(
        checked_size(u32::MAX as u64 + 1),
        Err(ZipError::SizeOverflow)
    );
    assert_eq!(checked_size(8_000_000_000), Err(ZipError::SizeOverflow));
}

#[test]
fn size_within_32_bits_is_accepted() {
    assert_eq!(checked_size(0), Ok(0));
    assert_eq!(checked_size(u32::MAX as u64), Ok(u32::MAX));
}

#[test]
fn attributes_truncate_windows_word() {
    let m = meta(AttributeSource::WindowsAttributes(0x12345678), false);
    assert_eq!(ZipJob::attributes_from_fs(&m), 0x5678);
}

#[test]
fn attributes_truncate_linux_mode() {
    let m = meta(AttributeSource::LinuxMode(0o100644), false);
    assert_eq!(ZipJob::attributes_from_fs(&m), 0o100644 as u16);
}

#[test]
fn attributes_truncate_unix_permissions() {
    let m = meta(AttributeSource::UnixPermissions(0xFFFF_8001), false);
    assert_eq!(ZipJob::attributes_from_fs(&m), 0x8001);
}

#[test]
fn attributes_default_for_file_without_native_model() {
    let m = meta(AttributeSource::Unavailable, false);
    assert_eq!(ZipJob::attributes_from_fs(&m), DEFAULT_UNIX_FILE_ATTRS);
}

#[test]
fn attributes_default_for_dir_without_native_model() {
    let m = meta(AttributeSource::Unavailable, true);
    assert_eq!(ZipJob::attributes_from_fs(&m), DEFAULT_UNIX_DIR_ATTRS);
}

#[test]
fn level_scale_is_zero_through_nine() {
    assert!(CompressionLevel::new(0).is_some());
    assert_eq!(CompressionLevel::new(9).map(|l| l.value()), Some(9));
    assert!(CompressionLevel::new(10).is_none());
    assert_eq!(CompressionLevel::new(6).unwrap().value(), 6);
}

#[test]
fn level_default_is_six() {
    assert_eq!(CompressionLevel::default().value(), 6);
}

#[test]
fn records_from_metadata_with_timestamp() {
    let m = FsMetadata {
        attributes: AttributeSource::Unavailable,
        is_dir: false,
        mtime: Some(123),
    };
    assert_eq!(
        ExtraFields::new_from_fs(&m).records,
        vec![ExtraField::ModificationTime(123)]
    );
}

#[test]
fn records_from_metadata_without_timestamp() {
    let m = meta(AttributeSource::Unavailable, false);
    assert_eq!(ExtraFields::new_from_fs(&m).records, Vec::new());
}

#[test]
fn extend_keeps_both_sides_in_order() {
    let mut left = ExtraFields {
        records: vec![
            ExtraField::ModificationTime(1),
            ExtraField::Other { id: 2, data: vec![9] },
        ],
    };
    let right = ExtraFields {
        records: vec![
            ExtraField::ModificationTime(1),
            ExtraField::Other { id: 3, data: vec![] },
        ],
    };
    left.extend(right);
    assert_eq!(
        left.records,
        vec![
            ExtraField::ModificationTime(1),
            ExtraField::Other { id: 2, data: vec![9] },
            ExtraField::ModificationTime(1),
            ExtraField::Other { id: 3, data: vec![] },
        ]
    );
}

#[test]
fn directory_entry_shifts_attributes_high() {
    let entry = ZipFile::directory(
        String::from("d/"),
        ExtraFields::new(),
        0xABCD,
        None,
    );
    assert_eq!(entry.header.external_file_attributes, 0xABCD_0000);
    assert_eq!(entry.header.compression_type, CompressionType::Stored);
    assert_eq!(entry.data, Vec::<u8>::new());
    assert_eq!(entry.header.crc, 0);
    assert_eq!(entry.header.uncompressed_size, 0);
}
