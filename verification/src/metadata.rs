use vstd::prelude::*;

verus! {

/// Where a filesystem entry's native attribute bits come from.
///
/// Exactly one variant applies on a given platform. The caller that fetches
/// the metadata resolves the platform once and fills in the matching variant;
/// the conversion itself never re-derives it.
#[derive(Clone, Copy, Debug)]
pub enum AttributeSource {
    /// Native file-attribute bits of a Windows-family platform.
    WindowsAttributes(u32),
    /// File-mode bits from Linux extended metadata.
    LinuxMode(u32),
    /// POSIX permission-mode bits of another Unix-like platform.
    UnixPermissions(u32),
    /// The platform has no native attribute model.
    Unavailable,
}

/// The portable view of already-fetched filesystem metadata: everything the
/// conversion reads from a filesystem entry besides its contents. No further
/// filesystem access happens once a value of this type exists.
#[derive(Clone, Copy, Debug)]
pub struct FsMetadata {
    /// The platform's native attribute bits, where it has any.
    pub attributes: AttributeSource,
    /// Whether the entry is a directory.
    pub is_dir: bool,
    /// Modification time in seconds since the Unix epoch, where known.
    pub mtime: Option<u32>,
}

} // verus!
