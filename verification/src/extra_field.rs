use vstd::prelude::*;

use crate::metadata::FsMetadata;

verus! {

/// One auxiliary record attached to an entry's header. Records are carried
/// as plain values; how a record is laid out in the archive's bytes is the
/// archive serializer's concern, not this crate's.
#[derive(Clone, Debug, PartialEq, Eq)]
pub enum ExtraField {
    /// A modification timestamp, in seconds since the Unix epoch.
    ModificationTime(u32),
    /// A record of another kind, carried through unchanged: a record kind
    /// and its value bytes. Kinds need not be unique.
    Other { id: u16, data: Vec<u8> },
}

/// The auxiliary records derived from filesystem metadata: a
/// modification-time record when the metadata carries one, nothing
/// otherwise.
pub open spec fn fs_derived_fields(metadata: FsMetadata) -> Seq<ExtraField> {
    match metadata.mtime {
        Some(t) => seq![ExtraField::ModificationTime(t)],
        None => Seq::<ExtraField>::empty(),
    }
}

/// The ordered collection of auxiliary records of one entry. Order is kept,
/// record kinds need not be unique, and merging never drops a record.
#[derive(Clone, Debug, PartialEq, Eq)]
pub struct ExtraFields {
    /// The records, in order.
    pub records: Vec<ExtraField>,
}

impl View for ExtraFields {
    type V = Seq<ExtraField>;

    open spec fn view(&self) -> Seq<ExtraField> {
        self.records@
    }
}

impl ExtraFields {
    /// A collection with no records.
    pub fn new() -> (r: ExtraFields)
        ensures
            r@ == Seq::<ExtraField>::empty(),
    {
        ExtraFields { records: Vec::new() }
    }

    /// The records derived from already-fetched filesystem metadata.
    pub fn new_from_fs(metadata: &FsMetadata) -> (r: ExtraFields)
        ensures
            r@ == fs_derived_fields(*metadata),
    {
        let mut records: Vec<ExtraField> = Vec::new();
        if let Some(t) = metadata.mtime {
            records.push(ExtraField::ModificationTime(t));
        }
        ExtraFields { records }
    }

    /// Appends `other`'s records after the records already present. Both
    /// sets survive in full, in their original order, with no deduplication.
    pub fn extend(&mut self, other: ExtraFields)
        ensures
            final(self)@ == old(self)@ + other@,
    {
        let mut other = other;
        self.records.append(&mut other.records);
    }
}

/// Law: merging one set of records with another loses nothing from either
/// side, whether or not the sets overlap: the merge holds the first set as
/// its prefix and the second as its suffix, each in its original order.
pub proof fn lemma_merge_preserves_records(
    merged: Seq<ExtraField>,
    fs_records: Seq<ExtraField>,
    caller_records: Seq<ExtraField>,
)
    requires
        merged == fs_records + caller_records,
    ensures
        merged.len() == fs_records.len() + caller_records.len(),
        forall|i: int| 0 <= i < fs_records.len() ==> merged[i] == fs_records[i],
        forall|i: int|
            0 <= i < caller_records.len() ==> merged[fs_records.len() + i] == caller_records[i],
{
}

} // verus!
