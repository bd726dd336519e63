use vstd::prelude::*;

verus! {

/// Type code the store reports for a file.
pub const ENTRY_TYPE_FILE: u64 = 0;

/// Type code the store reports for a directory.
pub const ENTRY_TYPE_FOLDER: u64 = 1;

/// One child of a listed directory of the source store.
#[derive(Clone, Debug, PartialEq, Eq)]
pub struct Entry {
    pub name: String,
    pub hash: String,
    /// Byte count; zero for directories.
    pub size: u64,
    /// Type code as reported by the store (see `ENTRY_TYPE_FILE`, `ENTRY_TYPE_FOLDER`).
    pub typ: u64,
}

#[derive(PartialEq, Eq, Structural, Clone, Copy, Debug)]
pub enum EntryKind {
    File,
    Directory,
    Other,
}

pub open spec fn kind_of(typ: u64) -> EntryKind {
    if typ == ENTRY_TYPE_FILE {
        EntryKind::File
    } else if typ == ENTRY_TYPE_FOLDER {
        EntryKind::Directory
    } else {
        EntryKind::Other
    }
}

/// The processing order of entries: by type code, then by size, both ascending.
pub open spec fn key_le(a: Entry, b: Entry) -> bool {
    a.typ < b.typ || (a.typ == b.typ && a.size <= b.size)
}

impl Entry {
    pub fn new(name: String, hash: String, size: u64, typ: u64) -> (r: Entry)
        ensures
            r.name == name,
            r.hash == hash,
            r.size == size,
            r.typ == typ,
    {
        Entry { name, hash, size, typ }
    }

    pub fn kind(&self) -> (r: EntryKind)
        ensures
            r == kind_of(self.typ),
    {
        if self.typ == ENTRY_TYPE_FILE {
            EntryKind::File
        } else if self.typ == ENTRY_TYPE_FOLDER {
            EntryKind::Directory
        } else {
            EntryKind::Other
        }
    }

    /// Whether `self` is processed no later than `other`.
    pub fn key_le(&self, other: &Entry) -> (r: bool)
        ensures
            r == key_le(*self, *other),
    {
        self.typ < other.typ || (self.typ == other.typ && self.size <= other.size)
    }
}

} // verus!
