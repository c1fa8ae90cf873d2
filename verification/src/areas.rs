//! The region vocabulary shared by the mapping backends and the memory-map
//! reader: protection bits, share modes, and the parsed region record.

use vstd::prelude::*;

verus! {

/// The read/write/execute permission combination of a region's pages.
#[derive(Clone, Copy, Debug, PartialEq, Eq, Structural)]
pub struct Protection {
    pub read: bool,
    pub write: bool,
    pub execute: bool,
}

impl Protection {
    /// The permission set with every bit cleared.
    pub open spec fn spec_empty() -> Protection {
        Protection { read: false, write: false, execute: false }
    }

    /// No permission.
    pub fn empty() -> (r: Protection)
        ensures
            r == Protection::spec_empty(),
    {
        Protection { read: false, write: false, execute: false }
    }
}

/// How a region's pages relate to their backing: shared with it, private to
/// the process, or private with writes redirected to process-private copies.
#[derive(Clone, Copy, Debug, PartialEq, Eq, Structural)]
pub enum ShareMode {
    Shared,
    Private,
    CopyOnWrite,
}

/// The mathematical content of one parsed region record.
#[verifier::ext_equal]
pub struct MemoryAreaView {
    pub start: int,
    pub end: int,
    pub protection: Protection,
    pub share_mode: ShareMode,
    pub path: Option<(Seq<u8>, int)>,
}

/// One region of a process's address space, as decoded from a line of its
/// memory-map listing: the address range `[start, end)`, its protection,
/// its share mode, and the backing path with its file offset if the region
/// is file-backed.
#[derive(Clone, Debug, PartialEq, Eq)]
pub struct MemoryArea {
    pub start: usize,
    pub end: usize,
    pub protection: Protection,
    pub share_mode: ShareMode,
    pub path: Option<(Vec<u8>, u64)>,
}

impl View for MemoryArea {
    type V = MemoryAreaView;

    open spec fn view(&self) -> MemoryAreaView {
        MemoryAreaView {
            start: self.start as int,
            end: self.end as int,
            protection: self.protection,
            share_mode: self.share_mode,
            path: match self.path {
                Some((p, o)) => Some((p@, o as int)),
                None => None,
            },
        }
    }
}

} // verus!
