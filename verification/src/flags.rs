//! The portable option vocabulary: the safe mapping options, the separately
//! acknowledged unsafe options, and the huge-page size classes.

use vstd::prelude::*;

verus! {

/// The safe mapping options.  Each option is a request; a backend that has no
/// native equivalent for one simply omits it from the translated flag word.
#[derive(Clone, Copy, Debug, PartialEq, Eq, Structural)]
pub struct MmapFlags {
    /// Map privately, redirecting writes to process-private pages.
    pub copy_on_write: bool,
    /// Populate (fault in) the page tables at creation time.
    pub populate: bool,
    /// Do not reserve swap space for the mapping.
    pub no_reserve: bool,
    /// Back the mapping with huge pages of the default size class.
    pub huge_pages: bool,
    /// Lock the pages into physical memory at creation time.
    pub locked: bool,
    /// Hint that the mapping will hold a stack.
    pub stack: bool,
    /// Exclude the mapping from core dumps (best effort).
    pub no_core_dump: bool,
}

impl MmapFlags {
    /// The option set with every option cleared.
    pub open spec fn spec_empty() -> MmapFlags {
        MmapFlags {
            copy_on_write: false,
            populate: false,
            no_reserve: false,
            huge_pages: false,
            locked: false,
            stack: false,
            no_core_dump: false,
        }
    }

    /// No option requested.
    pub fn empty() -> (r: MmapFlags)
        ensures
            r == MmapFlags::spec_empty(),
    {
        MmapFlags {
            copy_on_write: false,
            populate: false,
            no_reserve: false,
            huge_pages: false,
            locked: false,
            stack: false,
            no_core_dump: false,
        }
    }
}

/// The unsafe mapping options.  Setting one of these is the caller's explicit
/// acknowledgement of the danger; `jit` in particular is the only way to
/// obtain a mapping that is writable and executable at once.
#[derive(Clone, Copy, Debug, PartialEq, Eq, Structural)]
pub struct UnsafeMmapFlags {
    /// Place the mapping exactly at the requested address, replacing whatever
    /// was mapped there.
    pub map_fixed: bool,
    /// Allow the mapping to hold write and execute permission together.
    pub jit: bool,
}

impl UnsafeMmapFlags {
    /// The option set with every option cleared.
    pub open spec fn spec_empty() -> UnsafeMmapFlags {
        UnsafeMmapFlags { map_fixed: false, jit: false }
    }

    /// The option set holding exactly the JIT acknowledgement; error values
    /// name it as the missing option.
    pub open spec fn spec_jit() -> UnsafeMmapFlags {
        UnsafeMmapFlags { map_fixed: false, jit: true }
    }

    /// No option requested.
    pub fn empty() -> (r: UnsafeMmapFlags)
        ensures
            r == UnsafeMmapFlags::spec_empty(),
    {
        UnsafeMmapFlags { map_fixed: false, jit: false }
    }
}

/// The huge-page size classes a mapping may request explicitly.
#[derive(Clone, Copy, Debug, PartialEq, Eq, Structural)]
pub enum PageSize {
    _64K,
    _512K,
    _1M,
    _2M,
    _8M,
    _16M,
    _32M,
    _256M,
    _512M,
    _1G,
    _2G,
    _16G,
}

} // verus!
