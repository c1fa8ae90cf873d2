//! The POSIX mapping backend, modelled for the Linux family of the `mmap`
//! interface: the translation of portable options into the native `mmap`
//! flag word, the five protection levels, the creation plans the builder
//! produces, and the calls a live mapping's operations issue.
//!
//! The functions here compute every decision the backend makes; the system
//! calls themselves (`mmap`, `mprotect`, `msync`, `madvise`, `munmap`,
//! `mlock`, `munlock`, and the instruction-cache flush) are issued by the
//! embedding program from the plans returned here, since they manipulate
//! raw memory.  The one call made from this module is the page-size query,
//! which is a plain value-to-value question to the kernel.

use vstd::prelude::*;
use crate::error::Error;
use crate::flags::MmapFlags;
use crate::flags::PageSize;
use crate::flags::UnsafeMmapFlags;

verus! {

/// No access.
pub const PROT_NONE: u32 = 0x0;

/// Pages may be read.
pub const PROT_READ: u32 = 0x1;

/// Pages may be written.
pub const PROT_WRITE: u32 = 0x2;

/// Pages may be executed.
pub const PROT_EXEC: u32 = 0x4;

/// Share the mapping with its backing object.
pub const MAP_SHARED: u32 = 0x0001;

/// Keep the mapping private to the process (copy-on-write when file-backed).
pub const MAP_PRIVATE: u32 = 0x0002;

/// Place the mapping exactly at the given address.
pub const MAP_FIXED: u32 = 0x0010;

/// Back the mapping with zero-initialized anonymous pages.
pub const MAP_ANONYMOUS: u32 = 0x0020;

/// Lock the pages into physical memory.
pub const MAP_LOCKED: u32 = 0x2000;

/// Do not reserve swap space.
pub const MAP_NORESERVE: u32 = 0x4000;

/// Populate the page tables at creation time.
pub const MAP_POPULATE: u32 = 0x8000;

/// The mapping will hold a stack.
pub const MAP_STACK: u32 = 0x20000;

/// Back the mapping with huge pages.
pub const MAP_HUGETLB: u32 = 0x40000;

/// Huge-page size classes are encoded as the base-two logarithm of the page
/// size, shifted into the high bits of the flag word.
pub const MAP_HUGE_SHIFT: u32 = 26;

pub const MAP_HUGE_64KB: u32 = 16 << MAP_HUGE_SHIFT;

pub const MAP_HUGE_512KB: u32 = 19 << MAP_HUGE_SHIFT;

pub const MAP_HUGE_1MB: u32 = 20 << MAP_HUGE_SHIFT;

pub const MAP_HUGE_2MB: u32 = 21 << MAP_HUGE_SHIFT;

pub const MAP_HUGE_8MB: u32 = 23 << MAP_HUGE_SHIFT;

pub const MAP_HUGE_16MB: u32 = 24 << MAP_HUGE_SHIFT;

pub const MAP_HUGE_32MB: u32 = 25 << MAP_HUGE_SHIFT;

pub const MAP_HUGE_256MB: u32 = 28 << MAP_HUGE_SHIFT;

pub const MAP_HUGE_512MB: u32 = 29 << MAP_HUGE_SHIFT;

pub const MAP_HUGE_1GB: u32 = 30 << MAP_HUGE_SHIFT;

pub const MAP_HUGE_2GB: u32 = 31 << MAP_HUGE_SHIFT;

pub const MAP_HUGE_16GB: u32 = 34 << MAP_HUGE_SHIFT;

/// The native flag encoding a huge-page size class.
pub open spec fn spec_huge_page_flag(page_size: PageSize) -> u32 {
    match page_size {
        PageSize::_64K => MAP_HUGE_64KB,
        PageSize::_512K => MAP_HUGE_512KB,
        PageSize::_1M => MAP_HUGE_1MB,
        PageSize::_2M => MAP_HUGE_2MB,
        PageSize::_8M => MAP_HUGE_8MB,
        PageSize::_16M => MAP_HUGE_16MB,
        PageSize::_32M => MAP_HUGE_32MB,
        PageSize::_256M => MAP_HUGE_256MB,
        PageSize::_512M => MAP_HUGE_512MB,
        PageSize::_1G => MAP_HUGE_1GB,
        PageSize::_2G => MAP_HUGE_2GB,
        PageSize::_16G => MAP_HUGE_16GB,
    }
}

/// Translates a huge-page size class to its native flag.
pub fn huge_page_flag(page_size: PageSize) -> (r: u32)
    ensures
        r == spec_huge_page_flag(page_size),
{
    match page_size {
        PageSize::_64K => MAP_HUGE_64KB,
        PageSize::_512K => MAP_HUGE_512KB,
        PageSize::_1M => MAP_HUGE_1MB,
        PageSize::_2M => MAP_HUGE_2MB,
        PageSize::_8M => MAP_HUGE_8MB,
        PageSize::_16M => MAP_HUGE_16MB,
        PageSize::_32M => MAP_HUGE_32MB,
        PageSize::_256M => MAP_HUGE_256MB,
        PageSize::_512M => MAP_HUGE_512MB,
        PageSize::_1G => MAP_HUGE_1GB,
        PageSize::_2G => MAP_HUGE_2GB,
        PageSize::_16G => MAP_HUGE_16GB,
    }
}

/// Everything the `mmap` call and its immediate follow-ups need: the address
/// hint, the length, the protection and flag words, the backing descriptor
/// and offset (`-1` and `0` for an anonymous mapping), whether the pages are
/// to be advised out of core dumps afterwards, and whether the resulting
/// mapping was granted the JIT acknowledgement.
#[derive(Clone, Copy, Debug, PartialEq, Eq, Structural)]
pub struct MapPlan {
    pub addr: Option<usize>,
    pub size: usize,
    pub prot: u32,
    pub flags: u32,
    pub fd: i32,
    pub offset: u64,
    pub no_core_dump: bool,
    pub jit: bool,
}

/// Accumulates the configuration of a mapping to be created: address hint,
/// backing file descriptor and offset, size, option sets, and an optional
/// explicit huge-page size class.
#[derive(Clone, Copy, Debug, PartialEq, Eq)]
pub struct MmapOptions {
    pub address: Option<usize>,
    pub file: Option<(i32, u64)>,
    pub size: usize,
    pub flags: MmapFlags,
    pub unsafe_flags: UnsafeMmapFlags,
    pub page_size: Option<PageSize>,
}

impl MmapOptions {
    /// A fresh configuration for a mapping of `size` bytes: no address hint,
    /// anonymous, no options, default page size.
    pub fn new(size: usize) -> (r: MmapOptions)
        ensures
            r.address is None,
            r.file is None,
            r.size == size,
            r.flags == MmapFlags::spec_empty(),
            r.unsafe_flags == UnsafeMmapFlags::spec_empty(),
            r.page_size is None,
    {
        MmapOptions {
            address: None,
            file: None,
            size,
            flags: MmapFlags::empty(),
            unsafe_flags: UnsafeMmapFlags::empty(),
            page_size: None,
        }
    }

    /// Requests placement at the given virtual address.
    pub fn with_address(self, address: usize) -> (r: MmapOptions)
        ensures
            r == (MmapOptions { address: Some(address), ..self }),
    {
        MmapOptions { address: Some(address), ..self }
    }

    /// Backs the mapping with the file behind the given descriptor, starting
    /// at the given byte offset.
    pub fn with_file(self, fd: i32, offset: u64) -> (r: MmapOptions)
        ensures
            r == (MmapOptions { file: Some((fd, offset)), ..self }),
    {
        MmapOptions { file: Some((fd, offset)), ..self }
    }

    /// Sets the safe option set.
    pub fn with_flags(self, flags: MmapFlags) -> (r: MmapOptions)
        ensures
            r == (MmapOptions { flags, ..self }),
    {
        MmapOptions { flags, ..self }
    }

    /// Sets the unsafe option set; calling this is the caller's explicit
    /// acknowledgement of the dangers those options carry.
    pub fn with_unsafe_flags(self, unsafe_flags: UnsafeMmapFlags) -> (r: MmapOptions)
        ensures
            r == (MmapOptions { unsafe_flags, ..self }),
    {
        MmapOptions { unsafe_flags, ..self }
    }

    /// Requests an explicit huge-page size class.
    pub fn with_page_size(self, page_size: PageSize) -> (r: MmapOptions)
        ensures
            r == (MmapOptions { page_size: Some(page_size), ..self }),
    {
        MmapOptions { page_size: Some(page_size), ..self }
    }

    /// The native flag word this configuration translates to.  An anonymous
    /// mapping always carries the anonymous flag; copy-on-write selects a
    /// private mapping and everything else a shared one; a requested
    /// huge-page size class forces the huge-page flag alongside its own
    /// encoding; the core-dump exclusion has no flag here (it is applied by
    /// advice after creation), and the JIT acknowledgement has no native
    /// flag in this family at all.
    pub open spec fn spec_flags(self) -> u32 {
        let f1 = if self.file is None {
            0u32 | MAP_ANONYMOUS
        } else {
            0u32
        };
        let f2 = f1 | (if self.flags.copy_on_write {
            MAP_PRIVATE
        } else {
            MAP_SHARED
        });
        let f3 = if self.flags.populate {
            f2 | MAP_POPULATE
        } else {
            f2
        };
        let f4 = if self.flags.no_reserve {
            f3 | MAP_NORESERVE
        } else {
            f3
        };
        let f5 = if self.flags.huge_pages {
            f4 | MAP_HUGETLB
        } else {
            f4
        };
        let f6 = match self.page_size {
            Some(ps) => (f5 | MAP_HUGETLB) | spec_huge_page_flag(ps),
            None => f5,
        };
        let f7 = if self.flags.locked {
            f6 | MAP_LOCKED
        } else {
            f6
        };
        let f8 = if self.flags.stack {
            f7 | MAP_STACK
        } else {
            f7
        };
        if self.unsafe_flags.map_fixed {
            f8 | MAP_FIXED
        } else {
            f8
        }
    }

    /// Computes the native flag word for this configuration.
    pub fn flags(&self) -> (r: u32)
        ensures
            r == self.spec_flags(),
    {
        let mut flags: u32 = 0;
        if self.file.is_none() {
            flags = flags | MAP_ANONYMOUS;
        }
        flags = flags | (if self.flags.copy_on_write {
            MAP_PRIVATE
        } else {
            MAP_SHARED
        });
        if self.flags.populate {
            flags = flags | MAP_POPULATE;
        }
        if self.flags.no_reserve {
            flags = flags | MAP_NORESERVE;
        }
        if self.flags.huge_pages {
            flags = flags | MAP_HUGETLB;
        }
        match self.page_size {
            Some(ps) => {
                flags = (flags | MAP_HUGETLB) | huge_page_flag(ps);
            },
            None => {},
        }
        if self.flags.locked {
            flags = flags | MAP_LOCKED;
        }
        if self.flags.stack {
            flags = flags | MAP_STACK;
        }
        if self.unsafe_flags.map_fixed {
            flags = flags | MAP_FIXED;
        }
        flags
    }

    /// The creation plan this configuration yields for a requested
    /// protection word.
    pub open spec fn spec_plan(self, prot: u32) -> MapPlan {
        MapPlan {
            addr: self.address,
            size: self.size,
            prot: prot,
            flags: self.spec_flags(),
            fd: match self.file {
                Some((fd, _)) => fd,
                None => -1i32,
            },
            offset: match self.file {
                Some((_, offset)) => offset,
                None => 0u64,
            },
            no_core_dump: self.flags.no_core_dump,
            jit: self.unsafe_flags.jit,
        }
    }

    /// The outcome of requesting a read-write-execute mapping: refused
    /// without the JIT acknowledgement, granted with it.
    pub open spec fn spec_map_exec_mut(self) -> Result<MapPlan, Error> {
        if !self.unsafe_flags.jit {
            Err(Error::UnsafeFlagNeeded(UnsafeMmapFlags::spec_jit()))
        } else {
            Ok(self.spec_plan(PROT_READ | PROT_WRITE | PROT_EXEC))
        }
    }

    fn do_map(self, prot: u32) -> (r: MapPlan)
        ensures
            r == self.spec_plan(prot),
    {
        MapPlan {
            addr: self.address,
            size: self.size,
            prot: prot,
            flags: self.flags(),
            fd: match self.file {
                Some((fd, _)) => fd,
                None => -1,
            },
            offset: match self.file {
                Some((_, offset)) => offset,
                None => 0,
            },
            no_core_dump: self.flags.no_core_dump,
            jit: self.unsafe_flags.jit,
        }
    }

    /// Plans a mapping with no access.
    pub fn map_none(self) -> (r: Result<MapPlan, Error>)
        ensures
            r == Ok::<MapPlan, Error>(self.spec_plan(PROT_NONE)),
    {
        Ok(self.do_map(PROT_NONE))
    }

    /// Plans a read-only mapping.
    pub fn map(self) -> (r: Result<MapPlan, Error>)
        ensures
            r == Ok::<MapPlan, Error>(self.spec_plan(PROT_READ)),
    {
        Ok(self.do_map(PROT_READ))
    }

    /// Plans a read-execute mapping.
    pub fn map_exec(self) -> (r: Result<MapPlan, Error>)
        ensures
            r == Ok::<MapPlan, Error>(self.spec_plan(PROT_READ | PROT_EXEC)),
    {
        Ok(self.do_map(PROT_READ | PROT_EXEC))
    }

    /// Plans a read-write mapping.
    pub fn map_mut(self) -> (r: Result<MapPlan, Error>)
        ensures
            r == Ok::<MapPlan, Error>(self.spec_plan(PROT_READ | PROT_WRITE)),
    {
        Ok(self.do_map(PROT_READ | PROT_WRITE))
    }

    /// Plans a read-write-execute mapping.  This is the safety gate of the
    /// whole library: the request is refused unless the JIT unsafe flag was
    /// set on this configuration.
    pub fn map_exec_mut(self) -> (r: Result<MapPlan, Error>)
        ensures
            r == self.spec_map_exec_mut(),
    {
        if !self.unsafe_flags.jit {
            return Err(Error::UnsafeFlagNeeded(UnsafeMmapFlags { map_fixed: false, jit: true }));
        }
        Ok(self.do_map(PROT_READ | PROT_WRITE | PROT_EXEC))
    }
}

/// Relies on nix::unistd::sysconf with the page-size variable: asks the
/// kernel for the size of a page.  The answer depends on the machine, so
/// nothing is assumed of the value; absence and failure are both folded to
/// `None`, as the caller treats them alike.
#[verifier::external_body]
fn sysconf_page_size() -> (r: Option<i64>) {
    match nix::unistd::sysconf(nix::unistd::SysconfVar::PAGE_SIZE) {
        Ok(Some(v)) => Some(v),
        Ok(None) => None,
        Err(_) => None,
    }
}

/// What the page-size query's answer means: a usable positive figure that
/// fits an address is the page size and the allocation granularity alike
/// (the POSIX family reports one and the same figure for both); any other
/// answer falls back to the customary 4096.
pub open spec fn spec_page_size_from(answer: Option<i64>) -> (usize, usize) {
    match answer {
        Some(v) => if 1 <= v <= usize::MAX {
            (v as usize, v as usize)
        } else {
            (4096usize, 4096usize)
        },
        None => (4096usize, 4096usize),
    }
}

/// Interprets the kernel's page-size answer, value by value.
pub fn page_size_from(answer: Option<i64>) -> (r: (usize, usize))
    ensures
        r == spec_page_size_from(answer),
        r.0 == r.1,
        r.0 >= 1,
{
    match answer {
        Some(v) => {
            if 1 <= v && v as u128 <= usize::MAX as u128 {
                (v as usize, v as usize)
            } else {
                (4096, 4096)
            }
        },
        None => (4096, 4096),
    }
}

/// The page size and allocation granularity of this platform: the kernel's
/// answer interpreted by [`page_size_from`].  The answer itself depends on
/// the machine, so only the shape of the pair can be promised here; what
/// the interpretation does with each possible answer is pinned down by
/// `page_size_from`'s own contract.
pub fn page_size() -> (r: (usize, usize))
    ensures
        r.0 == r.1,
        r.0 >= 1,
{
    page_size_from(sysconf_page_size())
}

/// The `mprotect` call a protection transition issues: the mapping's whole
/// range and the new protection word.
#[derive(Clone, Copy, Debug, PartialEq, Eq, Structural)]
pub struct MprotectCall {
    pub addr: usize,
    pub len: usize,
    pub prot: u32,
}

/// The `msync` call a flush issues: the absolute address of the sub-range
/// and its length.
#[derive(Clone, Copy, Debug, PartialEq, Eq, Structural)]
pub struct FlushCall {
    pub addr: usize,
    pub len: usize,
}

/// A live mapping's model: the address range it owns, the backing
/// descriptor if it is file-backed, and whether the JIT acknowledgement was
/// granted at creation.  The range stays valid exactly as long as the
/// owning value lives.
#[derive(Clone, Copy, Debug, PartialEq, Eq, Structural)]
pub struct Mmap {
    pub addr: usize,
    pub size: usize,
    pub fd: Option<i32>,
    pub jit: bool,
}

impl Mmap {
    /// The address range is a well-formed region of the address space.
    pub open spec fn wf(self) -> bool {
        self.addr + self.size <= usize::MAX
    }

    /// Records a mapping the operating system has granted at `addr`.
    pub fn new(addr: usize, size: usize, fd: Option<i32>, jit: bool) -> (r: Mmap)
        requires
            addr + size <= usize::MAX,
        ensures
            r == (Mmap { addr, size, fd, jit }),
            r.wf(),
    {
        Mmap { addr, size, fd, jit }
    }

    /// The mapping's base address.
    pub fn addr(&self) -> (r: usize)
        ensures
            r == self.addr,
    {
        self.addr
    }

    /// The mapping's size in bytes.
    pub fn size(&self) -> (r: usize)
        ensures
            r == self.size,
    {
        self.size
    }

    /// The backing file descriptor, if the mapping is file-backed.
    pub fn file(&self) -> (r: Option<i32>)
        ensures
            r == self.fd,
    {
        self.fd
    }

    /// The `mprotect` call that transitions this mapping to `prot`.
    pub open spec fn spec_make(self, prot: u32) -> MprotectCall {
        MprotectCall { addr: self.addr, len: self.size, prot: prot }
    }

    /// The outcome of requesting the read-write-execute transition: refused
    /// without the JIT acknowledgement, granted with it.
    pub open spec fn spec_make_exec_mut(self) -> Result<MprotectCall, Error> {
        if !self.jit {
            Err(Error::UnsafeFlagNeeded(UnsafeMmapFlags::spec_jit()))
        } else {
            Ok(self.spec_make(PROT_READ | PROT_WRITE | PROT_EXEC))
        }
    }

    /// Plans the transition to no access.
    pub fn make_none(&self) -> (r: Result<MprotectCall, Error>)
        ensures
            r == Ok::<MprotectCall, Error>(self.spec_make(PROT_NONE)),
    {
        Ok(MprotectCall { addr: self.addr, len: self.size, prot: PROT_NONE })
    }

    /// Plans the transition to read-only.
    pub fn make_read_only(&self) -> (r: Result<MprotectCall, Error>)
        ensures
            r == Ok::<MprotectCall, Error>(self.spec_make(PROT_READ)),
    {
        Ok(MprotectCall { addr: self.addr, len: self.size, prot: PROT_READ })
    }

    /// Plans the transition to read-execute.
    pub fn make_exec(&self) -> (r: Result<MprotectCall, Error>)
        ensures
            r == Ok::<MprotectCall, Error>(self.spec_make(PROT_READ | PROT_EXEC)),
    {
        Ok(MprotectCall { addr: self.addr, len: self.size, prot: PROT_READ | PROT_EXEC })
    }

    /// Plans the transition to read-write.
    pub fn make_mut(&self) -> (r: Result<MprotectCall, Error>)
        ensures
            r == Ok::<MprotectCall, Error>(self.spec_make(PROT_READ | PROT_WRITE)),
    {
        Ok(MprotectCall { addr: self.addr, len: self.size, prot: PROT_READ | PROT_WRITE })
    }

    /// Plans the transition to read-write-execute.  The same safety gate as
    /// at creation time: refused unless the JIT flag was granted when the
    /// mapping was made.
    pub fn make_exec_mut(&self) -> (r: Result<MprotectCall, Error>)
        ensures
            r == self.spec_make_exec_mut(),
    {
        if !self.jit {
            return Err(Error::UnsafeFlagNeeded(UnsafeMmapFlags { map_fixed: false, jit: true }));
        }
        Ok(MprotectCall { addr: self.addr, len: self.size, prot: PROT_READ | PROT_WRITE | PROT_EXEC })
    }

    /// Plans a synchronous write-back of the byte sub-range `[start, end)`.
    /// An empty or inverted range — whatever its bounds — needs no call and
    /// is a success by itself; only a non-empty range must end within the
    /// mapping.
    pub fn flush(&self, start: usize, end: usize) -> (r: Option<FlushCall>)
        requires
            self.wf(),
            start < end ==> end <= self.size,
        ensures
            r is Some <==> start < end,
            r matches Some(c) ==> c.addr == self.addr + start && c.len == end - start,
    {
        if end <= start {
            return None;
        }
        Some(FlushCall { addr: self.addr + start, len: end - start })
    }

    /// Plans an asynchronous write-back of the byte sub-range `[start, end)`:
    /// the same range computation as the synchronous flush, to be issued
    /// without waiting.  An empty or inverted range — whatever its bounds —
    /// needs no call and is a success by itself, on every platform; only a
    /// non-empty range must end within the mapping.
    pub fn flush_async(&self, start: usize, end: usize) -> (r: Option<FlushCall>)
        requires
            self.wf(),
            start < end ==> end <= self.size,
        ensures
            r is Some <==> start < end,
            r matches Some(c) ==> c.addr == self.addr + start && c.len == end - start,
    {
        if end <= start {
            return None;
        }
        Some(FlushCall { addr: self.addr + start, len: end - start })
    }
}

/// The safety gate, stated once over every creation request: a
/// read-write-execute mapping is refused exactly when the configuration
/// lacks the JIT acknowledgement, the refusal names that flag, and none of
/// the other four protection levels is ever gated.
pub proof fn lemma_map_safety_gate(opts: MmapOptions)
    ensures
        opts.spec_map_exec_mut() is Err <==> !opts.unsafe_flags.jit,
        !opts.unsafe_flags.jit ==> opts.spec_map_exec_mut() == Err::<MapPlan, Error>(
            Error::UnsafeFlagNeeded(UnsafeMmapFlags::spec_jit()),
        ),
        opts.unsafe_flags.jit ==> opts.spec_map_exec_mut() == Ok::<MapPlan, Error>(
            opts.spec_plan(PROT_READ | PROT_WRITE | PROT_EXEC),
        ),
{
}

/// Protection transitions carry no hidden state: what a transition returns
/// is a function of the mapping's creation-time attributes alone, the four
/// ungated transitions always succeed, and the gated one succeeds exactly
/// when the JIT flag was granted.  In particular, repeating a transition
/// whose target protection already holds succeeds again with the very same
/// call.
pub proof fn lemma_transition_state_free(m: Mmap)
    ensures
        m.spec_make_exec_mut() is Ok <==> m.jit,
        !m.jit ==> m.spec_make_exec_mut() == Err::<MprotectCall, Error>(
            Error::UnsafeFlagNeeded(UnsafeMmapFlags::spec_jit()),
        ),
        m.jit ==> m.spec_make_exec_mut() == Ok::<MprotectCall, Error>(
            m.spec_make(PROT_READ | PROT_WRITE | PROT_EXEC),
        ),
{
}

} // verus!
