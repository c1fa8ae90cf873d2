//! The Windows mapping backend, modelled over the `VirtualAlloc` and
//! `CreateFileMapping` family: the probe-then-commit protocol for
//! file-backed mappings, the page-protection words of the five protection
//! levels (with the copy-on-write variants this family distinguishes), and
//! the calls a live mapping's operations issue.
//!
//! Windows refuses to escalate a file-mapping object's protection after
//! creation, so the builder first probes whether the file permits
//! read-write and read-execute mapping objects at all, then commits to the
//! widest achievable access and narrows the pages down to what the caller
//! asked for.  The probes and every other native call are issued by the
//! embedding program; the functions here turn the probe answers and the
//! configuration into the exact call sequence to perform.

use vstd::prelude::*;
use crate::error::Error;
use crate::flags::MmapFlags;
use crate::flags::PageSize;
use crate::flags::UnsafeMmapFlags;

verus! {

/// No access.
pub const PAGE_NOACCESS: u32 = 0x01;

/// Read-only pages.
pub const PAGE_READONLY: u32 = 0x02;

/// Read-write pages.
pub const PAGE_READWRITE: u32 = 0x04;

/// Copy-on-write pages.
pub const PAGE_WRITECOPY: u32 = 0x08;

/// Read-execute pages.
pub const PAGE_EXECUTE_READ: u32 = 0x20;

/// Read-write-execute pages.
pub const PAGE_EXECUTE_READWRITE: u32 = 0x40;

/// Copy-on-write pages that may also be executed.
pub const PAGE_EXECUTE_WRITECOPY: u32 = 0x80;

/// Back a mapping object with large pages.
pub const SEC_LARGE_PAGES: u32 = 0x80000000;

/// Write access to a mapped view.
pub const FILE_MAP_WRITE: u32 = 0x0002;

/// Read access to a mapped view.
pub const FILE_MAP_READ: u32 = 0x0004;

/// Execute access to a mapped view.
pub const FILE_MAP_EXECUTE: u32 = 0x0020;

/// Map a view with large pages.
pub const FILE_MAP_LARGE_PAGES: u32 = 0x20000000;

/// Commit the reserved pages.
pub const MEM_COMMIT: u32 = 0x1000;

/// Reserve the address range.
pub const MEM_RESERVE: u32 = 0x2000;

/// Decommit the pages.
pub const MEM_DECOMMIT: u32 = 0x4000;

/// Release the address range.
pub const MEM_RELEASE: u32 = 0x8000;

/// Allocate with large pages.
pub const MEM_LARGE_PAGES: u32 = 0x20000000;

/// The view-access word and mapping-object protection word achievable for a
/// file, derived from the two probes: whether a read-write mapping object
/// could be created, and whether a read-execute one could.  The access is
/// always at least read; each granted probe widens it, and the object
/// protection is the widest the grants allow.
pub open spec fn spec_probed_access(can_write: bool, can_execute: bool) -> (u32, u32) {
    if can_write && can_execute {
        ((FILE_MAP_READ | FILE_MAP_WRITE) | FILE_MAP_EXECUTE, PAGE_EXECUTE_READWRITE)
    } else if can_write {
        (FILE_MAP_READ | FILE_MAP_WRITE, PAGE_READWRITE)
    } else if can_execute {
        (FILE_MAP_READ | FILE_MAP_EXECUTE, PAGE_EXECUTE_READ)
    } else {
        (FILE_MAP_READ, PAGE_READONLY)
    }
}

/// Derives the achievable view access and mapping-object protection from
/// the two probe answers.
pub fn probed_access(can_write: bool, can_execute: bool) -> (r: (u32, u32))
    ensures
        r == spec_probed_access(can_write, can_execute),
{
    if can_write && can_execute {
        ((FILE_MAP_READ | FILE_MAP_WRITE) | FILE_MAP_EXECUTE, PAGE_EXECUTE_READWRITE)
    } else if can_write {
        (FILE_MAP_READ | FILE_MAP_WRITE, PAGE_READWRITE)
    } else if can_execute {
        (FILE_MAP_READ | FILE_MAP_EXECUTE, PAGE_EXECUTE_READ)
    } else {
        (FILE_MAP_READ, PAGE_READONLY)
    }
}

/// The calls that create a file-backed mapping: which access word and
/// object protection to request from the mapping-object creation, the size
/// and offset split into the 32-bit halves that call takes, and the
/// protection word to narrow the mapped view down to afterwards.  Should
/// that final narrowing fail, the performer must still unmap the view
/// before surfacing the error, so that no partly-created mapping survives.
#[derive(Clone, Copy, Debug, PartialEq, Eq, Structural)]
pub struct FileMapPlan {
    pub map_access: u32,
    pub map_protection: u32,
    pub size_high: u32,
    pub size_low: u32,
    pub offset_high: u32,
    pub offset_low: u32,
    pub size: usize,
    pub protect: u32,
    pub cow: bool,
    pub jit: bool,
}

/// The single allocation call that creates an anonymous mapping.
#[derive(Clone, Copy, Debug, PartialEq, Eq, Structural)]
pub struct AnonMapPlan {
    pub address: Option<usize>,
    pub size: usize,
    pub alloc_flags: u32,
    pub protect: u32,
    pub cow: bool,
    pub jit: bool,
}

/// A creation plan: either the file-backed call sequence or the anonymous
/// allocation.
#[derive(Clone, Copy, Debug, PartialEq, Eq, Structural)]
pub enum WinMapPlan {
    File(FileMapPlan),
    Anonymous(AnonMapPlan),
}

/// Accumulates the configuration of a mapping to be created.  Unlike the
/// POSIX builder, the size is set by a setter rather than at construction.
#[derive(Clone, Copy, Debug, PartialEq, Eq)]
pub struct MmapOptions {
    pub address: Option<usize>,
    pub file: Option<(isize, u64)>,
    pub size: usize,
    pub flags: MmapFlags,
    pub unsafe_flags: UnsafeMmapFlags,
    pub page_size: Option<PageSize>,
}

impl MmapOptions {
    /// A fresh, empty configuration.
    pub fn new() -> (r: MmapOptions)
        ensures
            r.address is None,
            r.file is None,
            r.size == 0,
            r.flags == MmapFlags::spec_empty(),
            r.unsafe_flags == UnsafeMmapFlags::spec_empty(),
            r.page_size is None,
    {
        MmapOptions {
            address: None,
            file: None,
            size: 0,
            flags: MmapFlags::empty(),
            unsafe_flags: UnsafeMmapFlags::empty(),
            page_size: None,
        }
    }

    /// Sets or clears the placement address.
    pub fn with_address(self, address: Option<usize>) -> (r: MmapOptions)
        ensures
            r == (MmapOptions { address, ..self }),
    {
        MmapOptions { address, ..self }
    }

    /// Sets or clears the backing file handle and byte offset.
    pub fn with_file(self, file: Option<(isize, u64)>) -> (r: MmapOptions)
        ensures
            r == (MmapOptions { file, ..self }),
    {
        MmapOptions { file, ..self }
    }

    /// Sets the mapping's size in bytes.
    pub fn with_size(self, size: usize) -> (r: MmapOptions)
        ensures
            r == (MmapOptions { size, ..self }),
    {
        MmapOptions { size, ..self }
    }

    /// Sets the safe option set.
    pub fn with_flags(self, flags: MmapFlags) -> (r: MmapOptions)
        ensures
            r == (MmapOptions { flags, ..self }),
    {
        MmapOptions { flags, ..self }
    }

    /// Sets the unsafe option set; calling this is the caller's explicit
    /// acknowledgement of the dangers those options carry.
    pub fn with_unsafe_flags(self, unsafe_flags: UnsafeMmapFlags) -> (r: MmapOptions)
        ensures
            r == (MmapOptions { unsafe_flags, ..self }),
    {
        MmapOptions { unsafe_flags, ..self }
    }

    /// Sets or clears the explicit huge-page size class.
    pub fn with_page_size(self, page_size: Option<PageSize>) -> (r: MmapOptions)
        ensures
            r == (MmapOptions { page_size, ..self }),
    {
        MmapOptions { page_size, ..self }
    }

    /// The creation plan for this configuration, a requested page
    /// protection, and the two probe answers.  A file-backed mapping
    /// commits to the widest mapping object the probes grant (widened
    /// further by the large-page words when huge pages were requested),
    /// then narrows the view to the requested protection; an anonymous
    /// mapping is one committed reservation at that protection.
    pub open spec fn spec_do_map(
        self,
        protection: u32,
        can_write: bool,
        can_execute: bool,
    ) -> WinMapPlan {
        let probed = spec_probed_access(can_write, can_execute);
        match self.file {
            Some((_, offset)) => {
                let access = if self.flags.huge_pages {
                    probed.0 | FILE_MAP_LARGE_PAGES
                } else {
                    probed.0
                };
                let object_protection = if self.flags.huge_pages {
                    probed.1 | SEC_LARGE_PAGES
                } else {
                    probed.1
                };
                WinMapPlan::File(
                    FileMapPlan {
                        map_access: access,
                        map_protection: object_protection,
                        size_high: (((self.size as u64) >> 32) & 0xffff_ffff) as u32,
                        size_low: ((self.size as u64) & 0xffff_ffff) as u32,
                        offset_high: ((offset >> 32) & 0xffff_ffff) as u32,
                        offset_low: (offset & 0xffff_ffff) as u32,
                        size: self.size,
                        protect: protection,
                        cow: self.flags.copy_on_write,
                        jit: self.unsafe_flags.jit,
                    },
                )
            },
            None => WinMapPlan::Anonymous(
                AnonMapPlan {
                    address: self.address,
                    size: self.size,
                    alloc_flags: if self.flags.huge_pages {
                        (MEM_COMMIT | MEM_RESERVE) | MEM_LARGE_PAGES
                    } else {
                        MEM_COMMIT | MEM_RESERVE
                    },
                    protect: protection,
                    cow: self.flags.copy_on_write,
                    jit: self.unsafe_flags.jit,
                },
            ),
        }
    }

    /// The protection word a read-write request means under this
    /// configuration: copy-on-write pages when that option is set.
    pub open spec fn spec_mut_protection(self) -> u32 {
        if self.flags.copy_on_write {
            PAGE_WRITECOPY
        } else {
            PAGE_READWRITE
        }
    }

    /// The protection word a read-write-execute request means under this
    /// configuration.
    pub open spec fn spec_exec_mut_protection(self) -> u32 {
        if self.flags.copy_on_write {
            PAGE_EXECUTE_WRITECOPY
        } else {
            PAGE_EXECUTE_READWRITE
        }
    }

    /// The outcome of requesting a read-write-execute mapping: refused
    /// without the JIT acknowledgement, granted with it.
    pub open spec fn spec_map_exec_mut(self, can_write: bool, can_execute: bool) -> Result<
        WinMapPlan,
        Error,
    > {
        if !self.unsafe_flags.jit {
            Err(Error::UnsafeFlagNeeded(UnsafeMmapFlags::spec_jit()))
        } else {
            Ok(self.spec_do_map(self.spec_exec_mut_protection(), can_write, can_execute))
        }
    }

    fn do_map(self, protection: u32, can_write: bool, can_execute: bool) -> (r: WinMapPlan)
        ensures
            r == self.spec_do_map(protection, can_write, can_execute),
            r matches WinMapPlan::File(p) ==> p.size_high as int * 0x1_0000_0000 + p.size_low as int
                == self.size as int,
            r matches WinMapPlan::File(p) ==> match self.file {
                Some((_, offset)) => p.offset_high as int * 0x1_0000_0000 + p.offset_low as int
                    == offset as int,
                None => false,
            },
    {
        let probed = probed_access(can_write, can_execute);
        match self.file {
            Some((_, offset)) => {
                let access = if self.flags.huge_pages {
                    probed.0 | FILE_MAP_LARGE_PAGES
                } else {
                    probed.0
                };
                let object_protection = if self.flags.huge_pages {
                    probed.1 | SEC_LARGE_PAGES
                } else {
                    probed.1
                };
                let size64: u64 = self.size as u64;
                proof {
                    assert(((size64 >> 32) & 0xffff_ffff) * 0x1_0000_0000 + (size64 & 0xffff_ffff)
                        == size64) by (bit_vector);
                    assert(((offset >> 32) & 0xffff_ffff) * 0x1_0000_0000 + (offset & 0xffff_ffff)
                        == offset) by (bit_vector);
                    assert((size64 >> 32) & 0xffff_ffff <= 0xffff_ffff) by (bit_vector);
                    assert(size64 & 0xffff_ffff <= 0xffff_ffff) by (bit_vector);
                    assert((offset >> 32) & 0xffff_ffff <= 0xffff_ffff) by (bit_vector);
                    assert(offset & 0xffff_ffff <= 0xffff_ffff) by (bit_vector);
                }
                WinMapPlan::File(
                    FileMapPlan {
                        map_access: access,
                        map_protection: object_protection,
                        size_high: ((size64 >> 32) & 0xffff_ffff) as u32,
                        size_low: (size64 & 0xffff_ffff) as u32,
                        offset_high: ((offset >> 32) & 0xffff_ffff) as u32,
                        offset_low: (offset & 0xffff_ffff) as u32,
                        size: self.size,
                        protect: protection,
                        cow: self.flags.copy_on_write,
                        jit: self.unsafe_flags.jit,
                    },
                )
            },
            None => {
                let alloc_flags = if self.flags.huge_pages {
                    (MEM_COMMIT | MEM_RESERVE) | MEM_LARGE_PAGES
                } else {
                    MEM_COMMIT | MEM_RESERVE
                };
                WinMapPlan::Anonymous(
                    AnonMapPlan {
                        address: self.address,
                        size: self.size,
                        alloc_flags: alloc_flags,
                        protect: protection,
                        cow: self.flags.copy_on_write,
                        jit: self.unsafe_flags.jit,
                    },
                )
            },
        }
    }

    /// Plans a mapping with no access.
    pub fn map_none(self, can_write: bool, can_execute: bool) -> (r: Result<WinMapPlan, Error>)
        ensures
            r == Ok::<WinMapPlan, Error>(self.spec_do_map(PAGE_NOACCESS, can_write, can_execute)),
    {
        Ok(self.do_map(PAGE_NOACCESS, can_write, can_execute))
    }

    /// Plans a read-only mapping.
    pub fn map(self, can_write: bool, can_execute: bool) -> (r: Result<WinMapPlan, Error>)
        ensures
            r == Ok::<WinMapPlan, Error>(self.spec_do_map(PAGE_READONLY, can_write, can_execute)),
    {
        Ok(self.do_map(PAGE_READONLY, can_write, can_execute))
    }

    /// Plans a read-execute mapping.
    pub fn map_exec(self, can_write: bool, can_execute: bool) -> (r: Result<WinMapPlan, Error>)
        ensures
            r == Ok::<WinMapPlan, Error>(
                self.spec_do_map(PAGE_EXECUTE_READ, can_write, can_execute),
            ),
    {
        Ok(self.do_map(PAGE_EXECUTE_READ, can_write, can_execute))
    }

    /// Plans a read-write mapping, as copy-on-write pages when that option
    /// is set.
    pub fn map_mut(self, can_write: bool, can_execute: bool) -> (r: Result<WinMapPlan, Error>)
        ensures
            r == Ok::<WinMapPlan, Error>(
                self.spec_do_map(self.spec_mut_protection(), can_write, can_execute),
            ),
    {
        let protect = if self.flags.copy_on_write {
            PAGE_WRITECOPY
        } else {
            PAGE_READWRITE
        };
        Ok(self.do_map(protect, can_write, can_execute))
    }

    /// Plans a read-write-execute mapping.  The safety gate: refused unless
    /// the JIT unsafe flag was set on this configuration.
    pub fn map_exec_mut(self, can_write: bool, can_execute: bool) -> (r: Result<WinMapPlan, Error>)
        ensures
            r == self.spec_map_exec_mut(can_write, can_execute),
    {
        if !self.unsafe_flags.jit {
            return Err(Error::UnsafeFlagNeeded(UnsafeMmapFlags { map_fixed: false, jit: true }));
        }
        let protect = if self.flags.copy_on_write {
            PAGE_EXECUTE_WRITECOPY
        } else {
            PAGE_EXECUTE_READWRITE
        };
        Ok(self.do_map(protect, can_write, can_execute))
    }
}

/// The page-protection change a transition issues over the mapping's whole
/// range.
#[derive(Clone, Copy, Debug, PartialEq, Eq, Structural)]
pub struct VirtualProtectCall {
    pub addr: usize,
    pub len: usize,
    pub protect: u32,
}

/// The view write-back call a flush issues.
#[derive(Clone, Copy, Debug, PartialEq, Eq, Structural)]
pub struct FlushViewCall {
    pub addr: usize,
    pub len: usize,
}

/// A flush: the view write-back, if any is needed, and whether the backing
/// file's buffers must then be flushed for durability.
#[derive(Clone, Copy, Debug, PartialEq, Eq, Structural)]
pub struct WinFlushPlan {
    pub view: Option<FlushViewCall>,
    pub sync_file: bool,
}

/// How a mapping's range is released when it is dropped: a file-backed view
/// is unmapped, an anonymous range is decommitted and released.
#[derive(Clone, Copy, Debug, PartialEq, Eq, Structural)]
pub enum ReleaseAction {
    UnmapView,
    Free(u32),
}

/// A live mapping's model: the range it owns, whether it is file-backed,
/// and the copy-on-write and JIT attributes fixed at creation.
#[derive(Clone, Copy, Debug, PartialEq, Eq, Structural)]
pub struct Mmap {
    pub addr: usize,
    pub size: usize,
    pub file_backed: bool,
    pub cow: bool,
    pub jit: bool,
}

impl Mmap {
    /// The address range is a well-formed region of the address space.
    pub open spec fn wf(self) -> bool {
        self.addr + self.size <= usize::MAX
    }

    /// Records a mapping the operating system has granted at `addr`.
    pub fn new(addr: usize, size: usize, file_backed: bool, cow: bool, jit: bool) -> (r: Mmap)
        requires
            addr + size <= usize::MAX,
        ensures
            r == (Mmap { addr, size, file_backed, cow, jit }),
            r.wf(),
    {
        Mmap { addr, size, file_backed, cow, jit }
    }

    /// The protection change that transitions this mapping to `protect`.
    pub open spec fn spec_make(self, protect: u32) -> VirtualProtectCall {
        VirtualProtectCall { addr: self.addr, len: self.size, protect: protect }
    }

    /// The outcome of requesting the read-write-execute transition.
    pub open spec fn spec_make_exec_mut(self) -> Result<VirtualProtectCall, Error> {
        if !self.jit {
            Err(Error::UnsafeFlagNeeded(UnsafeMmapFlags::spec_jit()))
        } else if self.cow {
            Ok(self.spec_make(PAGE_EXECUTE_WRITECOPY))
        } else {
            Ok(self.spec_make(PAGE_EXECUTE_READWRITE))
        }
    }

    /// The protection change applying `protect` to the whole range.
    pub fn do_make(&self, protect: u32) -> (r: VirtualProtectCall)
        ensures
            r == self.spec_make(protect),
    {
        VirtualProtectCall { addr: self.addr, len: self.size, protect }
    }

    /// Plans the transition to no access.
    pub fn make_none(&self) -> (r: Result<VirtualProtectCall, Error>)
        ensures
            r == Ok::<VirtualProtectCall, Error>(self.spec_make(PAGE_NOACCESS)),
    {
        Ok(self.do_make(PAGE_NOACCESS))
    }

    /// Plans the transition to read-only.
    pub fn make_read_only(&self) -> (r: Result<VirtualProtectCall, Error>)
        ensures
            r == Ok::<VirtualProtectCall, Error>(self.spec_make(PAGE_READONLY)),
    {
        Ok(self.do_make(PAGE_READONLY))
    }

    /// Plans the transition to read-execute.
    pub fn make_exec(&self) -> (r: Result<VirtualProtectCall, Error>)
        ensures
            r == Ok::<VirtualProtectCall, Error>(self.spec_make(PAGE_EXECUTE_READ)),
    {
        Ok(self.do_make(PAGE_EXECUTE_READ))
    }

    /// Plans the transition to read-write, as copy-on-write pages when the
    /// mapping was created with that option.
    pub fn make_mut(&self) -> (r: Result<VirtualProtectCall, Error>)
        ensures
            self.cow ==> r == Ok::<VirtualProtectCall, Error>(self.spec_make(PAGE_WRITECOPY)),
            !self.cow ==> r == Ok::<VirtualProtectCall, Error>(self.spec_make(PAGE_READWRITE)),
    {
        let protect = if self.cow {
            PAGE_WRITECOPY
        } else {
            PAGE_READWRITE
        };
        Ok(self.do_make(protect))
    }

    /// Plans the transition to read-write-execute.  The same safety gate as
    /// at creation time: refused unless the JIT flag was granted when the
    /// mapping was made.
    pub fn make_exec_mut(&self) -> (r: Result<VirtualProtectCall, Error>)
        ensures
            r == self.spec_make_exec_mut(),
    {
        if !self.jit {
            return Err(Error::UnsafeFlagNeeded(UnsafeMmapFlags { map_fixed: false, jit: true }));
        }
        let protect = if self.cow {
            PAGE_EXECUTE_WRITECOPY
        } else {
            PAGE_EXECUTE_READWRITE
        };
        Ok(self.do_make(protect))
    }

    /// Plans an asynchronous write-back of the byte sub-range `[start,
    /// end)`.  An empty or inverted range — whatever its bounds — needs no
    /// call and is a success by itself; only a non-empty range must end
    /// within the mapping.
    pub fn flush_async(&self, start: usize, end: usize) -> (r: Option<FlushViewCall>)
        requires
            self.wf(),
            start < end ==> end <= self.size,
        ensures
            r is Some <==> start < end,
            r matches Some(c) ==> c.addr == self.addr + start && c.len == end - start,
    {
        if end <= start {
            return None;
        }
        Some(FlushViewCall { addr: self.addr + start, len: end - start })
    }

    /// Plans a synchronous flush: the asynchronous write-back of the
    /// sub-range, followed by flushing the backing file's buffers when the
    /// mapping is file-backed, so the data is durable before returning.
    pub fn flush(&self, start: usize, end: usize) -> (r: WinFlushPlan)
        requires
            self.wf(),
            start < end ==> end <= self.size,
        ensures
            r.view is Some <==> start < end,
            r.view matches Some(c) ==> c.addr == self.addr + start && c.len == end - start,
            r.sync_file == self.file_backed,
    {
        WinFlushPlan { view: self.flush_async(start, end), sync_file: self.file_backed }
    }

    /// How this mapping's range is released on destruction, unconditionally
    /// and without regard to failure: a file-backed view is unmapped, an
    /// anonymous range is decommitted and released.
    pub fn release_action(&self) -> (r: ReleaseAction)
        ensures
            self.file_backed ==> r == ReleaseAction::UnmapView,
            !self.file_backed ==> r == ReleaseAction::Free(MEM_DECOMMIT | MEM_RELEASE),
    {
        if self.file_backed {
            ReleaseAction::UnmapView
        } else {
            ReleaseAction::Free(MEM_DECOMMIT | MEM_RELEASE)
        }
    }
}

/// The safety gate on this backend, stated once over every creation
/// request and every transition: a read-write-execute request is refused
/// exactly when the JIT acknowledgement is absent, the refusal names that
/// flag, and no other protection level is ever gated.
pub proof fn lemma_win_safety_gate(opts: MmapOptions, m: Mmap, can_write: bool, can_execute: bool)
    ensures
        opts.spec_map_exec_mut(can_write, can_execute) is Err <==> !opts.unsafe_flags.jit,
        !opts.unsafe_flags.jit ==> opts.spec_map_exec_mut(can_write, can_execute) == Err::<
            WinMapPlan,
            Error,
        >(Error::UnsafeFlagNeeded(UnsafeMmapFlags::spec_jit())),
        m.spec_make_exec_mut() is Ok <==> m.jit,
        !m.jit ==> m.spec_make_exec_mut() == Err::<VirtualProtectCall, Error>(
            Error::UnsafeFlagNeeded(UnsafeMmapFlags::spec_jit()),
        ),
{
}

} // verus!
