//! A portable model of operating-system virtual-memory mapping primitives:
//! building anonymous or file-backed mappings, translating portable option
//! sets into native flag words, gating write+execute mappings behind an
//! explicit opt-in, and parsing a process's memory-map listing into
//! structured region records.
//!
//! The modules under `os_impl` model the two mapping backends (the POSIX
//! `mmap`/`mprotect` family and the Windows `VirtualAlloc`/`CreateFileMapping`
//! family) and the Linux memory-map introspection path.  Every decision a
//! backend makes — which native flags to request, which protection word a
//! transition applies, whether a flush needs a system call at all — is
//! computed and specified here; the system calls themselves are issued by
//! the embedding program from the plans these functions return.

pub mod areas;
pub mod error;
pub mod flags;
pub mod os_impl;

pub use areas::MemoryArea;
pub use areas::Protection;
pub use areas::ShareMode;
pub use error::Error;
pub use flags::MmapFlags;
pub use flags::PageSize;
pub use flags::UnsafeMmapFlags;
pub use os_impl::linux::MemoryAreas;
pub use os_impl::unix::Mmap;
pub use os_impl::unix::MmapOptions;
