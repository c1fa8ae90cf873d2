use mmap_rs::error::Error;
use mmap_rs::flags::{MmapFlags, PageSize, UnsafeMmapFlags};
use mmap_rs::os_impl::unix::{
    page_size, page_size_from, Mmap, MmapOptions, MAP_ANONYMOUS, MAP_FIXED, MAP_HUGETLB,
    MAP_LOCKED, MAP_NORESERVE, MAP_POPULATE, MAP_PRIVATE, MAP_SHARED, MAP_STACK, PROT_EXEC,
    PROT_NONE, PROT_READ, PROT_WRITE,
};

fn jit_flags() -> UnsafeMmapFlags {
    UnsafeMmapFlags { map_fixed: false, jit: true }
}

#[test]
fn plain_anonymous_map_succeeds() {
    // A valid configuration — no address hint, positive size, no flags —
    // must be granted a read-only mapping plan without any error.
    let plan = MmapOptions::new(4096).map().unwrap();
    assert_eq!(plan.addr, None);
    assert_eq!(plan.size, 4096);
    assert_eq!(plan.prot, PROT_READ);
    assert_eq!(plan.flags, MAP_ANONYMOUS | MAP_SHARED);
    assert_eq!(plan.fd, -1);
    assert_eq!(plan.offset, 0);
    assert!(!plan.no_core_dump);
    assert!(!plan.jit);
}

#[test]
fn copy_on_write_selects_private_mapping() {
    let mut flags = MmapFlags::empty();
    flags.copy_on_write = true;
    let opts = MmapOptions::new(4096).with_flags(flags);
    assert_eq!(opts.flags(), MAP_ANONYMOUS | MAP_PRIVATE);
}

#[test]
fn file_backed_mapping_omits_anonymous_flag() {
    let opts = MmapOptions::new(4096).with_file(7, 0x2000);
    assert_eq!(opts.flags(), MAP_SHARED);
    let plan = opts.map_mut().unwrap();
    assert_eq!(plan.fd, 7);
    assert_eq!(plan.offset, 0x2000);
    assert_eq!(plan.prot, PROT_READ | PROT_WRITE);
}

#[test]
fn every_safe_option_contributes_its_native_flag() {
    let flags = MmapFlags {
        copy_on_write: false,
        populate: true,
        no_reserve: true,
        huge_pages: true,
        locked: true,
        stack: true,
        no_core_dump: true,
    };
    let opts = MmapOptions::new(4096).with_flags(flags);
    let expected =
        MAP_ANONYMOUS | MAP_SHARED | MAP_POPULATE | MAP_NORESERVE | MAP_HUGETLB | MAP_LOCKED
            | MAP_STACK;
    assert_eq!(opts.flags(), expected);
    // The core-dump exclusion has no creation flag: it is applied by advice
    // after the mapping exists.
    let plan = opts.map().unwrap();
    assert!(plan.no_core_dump);
}

#[test]
fn explicit_page_size_forces_huge_pages_with_its_encoding() {
    let opts = MmapOptions::new(1 << 21).with_page_size(PageSize::_2M);
    assert_eq!(opts.flags(), MAP_ANONYMOUS | MAP_SHARED | MAP_HUGETLB | (21 << 26));
    let opts = MmapOptions::new(1 << 16).with_page_size(PageSize::_64K);
    assert_eq!(opts.flags(), MAP_ANONYMOUS | MAP_SHARED | MAP_HUGETLB | (16 << 26));
    let opts = MmapOptions::new(1 << 30).with_page_size(PageSize::_16G);
    assert_eq!(opts.flags(), MAP_ANONYMOUS | MAP_SHARED | MAP_HUGETLB | (34 << 26));
}

#[test]
fn fixed_address_is_an_unsafe_flag() {
    let mut unsafe_flags = UnsafeMmapFlags::empty();
    unsafe_flags.map_fixed = true;
    let opts = MmapOptions::new(4096).with_address(0x7000_0000).with_unsafe_flags(unsafe_flags);
    assert_eq!(opts.flags(), MAP_ANONYMOUS | MAP_SHARED | MAP_FIXED);
    let plan = opts.map().unwrap();
    assert_eq!(plan.addr, Some(0x7000_0000));
}

#[test]
fn map_exec_mut_requires_jit_flag() {
    let err = MmapOptions::new(4096).map_exec_mut().unwrap_err();
    assert_eq!(err, Error::UnsafeFlagNeeded(jit_flags()));
}

#[test]
fn map_exec_mut_succeeds_with_jit_flag() {
    let plan = MmapOptions::new(4096).with_unsafe_flags(jit_flags()).map_exec_mut().unwrap();
    assert_eq!(plan.prot, PROT_READ | PROT_WRITE | PROT_EXEC);
    assert!(plan.jit);
}

#[test]
fn no_other_creation_call_requires_jit() {
    assert!(MmapOptions::new(4096).map_none().is_ok());
    assert!(MmapOptions::new(4096).map().is_ok());
    assert!(MmapOptions::new(4096).map_exec().is_ok());
    assert!(MmapOptions::new(4096).map_mut().is_ok());
}

#[test]
fn creation_protection_levels_are_exact() {
    assert_eq!(MmapOptions::new(1).map_none().unwrap().prot, PROT_NONE);
    assert_eq!(MmapOptions::new(1).map().unwrap().prot, PROT_READ);
    assert_eq!(MmapOptions::new(1).map_exec().unwrap().prot, PROT_READ | PROT_EXEC);
    assert_eq!(MmapOptions::new(1).map_mut().unwrap().prot, PROT_READ | PROT_WRITE);
}

#[test]
fn make_exec_mut_requires_jit_flag() {
    let mapping = Mmap::new(0x1000, 4096, None, false);
    let err = mapping.make_exec_mut().unwrap_err();
    assert_eq!(err, Error::UnsafeFlagNeeded(jit_flags()));
    let granted = Mmap::new(0x1000, 4096, None, true);
    let call = granted.make_exec_mut().unwrap();
    assert_eq!(call.prot, PROT_READ | PROT_WRITE | PROT_EXEC);
    assert_eq!(call.addr, 0x1000);
    assert_eq!(call.len, 4096);
}

#[test]
fn transitions_do_not_require_jit_and_repeat_cleanly() {
    let mapping = Mmap::new(0x1000, 4096, Some(3), false);
    // Repeating a transition whose target already holds succeeds again and
    // produces the very same call.
    let first = mapping.make_read_only().unwrap();
    let second = mapping.make_read_only().unwrap();
    assert_eq!(first, second);
    assert_eq!(first.prot, PROT_READ);
    assert!(mapping.make_none().is_ok());
    assert!(mapping.make_exec().is_ok());
    assert!(mapping.make_mut().is_ok());
    let gated = Mmap::new(0x1000, 4096, Some(3), true);
    let a = gated.make_exec_mut().unwrap();
    let b = gated.make_exec_mut().unwrap();
    assert_eq!(a, b);
}

#[test]
fn flush_async_on_empty_or_inverted_range_is_a_no_op() {
    let mapping = Mmap::new(0x1000, 4096, None, false);
    assert!(mapping.flush_async(0, 0).is_none());
    assert!(mapping.flush_async(100, 100).is_none());
    assert!(mapping.flush_async(200, 100).is_none());
    assert!(mapping.flush(300, 300).is_none());
    // An inverted range is a no-op even when its bounds lie beyond the
    // mapping altogether.
    assert!(mapping.flush_async(10000, 5000).is_none());
    assert!(mapping.flush(10000, 10000).is_none());
}

#[test]
fn flush_covers_the_requested_sub_range() {
    let mapping = Mmap::new(0x1000, 4096, Some(5), false);
    let call = mapping.flush(0x100, 0x300).unwrap();
    assert_eq!(call.addr, 0x1100);
    assert_eq!(call.len, 0x200);
    let call = mapping.flush_async(0, 4096).unwrap();
    assert_eq!(call.addr, 0x1000);
    assert_eq!(call.len, 4096);
}

#[test]
fn mapping_accessors_report_creation_values() {
    let mapping = Mmap::new(0x4000, 123, Some(9), false);
    assert_eq!(mapping.addr(), 0x4000);
    assert_eq!(mapping.size(), 123);
    assert_eq!(mapping.file(), Some(9));
    let anon = Mmap::new(0x4000, 123, None, false);
    assert_eq!(anon.file(), None);
}

#[test]
fn page_size_reports_one_consistent_figure() {
    let (size, granularity) = page_size();
    assert_eq!(size, granularity);
    assert!(size >= 1);
    // Page sizes are powers of two on every supported platform.
    assert_eq!(size & (size - 1), 0);
}

#[test]
fn page_size_interpretation_uses_answer_or_falls_back() {
    // A usable kernel answer is taken as it stands, for both figures.
    assert_eq!(page_size_from(Some(16384)), (16384, 16384));
    assert_eq!(page_size_from(Some(1)), (1, 1));
    // A missing or unusable answer falls back to the customary 4096.
    assert_eq!(page_size_from(None), (4096, 4096));
    assert_eq!(page_size_from(Some(0)), (4096, 4096));
    assert_eq!(page_size_from(Some(-1)), (4096, 4096));
}
