use mmap_rs::error::Error;
use mmap_rs::flags::{MmapFlags, UnsafeMmapFlags};
use mmap_rs::os_impl::windows::{
    probed_access, Mmap, MmapOptions, ReleaseAction, WinMapPlan, FILE_MAP_EXECUTE,
    FILE_MAP_LARGE_PAGES, FILE_MAP_READ, FILE_MAP_WRITE, MEM_COMMIT, MEM_DECOMMIT,
    MEM_LARGE_PAGES, MEM_RELEASE, MEM_RESERVE, PAGE_EXECUTE_READ, PAGE_EXECUTE_READWRITE,
    PAGE_EXECUTE_WRITECOPY, PAGE_NOACCESS, PAGE_READONLY, PAGE_READWRITE, PAGE_WRITECOPY,
    SEC_LARGE_PAGES,
};

fn jit_flags() -> UnsafeMmapFlags {
    UnsafeMmapFlags { map_fixed: false, jit: true }
}

fn file_plan(plan: WinMapPlan) -> mmap_rs::os_impl::windows::FileMapPlan {
    match plan {
        WinMapPlan::File(p) => p,
        WinMapPlan::Anonymous(_) => panic!("expected a file-backed plan"),
    }
}

fn anon_plan(plan: WinMapPlan) -> mmap_rs::os_impl::windows::AnonMapPlan {
    match plan {
        WinMapPlan::Anonymous(p) => p,
        WinMapPlan::File(_) => panic!("expected an anonymous plan"),
    }
}

#[test]
fn probes_grant_exactly_the_achievable_access() {
    assert_eq!(
        probed_access(true, true),
        (FILE_MAP_READ | FILE_MAP_WRITE | FILE_MAP_EXECUTE, PAGE_EXECUTE_READWRITE)
    );
    assert_eq!(probed_access(true, false), (FILE_MAP_READ | FILE_MAP_WRITE, PAGE_READWRITE));
    assert_eq!(probed_access(false, true), (FILE_MAP_READ | FILE_MAP_EXECUTE, PAGE_EXECUTE_READ));
    assert_eq!(probed_access(false, false), (FILE_MAP_READ, PAGE_READONLY));
}

#[test]
fn file_backed_plan_splits_size_and_offset() {
    let opts = MmapOptions::new()
        .with_file(Some((12, 0x1_0000_2000)))
        .with_size(0x2_0000_3000);
    let plan = file_plan(opts.map(false, false).unwrap());
    assert_eq!(plan.size_high, 2);
    assert_eq!(plan.size_low, 0x3000);
    assert_eq!(plan.offset_high, 1);
    assert_eq!(plan.offset_low, 0x2000);
    assert_eq!(plan.map_access, FILE_MAP_READ);
    assert_eq!(plan.map_protection, PAGE_READONLY);
    assert_eq!(plan.protect, PAGE_READONLY);
}

#[test]
fn huge_pages_widen_file_mapping_words() {
    let mut flags = MmapFlags::empty();
    flags.huge_pages = true;
    let opts = MmapOptions::new().with_file(Some((3, 0))).with_size(4096).with_flags(flags);
    let plan = file_plan(opts.map(true, false).unwrap());
    assert_eq!(plan.map_access, FILE_MAP_READ | FILE_MAP_WRITE | FILE_MAP_LARGE_PAGES);
    assert_eq!(plan.map_protection, PAGE_READWRITE | SEC_LARGE_PAGES);
}

#[test]
fn anonymous_plan_commits_a_reservation() {
    let opts = MmapOptions::new().with_size(8192).with_address(Some(0x4000_0000));
    let plan = anon_plan(opts.map_mut(false, false).unwrap());
    assert_eq!(plan.alloc_flags, MEM_COMMIT | MEM_RESERVE);
    assert_eq!(plan.address, Some(0x4000_0000));
    assert_eq!(plan.size, 8192);
    assert_eq!(plan.protect, PAGE_READWRITE);
}

#[test]
fn anonymous_huge_pages_use_large_page_allocation() {
    let mut flags = MmapFlags::empty();
    flags.huge_pages = true;
    let opts = MmapOptions::new().with_size(1 << 21).with_flags(flags);
    let plan = anon_plan(opts.map_none(false, false).unwrap());
    assert_eq!(plan.alloc_flags, MEM_COMMIT | MEM_RESERVE | MEM_LARGE_PAGES);
    assert_eq!(plan.protect, PAGE_NOACCESS);
}

#[test]
fn copy_on_write_requests_write_copy_pages() {
    let mut flags = MmapFlags::empty();
    flags.copy_on_write = true;
    let opts = MmapOptions::new().with_size(4096).with_flags(flags);
    let plan = anon_plan(opts.map_mut(false, false).unwrap());
    assert_eq!(plan.protect, PAGE_WRITECOPY);
    assert!(plan.cow);
}

#[test]
fn win_map_exec_mut_requires_jit_flag() {
    let opts = MmapOptions::new().with_size(4096);
    let err = opts.map_exec_mut(true, true).unwrap_err();
    assert_eq!(err, Error::UnsafeFlagNeeded(jit_flags()));
    let granted = opts.with_unsafe_flags(jit_flags());
    let plan = anon_plan(granted.map_exec_mut(true, true).unwrap());
    assert_eq!(plan.protect, PAGE_EXECUTE_READWRITE);
    assert!(plan.jit);
}

#[test]
fn win_transitions_follow_creation_attributes() {
    let plain = Mmap::new(0x1000, 4096, false, false, false);
    assert_eq!(plain.make_read_only().unwrap().protect, PAGE_READONLY);
    assert_eq!(plain.make_none().unwrap().protect, PAGE_NOACCESS);
    assert_eq!(plain.make_exec().unwrap().protect, PAGE_EXECUTE_READ);
    assert_eq!(plain.make_mut().unwrap().protect, PAGE_READWRITE);
    let cow = Mmap::new(0x1000, 4096, true, true, true);
    assert_eq!(cow.make_mut().unwrap().protect, PAGE_WRITECOPY);
    assert_eq!(cow.make_exec_mut().unwrap().protect, PAGE_EXECUTE_WRITECOPY);
    let err = plain.make_exec_mut().unwrap_err();
    assert_eq!(err, Error::UnsafeFlagNeeded(jit_flags()));
}

#[test]
fn win_flush_async_on_empty_or_inverted_range_is_a_no_op() {
    let mapping = Mmap::new(0x1000, 4096, true, false, false);
    assert!(mapping.flush_async(0, 0).is_none());
    assert!(mapping.flush_async(9, 3).is_none());
    assert!(mapping.flush_async(10000, 5000).is_none());
    let call = mapping.flush_async(0x10, 0x20).unwrap();
    assert_eq!(call.addr, 0x1010);
    assert_eq!(call.len, 0x10);
}

#[test]
fn win_flush_syncs_the_backing_file_only_when_present() {
    let file_backed = Mmap::new(0x1000, 4096, true, false, false);
    let plan = file_backed.flush(0, 0);
    assert!(plan.view.is_none());
    assert!(plan.sync_file);
    let anon = Mmap::new(0x1000, 4096, false, false, false);
    assert!(!anon.flush(0, 16).sync_file);
}

#[test]
fn release_unmaps_views_and_frees_allocations() {
    let file_backed = Mmap::new(0x1000, 4096, true, false, false);
    assert_eq!(file_backed.release_action(), ReleaseAction::UnmapView);
    let anon = Mmap::new(0x1000, 4096, false, false, false);
    assert_eq!(anon.release_action(), ReleaseAction::Free(MEM_DECOMMIT | MEM_RELEASE));
}
