use mmap_rs::areas::{MemoryArea, Protection, ShareMode};
use mmap_rs::os_impl::linux::{parse_memory_area, MemoryAreas};

fn parse(line: &str) -> Option<MemoryArea> {
    parse_memory_area(line.as_bytes())
}

#[test]
fn parses_literal_libc_line() {
    let area = parse("7f1234560000-7f1234580000 r--p 00001000 08:01 123456 /lib/libc.so").unwrap();
    assert_eq!(area.start, 0x7f1234560000);
    assert_eq!(area.end, 0x7f1234580000);
    assert_eq!(area.protection, Protection { read: true, write: false, execute: false });
    // A private region with a backing path is reclassified as copy-on-write:
    // that is what a private file-backed mapping means.
    assert_eq!(area.share_mode, ShareMode::CopyOnWrite);
    assert_eq!(area.path, Some((b"/lib/libc.so".to_vec(), 0x1000u64)));
}

#[test]
fn private_without_path_stays_private() {
    let area = parse("00400000-00452000 rw-p 00000000 00:00 0").unwrap();
    assert_eq!(area.share_mode, ShareMode::Private);
    assert_eq!(area.path, None);
    assert_eq!(area.protection, Protection { read: true, write: true, execute: false });
}

#[test]
fn shared_with_path_stays_shared() {
    let area = parse("7f0000000000-7f0000001000 r-xs 00000000 08:01 42 /usr/bin/tool").unwrap();
    assert_eq!(area.share_mode, ShareMode::Shared);
    assert_eq!(area.protection, Protection { read: true, write: false, execute: true });
    assert_eq!(area.path, Some((b"/usr/bin/tool".to_vec(), 0u64)));
}

#[test]
fn path_keeps_embedded_spaces() {
    let area = parse("1000-2000 r--p 00000000 08:01 7 /tmp/with space.so").unwrap();
    assert_eq!(area.path, Some((b"/tmp/with space.so".to_vec(), 0u64)));
}

#[test]
fn no_permission_dashes_parse() {
    let area = parse("1000-2000 ---p 00000000 00:00 0").unwrap();
    assert_eq!(area.protection, Protection { read: false, write: false, execute: false });
}

#[test]
fn truncated_line_yields_nothing() {
    assert!(parse("7f1234560000-7f1234580000").is_none());
}

#[test]
fn missing_dash_yields_nothing() {
    assert!(parse("7f1234560000 r--p 00001000 08:01 123456").is_none());
}

#[test]
fn bad_share_flag_yields_nothing() {
    assert!(parse("1000-2000 r--q 00000000 00:00 0").is_none());
}

#[test]
fn address_overflow_yields_nothing() {
    // Seventeen hexadecimal digits exceed a 64-bit address.
    assert!(parse("fffffffffffffffff-2000 r--p 00000000 00:00 0").is_none());
}

#[test]
fn device_id_overflow_yields_nothing() {
    // Each half of the device id must fit a byte.
    assert!(parse("1000-2000 r--p 00000000 108:01 0").is_none());
}

#[test]
fn missing_inode_yields_nothing() {
    assert!(parse("1000-2000 r--p 00000000 08:01").is_none());
}

#[test]
fn empty_line_yields_nothing() {
    assert!(parse("").is_none());
}

#[test]
fn reader_skips_malformed_line_and_continues() {
    let listing = b"7f1234560000-7f1234580000\n\
        1000-2000 rw-p 00000000 00:00 0\n\
        3000-4000 r--s 00000000 08:01 5 /tmp/file\n"
        .to_vec();
    let mut areas = MemoryAreas::from_bytes(listing);
    let first = areas.next().unwrap();
    assert_eq!(first.start, 0x1000);
    assert_eq!(first.end, 0x2000);
    let second = areas.next().unwrap();
    assert_eq!(second.start, 0x3000);
    assert_eq!(second.share_mode, ShareMode::Shared);
    assert_eq!(second.path, Some((b"/tmp/file".to_vec(), 0u64)));
    assert!(areas.next().is_none());
    assert!(areas.next().is_none());
}

#[test]
fn reader_handles_listing_without_trailing_newline() {
    let listing = b"1000-2000 rw-p 00000000 00:00 0".to_vec();
    let mut areas = MemoryAreas::from_bytes(listing);
    let only = areas.next().unwrap();
    assert_eq!(only.start, 0x1000);
    assert!(areas.next().is_none());
}

#[test]
fn reader_skips_blank_lines() {
    let listing = b"\n\n1000-2000 rw-p 00000000 00:00 0\n\n".to_vec();
    let mut areas = MemoryAreas::from_bytes(listing);
    assert_eq!(areas.next().unwrap().start, 0x1000);
    assert!(areas.next().is_none());
}

#[test]
fn carriage_return_is_not_part_of_the_path() {
    let area = parse("1000-2000 r--p 00000000 08:01 5 /x\r").unwrap();
    assert_eq!(area.path, Some((b"/x".to_vec(), 0u64)));
}

#[test]
fn reader_handles_crlf_line_endings() {
    let listing = b"1000-2000 rw-p 00000000 00:00 0\r\n\
        3000-4000 r--s 00000000 08:01 5 /tmp/file\r\n"
        .to_vec();
    let mut areas = MemoryAreas::from_bytes(listing);
    let first = areas.next().unwrap();
    assert_eq!(first.start, 0x1000);
    assert_eq!(first.path, None);
    let second = areas.next().unwrap();
    assert_eq!(second.path, Some((b"/tmp/file".to_vec(), 0u64)));
    assert!(areas.next().is_none());
}

#[test]
fn hexadecimal_fields_accept_both_letter_cases() {
    let area = parse("AB00-CD00 r--p 0000DEAD 0a:0F 9").unwrap();
    assert_eq!(area.start, 0xab00);
    assert_eq!(area.end, 0xcd00);
    assert_eq!(area.path, None);
}

#[test]
fn offset_is_recorded_only_with_a_path() {
    let with_path = parse("1000-2000 r--p 0000beef 08:01 3 /x").unwrap();
    assert_eq!(with_path.path, Some((b"/x".to_vec(), 0xbeefu64)));
    let without_path = parse("1000-2000 r--p 0000beef 08:01 3").unwrap();
    assert_eq!(without_path.path, None);
}
