//! The Linux memory-map introspection path: a verified parser for the
//! line-oriented memory-map listing of a process, and a forward-only reader
//! over a listing's bytes.
//!
//! A line describes one region: a hexadecimal start and end address joined
//! by `-`, four single-character permission flags, a hexadecimal file
//! offset, a hexadecimal major:minor device id, a decimal inode number
//! (read and discarded), and an optional trailing path.  A line that does
//! not match the grammar yields no record and the reader simply moves on to
//! the next line.  Opening the listing itself is input/output and is done
//! by the embedding program, which hands the bytes read to [`MemoryAreas`].

use vstd::prelude::*;
use crate::areas::MemoryArea;
use crate::areas::MemoryAreaView;
use crate::areas::Protection;
use crate::areas::ShareMode;

verus! {

/// ASCII `0`.
pub const B0: u8 = 0x30;

/// ASCII `9`.
pub const B9: u8 = 0x39;

/// ASCII `a`.
pub const BA_LOWER: u8 = 0x61;

/// ASCII `f`.
pub const BF_LOWER: u8 = 0x66;

/// ASCII `A`.
pub const BA_UPPER: u8 = 0x41;

/// ASCII `F`.
pub const BF_UPPER: u8 = 0x46;

/// ASCII space.
pub const B_SPACE: u8 = 0x20;

/// ASCII horizontal tab.
pub const B_TAB: u8 = 0x09;

/// ASCII line feed.
pub const B_NL: u8 = 0x0a;

/// ASCII carriage return.
pub const B_CR: u8 = 0x0d;

/// ASCII `-`.
pub const B_DASH: u8 = 0x2d;

/// ASCII `:`.
pub const B_COLON: u8 = 0x3a;

/// ASCII `r`.
pub const B_R: u8 = 0x72;

/// ASCII `w`.
pub const B_W: u8 = 0x77;

/// ASCII `x`.
pub const B_X: u8 = 0x78;

/// ASCII `s`.
pub const B_S: u8 = 0x73;

/// ASCII `p`.
pub const B_P: u8 = 0x70;

/// A hexadecimal digit, in either letter case.
pub open spec fn is_hex_digit(b: u8) -> bool {
    (B0 <= b <= B9) || (BA_LOWER <= b <= BF_LOWER) || (BA_UPPER <= b <= BF_UPPER)
}

/// A decimal digit.
pub open spec fn is_dec_digit(b: u8) -> bool {
    B0 <= b <= B9
}

/// An ASCII whitespace byte, the separator class between the fields of a
/// line.
pub open spec fn is_space(b: u8) -> bool {
    b == B_SPACE || b == B_TAB || b == B_NL || b == 0x0b || b == 0x0c || b == B_CR
}

/// The numeric value of a hexadecimal digit.
pub open spec fn hex_digit_value(b: u8) -> int {
    if B0 <= b <= B9 {
        b - B0
    } else if BA_LOWER <= b <= BF_LOWER {
        b - BA_LOWER + 10
    } else {
        b - BA_UPPER + 10
    }
}

/// The end of the run of hexadecimal digits starting at `i` and stopping no
/// later than `hi`.
pub open spec fn hex_end(s: Seq<u8>, i: int, hi: int) -> int
    decreases hi - i,
{
    if i < hi && is_hex_digit(s[i]) {
        hex_end(s, i + 1, hi)
    } else {
        i
    }
}

/// The end of the run of decimal digits starting at `i`.
pub open spec fn dec_end(s: Seq<u8>, i: int, hi: int) -> int
    decreases hi - i,
{
    if i < hi && is_dec_digit(s[i]) {
        dec_end(s, i + 1, hi)
    } else {
        i
    }
}

/// The end of the run of whitespace starting at `i`.
pub open spec fn space_end(s: Seq<u8>, i: int, hi: int) -> int
    decreases hi - i,
{
    if i < hi && is_space(s[i]) {
        space_end(s, i + 1, hi)
    } else {
        i
    }
}

/// The end of the run of non-newline bytes starting at `i`.
pub open spec fn nonnl_end(s: Seq<u8>, i: int, hi: int) -> int
    decreases hi - i,
{
    if i < hi && s[i] != B_NL {
        nonnl_end(s, i + 1, hi)
    } else {
        i
    }
}

/// A byte that may stand in a path: anything but the line end and the
/// carriage return that a listing with CRLF line endings would otherwise
/// leave dangling at the end of the path.
pub open spec fn is_path_byte(b: u8) -> bool {
    b != B_NL && b != B_CR
}

/// The end of the run of path bytes starting at `i`.
pub open spec fn path_run_end(s: Seq<u8>, i: int, hi: int) -> int
    decreases hi - i,
{
    if i < hi && is_path_byte(s[i]) {
        path_run_end(s, i + 1, hi)
    } else {
        i
    }
}

/// The value of the hexadecimal digit run `[i, j)`, most significant digit
/// first.
pub open spec fn hex_value(s: Seq<u8>, i: int, j: int) -> int
    decreases j - i,
{
    if i >= j {
        0
    } else {
        hex_value(s, i, j - 1) * 16 + hex_digit_value(s[j - 1])
    }
}

/// A non-newline run's end never moves left, and never past the bound.
pub proof fn lemma_nonnl_end_bounds(s: Seq<u8>, i: int, hi: int)
    requires
        i <= hi,
    ensures
        i <= nonnl_end(s, i, hi) <= hi,
    decreases hi - i,
{
    if i < hi && s[i] != B_NL {
        lemma_nonnl_end_bounds(s, i + 1, hi);
    }
}

/// The numeric value of a hexadecimal digit.
fn hex_digit_val(b: u8) -> (r: u8)
    requires
        is_hex_digit(b),
    ensures
        r as int == hex_digit_value(b),
        r < 16,
{
    if B0 <= b && b <= B9 {
        b - B0
    } else if BA_LOWER <= b && b <= BF_LOWER {
        b - BA_LOWER + 10
    } else {
        b - BA_UPPER + 10
    }
}

/// Scans the run of hexadecimal digits starting at `from` and accumulates
/// its value.  Returns the value and the end of the run, or nothing when
/// the run is empty or its value exceeds `bound` (as a number too large for
/// the field it stands in makes the whole line malformed).
fn scan_hex(s: &[u8], from: usize, hi: usize, bound: u128) -> (r: Option<(u128, usize)>)
    requires
        from <= hi <= s@.len(),
        bound <= 0xffff_ffff_ffff_ffffu128,
    ensures
        ({
            let end = hex_end(s@, from as int, hi as int);
            match r {
                Some(p) => from < p.1 && p.1 == end && p.0 as int == hex_value(
                    s@,
                    from as int,
                    end,
                ) && p.0 <= bound && p.1 <= hi,
                None => end == from as int || hex_value(s@, from as int, end) > bound,
            }
        }),
{
    let ghost gfrom = from as int;
    let ghost ghi = hi as int;
    let mut i: usize = from;
    let mut val: u128 = 0;
    let mut over: bool = false;
    while i < hi && ((B0 <= s[i] && s[i] <= B9) || (BA_LOWER <= s[i] && s[i] <= BF_LOWER) || (
    BA_UPPER <= s[i] && s[i] <= BF_UPPER))
        invariant
            from <= i <= hi <= s@.len(),
            bound <= 0xffff_ffff_ffff_ffffu128,
            gfrom == from as int,
            ghi == hi as int,
            forall|k: int| gfrom <= k < i ==> is_hex_digit(s@[k]),
            hex_end(s@, gfrom, ghi) == hex_end(s@, i as int, ghi),
            over <==> hex_value(s@, gfrom, i as int) > bound,
            !over ==> val as int == hex_value(s@, gfrom, i as int) && val <= bound,
        decreases hi - i,
    {
        let d = hex_digit_val(s[i]);
        proof {
            assert(hex_value(s@, gfrom, i + 1) == hex_value(s@, gfrom, i as int) * 16
                + hex_digit_value(s@[i as int]));
        }
        if !over {
            let nv: u128 = val * 16 + d as u128;
            if nv > bound {
                over = true;
            } else {
                val = nv;
            }
        }
        i = i + 1;
    }
    if over || i == from {
        None
    } else {
        Some((val, i))
    }
}

/// Skips the run of whitespace starting at `from`.
fn skip_space(s: &[u8], from: usize, hi: usize) -> (r: usize)
    requires
        from <= hi <= s@.len(),
    ensures
        r as int == space_end(s@, from as int, hi as int),
        from <= r <= hi,
{
    let mut i: usize = from;
    while i < hi && (s[i] == B_SPACE || s[i] == B_TAB || s[i] == B_NL || s[i] == 0x0b || s[i]
        == 0x0c || s[i] == B_CR)
        invariant
            from <= i <= hi <= s@.len(),
            space_end(s@, from as int, hi as int) == space_end(s@, i as int, hi as int),
        decreases hi - i,
    {
        i = i + 1;
    }
    i
}

/// Skips the run of decimal digits starting at `from`.
fn skip_dec(s: &[u8], from: usize, hi: usize) -> (r: usize)
    requires
        from <= hi <= s@.len(),
    ensures
        r as int == dec_end(s@, from as int, hi as int),
        from <= r <= hi,
{
    let mut i: usize = from;
    while i < hi && B0 <= s[i] && s[i] <= B9
        invariant
            from <= i <= hi <= s@.len(),
            dec_end(s@, from as int, hi as int) == dec_end(s@, i as int, hi as int),
        decreases hi - i,
    {
        i = i + 1;
    }
    i
}

/// Skips the run of non-newline bytes starting at `from`.
fn skip_nonnl(s: &[u8], from: usize, hi: usize) -> (r: usize)
    requires
        from <= hi <= s@.len(),
    ensures
        r as int == nonnl_end(s@, from as int, hi as int),
        from <= r <= hi,
{
    let mut i: usize = from;
    while i < hi && s[i] != B_NL
        invariant
            from <= i <= hi <= s@.len(),
            nonnl_end(s@, from as int, hi as int) == nonnl_end(s@, i as int, hi as int),
        decreases hi - i,
    {
        i = i + 1;
    }
    i
}

/// Skips the run of path bytes starting at `from`.
fn skip_path_run(s: &[u8], from: usize, hi: usize) -> (r: usize)
    requires
        from <= hi <= s@.len(),
    ensures
        r as int == path_run_end(s@, from as int, hi as int),
        from <= r <= hi,
{
    let mut i: usize = from;
    while i < hi && s[i] != B_NL && s[i] != B_CR
        invariant
            from <= i <= hi <= s@.len(),
            path_run_end(s@, from as int, hi as int) == path_run_end(s@, i as int, hi as int),
        decreases hi - i,
    {
        i = i + 1;
    }
    i
}

/// What the bytes `[lo, hi)` of a listing line denote, if anything: the
/// grammar of one region line, read left to right.  A hexadecimal start and
/// end address joined by `-`, then — each field separated from the next by
/// any amount of whitespace — four fixed permission characters, a
/// hexadecimal file offset, a hexadecimal `major:minor` device id whose
/// halves must fit a byte, a non-empty decimal inode number, and finally an
/// optional path running to the end of the line, a carriage return left by
/// a CRLF line ending excluded.  A numeric field too large
/// for its machine type makes the line malformed.  A private region with a
/// path is reclassified as copy-on-write, that being what a private
/// file-backed mapping means.
pub open spec fn parse_line_spec(s: Seq<u8>, lo: int, hi: int) -> Option<MemoryAreaView> {
    let start_end = hex_end(s, lo, hi);
    if start_end == lo || hex_value(s, lo, start_end) > usize::MAX as int {
        None
    } else if !(start_end < hi && s[start_end] == B_DASH) {
        None
    } else {
        let end_end = hex_end(s, start_end + 1, hi);
        if end_end == start_end + 1 || hex_value(s, start_end + 1, end_end) > usize::MAX as int {
            None
        } else {
            let perms = space_end(s, end_end, hi);
            if perms + 4 > hi {
                None
            } else {
                let c_r = s[perms];
                let c_w = s[perms + 1];
                let c_x = s[perms + 2];
                let c_s = s[perms + 3];
                if !((c_r == B_R || c_r == B_DASH) && (c_w == B_W || c_w == B_DASH) && (c_x == B_X
                    || c_x == B_DASH) && (c_s == B_S || c_s == B_P)) {
                    None
                } else {
                    let off = space_end(s, perms + 4, hi);
                    let off_end = hex_end(s, off, hi);
                    if off_end == off || hex_value(s, off, off_end) > u64::MAX as int {
                        None
                    } else {
                        let maj = space_end(s, off_end, hi);
                        let maj_end = hex_end(s, maj, hi);
                        if maj_end == maj || hex_value(s, maj, maj_end) > 255 {
                            None
                        } else if !(maj_end < hi && s[maj_end] == B_COLON) {
                            None
                        } else {
                            let min_end = hex_end(s, maj_end + 1, hi);
                            if min_end == maj_end + 1 || hex_value(s, maj_end + 1, min_end) > 255 {
                                None
                            } else {
                                let ino = space_end(s, min_end, hi);
                                let ino_end = dec_end(s, ino, hi);
                                if ino_end == ino {
                                    None
                                } else {
                                    let pstart = space_end(s, ino_end, hi);
                                    let pend = path_run_end(s, pstart, hi);
                                    let raw_share = if c_s == B_S {
                                        ShareMode::Shared
                                    } else {
                                        ShareMode::Private
                                    };
                                    let path = if pend > pstart {
                                        Some((s.subrange(pstart, pend), hex_value(s, off, off_end)))
                                    } else {
                                        None
                                    };
                                    let share_mode = if path is Some && raw_share
                                        == ShareMode::Private {
                                        ShareMode::CopyOnWrite
                                    } else {
                                        raw_share
                                    };
                                    Some(
                                        MemoryAreaView {
                                            start: hex_value(s, lo, start_end),
                                            end: hex_value(s, start_end + 1, end_end),
                                            protection: Protection {
                                                read: c_r == B_R,
                                                write: c_w == B_W,
                                                execute: c_x == B_X,
                                            },
                                            share_mode: share_mode,
                                            path: path,
                                        },
                                    )
                                }
                            }
                        }
                    }
                }
            }
        }
    }
}

/// Parses the bytes `[lo, hi)` of a listing as one region line, yielding
/// exactly the record the line grammar assigns to them, and nothing when
/// the grammar assigns none.
pub fn parse_memory_area_in(s: &[u8], lo: usize, hi: usize) -> (r: Option<MemoryArea>)
    requires
        lo <= hi <= s@.len(),
    ensures
        r matches Some(a) ==> parse_line_spec(s@, lo as int, hi as int) == Some(a@),
        r is None ==> parse_line_spec(s@, lo as int, hi as int) is None,
{
    let ghost glo = lo as int;
    let ghost ghi = hi as int;
    let (start_val, start_end) = match scan_hex(s, lo, hi, usize::MAX as u128) {
        Some(p) => p,
        None => { return None; },
    };
    if start_end >= hi {
        return None;
    }
    if s[start_end] != B_DASH {
        return None;
    }
    let (end_val, end_end) = match scan_hex(s, start_end + 1, hi, usize::MAX as u128) {
        Some(p) => p,
        None => { return None; },
    };
    let perms = skip_space(s, end_end, hi);
    if hi - perms < 4 {
        return None;
    }
    let c_r = s[perms];
    let c_w = s[perms + 1];
    let c_x = s[perms + 2];
    let c_s = s[perms + 3];
    if !((c_r == B_R || c_r == B_DASH) && (c_w == B_W || c_w == B_DASH) && (c_x == B_X || c_x
        == B_DASH) && (c_s == B_S || c_s == B_P)) {
        return None;
    }
    let off = skip_space(s, perms + 4, hi);
    let (offset_val, off_end) = match scan_hex(s, off, hi, u64::MAX as u128) {
        Some(p) => p,
        None => { return None; },
    };
    let maj = skip_space(s, off_end, hi);
    let (_, maj_end) = match scan_hex(s, maj, hi, 0xff) {
        Some(p) => p,
        None => { return None; },
    };
    if maj_end >= hi {
        return None;
    }
    if s[maj_end] != B_COLON {
        return None;
    }
    let (_, min_end) = match scan_hex(s, maj_end + 1, hi, 0xff) {
        Some(p) => p,
        None => { return None; },
    };
    let ino = skip_space(s, min_end, hi);
    let ino_end = skip_dec(s, ino, hi);
    if ino_end == ino {
        return None;
    }
    let pstart = skip_space(s, ino_end, hi);
    let pend = skip_path_run(s, pstart, hi);
    let raw_shared = c_s == B_S;
    let path: Option<(Vec<u8>, u64)> = if pend > pstart {
        let sub: &[u8] = &s[pstart..pend];
        Some((vstd::slice::slice_to_vec(sub), offset_val as u64))
    } else {
        None
    };
    let share_mode = if path.is_some() && !raw_shared {
        ShareMode::CopyOnWrite
    } else if raw_shared {
        ShareMode::Shared
    } else {
        ShareMode::Private
    };
    let area = MemoryArea {
        start: start_val as usize,
        end: end_val as usize,
        protection: Protection { read: c_r == B_R, write: c_w == B_W, execute: c_x == B_X },
        share_mode: share_mode,
        path: path,
    };
    Some(area)
}

/// Parses one listing line as a region record.
pub fn parse_memory_area(line: &[u8]) -> (r: Option<MemoryArea>)
    ensures
        r matches Some(a) ==> parse_line_spec(line@, 0, line@.len() as int) == Some(a@),
        r is None ==> parse_line_spec(line@, 0, line@.len() as int) is None,
{
    parse_memory_area_in(line, 0, line.len())
}

/// The records a listing's bytes denote from position `i` on: the listing
/// is cut at every newline, each line is read by the line grammar, and the
/// lines the grammar rejects contribute nothing.
pub open spec fn areas_from(s: Seq<u8>, i: int) -> Seq<MemoryAreaView>
    decreases s.len() - i,
    via areas_from_dec
{
    if i >= s.len() {
        Seq::empty()
    } else {
        let e = nonnl_end(s, i, s.len() as int);
        let next = if e < s.len() {
            e + 1
        } else {
            e
        };
        match parse_line_spec(s, i, e) {
            Some(a) => seq![a] + areas_from(s, next),
            None => areas_from(s, next),
        }
    }
}

#[via_fn]
proof fn areas_from_dec(s: Seq<u8>, i: int) {
    if i < s.len() {
        lemma_nonnl_end_bounds(s, i, s.len() as int);
    }
}

/// A forward-only reader over the bytes of a process's memory-map listing.
/// The embedding program reads the listing (an input operation) and hands
/// the bytes in; the reader then yields the records of the well-formed
/// lines, in order, skipping every malformed line.
pub struct MemoryAreas {
    content: Vec<u8>,
    pos: usize,
}

impl View for MemoryAreas {
    type V = Seq<MemoryAreaView>;

    closed spec fn view(&self) -> Seq<MemoryAreaView> {
        areas_from(self.content@, self.pos as int)
    }
}

impl MemoryAreas {
    /// The reading position has not run past the listing.
    pub closed spec fn wf(self) -> bool {
        self.pos <= self.content@.len()
    }

    /// A reader over the given listing bytes, positioned at the start.
    pub fn from_bytes(content: Vec<u8>) -> (r: MemoryAreas)
        ensures
            r.wf(),
            r@ == areas_from(content@, 0),
    {
        MemoryAreas { content, pos: 0 }
    }

    /// Yields the record of the next well-formed line, or nothing once the
    /// listing is exhausted.  Malformed lines are skipped, and the lines
    /// after one are still read.
    pub fn next(&mut self) -> (r: Option<MemoryArea>)
        requires
            old(self).wf(),
        ensures
            final(self).wf(),
            match r {
                Some(a) => old(self)@.len() > 0 && old(self)@[0] == a@ && final(self)@ == old(
                    self,
                )@.skip(1),
                None => old(self)@.len() == 0 && final(self)@.len() == 0,
            },
    {
        loop
            invariant
                self.content@ == old(self).content@,
                self.pos <= self.content@.len(),
                areas_from(self.content@, self.pos as int) == areas_from(
                    old(self).content@,
                    old(self).pos as int,
                ),
            decreases self.content@.len() - self.pos,
        {
            let len = self.content.len();
            if self.pos >= len {
                return None;
            }
            let ghost gpos = self.pos as int;
            let e = skip_nonnl(self.content.as_slice(), self.pos, len);
            let parsed = parse_memory_area_in(self.content.as_slice(), self.pos, e);
            let next_pos = if e < len {
                e + 1
            } else {
                e
            };
            self.pos = next_pos;
            match parsed {
                Some(a) => {
                    proof {
                        assert(areas_from(self.content@, gpos) == seq![a@] + areas_from(
                            self.content@,
                            next_pos as int,
                        ));
                        assert((seq![a@] + areas_from(self.content@, next_pos as int))[0] == a@);
                        assert((seq![a@] + areas_from(self.content@, next_pos as int)).skip(1)
                            =~= areas_from(self.content@, next_pos as int));
                    }
                    return Some(a);
                },
                None => {
                    proof {
                        assert(areas_from(self.content@, gpos) == areas_from(
                            self.content@,
                            next_pos as int,
                        ));
                    }
                },
            }
        }
    }
}

} // verus!
