//! The texture-atlas text parser: a line-oriented state machine.
//!
//! The text is split into lines; a line holding a colon is a key-value pair,
//! a non-blank line without one is a title. The first title opens a page,
//! whose key-value lines fill the header; the next title opens its first
//! region; a blank line closes the page. Regions keep their declared order.
use vstd::prelude::*;
use crate::atlas::{Atlas, AtlasPage, AtlasRegion, Header, Rect, SpecAtlasPage, SpecAtlasRegion, SpecHeader};
use crate::geom::Vec2;
use crate::num::{Scalar, SCALE};
use crate::text::{parse_decimal, sp_decimal};
use crate::{DecodeError, DecodeKind, Field, SpinalError};
use vstd::string::StringSliceAdditionalSpecFns;

verus! {

/// Whether a byte is blank space inside a line.
pub open spec fn sp_is_ws(c: u8) -> bool {
    c == 32 || c == 9 || c == 13
}

/// The input split into lines at every newline byte.
pub open spec fn sp_lines_rec(b: Seq<u8>, pos: int, cur: Seq<u8>, acc: Seq<Seq<u8>>) -> Seq<Seq<u8>>
    decreases b.len() - pos,
{
    if pos < 0 || pos >= b.len() {
        if cur.len() > 0 {
            acc.push(cur)
        } else {
            acc
        }
    } else if b[pos] == 10 {
        sp_lines_rec(b, pos + 1, Seq::empty(), acc.push(cur))
    } else {
        sp_lines_rec(b, pos + 1, cur.push(b[pos]), acc)
    }
}

fn rd_lines(b: &[u8]) -> (r: Vec<Vec<u8>>)
    ensures
        r.deep_view() == sp_lines_rec(b@, 0, Seq::empty(), Seq::empty()),
{
    let mut acc: Vec<Vec<u8>> = Vec::new();
    let mut cur: Vec<u8> = Vec::new();
    let mut pos: usize = 0;
    let n = b.len();
    proof {
        assert(acc.deep_view() =~= Seq::<Seq<u8>>::empty());
        assert(cur@ =~= Seq::<u8>::empty());
    }
    while pos < n
        invariant
            pos <= n,
            n == b@.len(),
            sp_lines_rec(b@, 0, Seq::empty(), Seq::empty()) == sp_lines_rec(b@, pos as int, cur@, acc.deep_view()),
        decreases n - pos,
    {
        let ghost ac = acc.deep_view();
        proof {
            reveal_with_fuel(sp_lines_rec, 2);
        }
        if b[pos] == 10 {
            let ghost cv = cur@;
            acc.push(cur);
            cur = Vec::new();
            proof {
                assert(acc.deep_view() =~~= ac.push(cv));
                assert(cur@ =~= Seq::<u8>::empty());
            }
        } else {
            cur.push(b[pos]);
        }
        pos = pos + 1;
    }
    proof {
        reveal_with_fuel(sp_lines_rec, 2);
    }
    if cur.len() > 0 {
        let ghost ac = acc.deep_view();
        let ghost cv = cur@;
        acc.push(cur);
        proof {
            assert(acc.deep_view() =~~= ac.push(cv));
        }
    }
    acc
}

/// The first index at or after `pos` whose byte is not blank space.
pub open spec fn sp_skip_ws(s: Seq<u8>, pos: int) -> int
    decreases s.len() - pos,
{
    if pos < 0 || pos >= s.len() || !sp_is_ws(s[pos]) {
        pos
    } else {
        sp_skip_ws(s, pos + 1)
    }
}

/// The index before `end` after which only blank space follows.
pub open spec fn sp_rstrip(s: Seq<u8>, end: int) -> int
    decreases end,
{
    if end <= 0 || !sp_is_ws(s[end - 1]) {
        end
    } else {
        sp_rstrip(s, end - 1)
    }
}

/// A line trimmed of leading and trailing blank space.
pub open spec fn sp_trim(s: Seq<u8>) -> Seq<u8> {
    let a = sp_skip_ws(s, 0);
    let b = sp_rstrip(s, s.len() as int);
    if a <= b {
        s.subrange(a, b)
    } else {
        Seq::empty()
    }
}

fn trim(s: &[u8]) -> (r: Vec<u8>)
    ensures
        r@ == sp_trim(s@),
{
    let n = s.len();
    let mut a: usize = 0;
    while a < n && (s[a] == 32 || s[a] == 9 || s[a] == 13)
        invariant
            a <= n,
            n == s@.len(),
            sp_skip_ws(s@, 0) == sp_skip_ws(s@, a as int),
        decreases n - a,
    {
        proof {
            reveal_with_fuel(sp_skip_ws, 2);
        }
        a = a + 1;
    }
    proof {
        reveal_with_fuel(sp_skip_ws, 2);
        assert(sp_skip_ws(s@, a as int) == a as int);
    }
    let mut b: usize = n;
    while b > a && (s[b - 1] == 32 || s[b - 1] == 9 || s[b - 1] == 13)
        invariant
            a <= b <= n,
            n == s@.len(),
            a as int == sp_skip_ws(s@, 0),
            sp_rstrip(s@, n as int) == sp_rstrip(s@, b as int),
        decreases b,
    {
        proof {
            reveal_with_fuel(sp_rstrip, 2);
        }
        b = b - 1;
    }
    proof {
        reveal_with_fuel(sp_rstrip, 2);
        let bb = sp_rstrip(s@, n as int);
        if b > a {
            assert(bb == b as int);
        } else {
            if b > 0 && sp_is_ws(s@[b as int - 1]) {
                lemma_rstrip_le(s@, b as int - 1);
                assert(bb <= b as int - 1);
            } else {
                assert(bb == b as int);
            }
        }
    }
    let mut r: Vec<u8> = Vec::new();
    let mut k: usize = a;
    if a <= b {
        while k < b
            invariant
                a <= k <= b <= n,
                n == s@.len(),
                r@ =~= s@.subrange(a as int, k as int),
            decreases b - k,
        {
            r.push(s[k]);
            proof {
                assert(r@ =~= s@.subrange(a as int, k as int + 1));
            }
            k = k + 1;
        }
    }
    proof {
        let bb = sp_rstrip(s@, s@.len() as int);
        if a as int <= bb {
            assert(bb == b as int);
            assert(r@ =~= s@.subrange(a as int, bb));
        } else {
            assert(r@ =~= Seq::<u8>::empty());
        }
    }
    r
}

proof fn lemma_rstrip_le(s: Seq<u8>, end: int)
    requires
        end >= 0,
    ensures
        sp_rstrip(s, end) <= end,
    decreases end,
{
    if end > 0 && sp_is_ws(s[end - 1]) {
        lemma_rstrip_le(s, end - 1);
    }
}

/// The position of the first occurrence of a byte, from `k`.
pub open spec fn sp_find_byte(s: Seq<u8>, c: u8, k: int) -> Option<int>
    decreases s.len() - k,
{
    if k < 0 || k >= s.len() {
        None
    } else if s[k] == c {
        Some(k)
    } else {
        sp_find_byte(s, c, k + 1)
    }
}

fn find_byte(s: &[u8], c: u8, from: usize) -> (r: Option<usize>)
    requires
        from <= s@.len(),
    ensures
        r matches Some(k) ==> from <= k < s@.len() && sp_find_byte(s@, c, from as int) == Some(k as int),
        r is None ==> sp_find_byte(s@, c, from as int) is None,
{
    let n = s.len();
    let mut k: usize = from;
    while k < n
        invariant
            from <= k <= n,
            n == s@.len(),
            sp_find_byte(s@, c, from as int) == sp_find_byte(s@, c, k as int),
        decreases n - k,
    {
        proof {
            reveal_with_fuel(sp_find_byte, 2);
        }
        if s[k] == c {
            return Some(k);
        }
        k = k + 1;
    }
    proof {
        reveal_with_fuel(sp_find_byte, 2);
    }
    None
}


/// Whether the bytes spell `size`.
pub open spec fn sp_is_key_size(k: Seq<u8>) -> bool {
    k.len() == 4 && k[0] == 115 && k[1] == 105 && k[2] == 122 && k[3] == 101
}

/// Whether the bytes spell `pma`.
pub open spec fn sp_is_key_pma(k: Seq<u8>) -> bool {
    k.len() == 3 && k[0] == 112 && k[1] == 109 && k[2] == 97
}

/// Whether the bytes spell `bounds`.
pub open spec fn sp_is_key_bounds(k: Seq<u8>) -> bool {
    k.len() == 6 && k[0] == 98 && k[1] == 111 && k[2] == 117 && k[3] == 110 && k[4] == 100 && k[5] == 115
}

/// Whether the bytes spell `offsets`.
pub open spec fn sp_is_key_offsets(k: Seq<u8>) -> bool {
    k.len() == 7 && k[0] == 111 && k[1] == 102 && k[2] == 102 && k[3] == 115 && k[4] == 101 && k[5] == 116 && k[6]
        == 115
}

/// Whether the bytes spell `rotate`.
pub open spec fn sp_is_key_rotate(k: Seq<u8>) -> bool {
    k.len() == 6 && k[0] == 114 && k[1] == 111 && k[2] == 116 && k[3] == 97 && k[4] == 116 && k[5] == 101
}

/// Whether the bytes spell `index`.
pub open spec fn sp_is_key_index(k: Seq<u8>) -> bool {
    k.len() == 5 && k[0] == 105 && k[1] == 110 && k[2] == 100 && k[3] == 101 && k[4] == 120
}

/// Whether the bytes spell `true`.
pub open spec fn sp_is_true(k: Seq<u8>) -> bool {
    k.len() == 4 && k[0] == 116 && k[1] == 114 && k[2] == 117 && k[3] == 101
}

/// Whether the bytes spell `false`.
pub open spec fn sp_is_false(k: Seq<u8>) -> bool {
    k.len() == 5 && k[0] == 102 && k[1] == 97 && k[2] == 108 && k[3] == 115 && k[4] == 101
}

/// Two comma-separated decimal numbers.
pub open spec fn sp_vec2_text(s: Seq<u8>) -> Option<Vec2> {
    match sp_find_byte(s, 44, 0) {
        None => None,
        Some(i) => {
            let x = sp_decimal(sp_trim(s.subrange(0, i)));
            let y = sp_decimal(sp_trim(s.subrange(i + 1, s.len() as int)));
            if x is Some && y is Some {
                Some(Vec2 { x: Scalar { bits: x->0 as i64 }, y: Scalar { bits: y->0 as i64 } })
            } else {
                None
            }
        },
    }
}

/// Four comma-separated decimal numbers: a position and a size.
pub open spec fn sp_rect_text(s: Seq<u8>) -> Option<Rect> {
    match sp_find_byte(s, 44, 0) {
        None => None,
        Some(i) => {
            let x = sp_decimal(sp_trim(s.subrange(0, i)));
            match sp_find_byte(s, 44, i + 1) {
                None => None,
                Some(j) => {
                    let y = sp_decimal(sp_trim(s.subrange(i + 1, j)));
                    match sp_find_byte(s, 44, j + 1) {
                        None => None,
                        Some(k) => {
                            let w = sp_decimal(sp_trim(s.subrange(j + 1, k)));
                            let h = sp_decimal(sp_trim(s.subrange(k + 1, s.len() as int)));
                            if x is Some && y is Some && w is Some && h is Some {
                                Some(
                                    Rect {
                                        position: Vec2 {
                                            x: Scalar { bits: x->0 as i64 },
                                            y: Scalar { bits: y->0 as i64 },
                                        },
                                        size: Vec2 {
                                            x: Scalar { bits: w->0 as i64 },
                                            y: Scalar { bits: h->0 as i64 },
                                        },
                                    },
                                )
                            } else {
                                None
                            }
                        },
                    }
                },
            }
        },
    }
}

/// A rotation value: `true` is a quarter turn, `false` is none, anything
/// else is read as degrees.
pub open spec fn sp_rotate_text(s: Seq<u8>) -> Option<Scalar> {
    if sp_is_true(s) {
        Some(Scalar { bits: (90 * (SCALE as int)) as i64 })
    } else if sp_is_false(s) {
        Some(Scalar { bits: 0 })
    } else {
        match sp_decimal(s) {
            Some(v) => Some(Scalar { bits: v as i64 }),
            None => None,
        }
    }
}

fn eq_bytes(a: &[u8], n: usize, b0: u8, b1: u8, b2: u8, b3: u8, b4: u8, b5: u8, b6: u8) -> (r: bool)
    requires
        n <= 7,
    ensures
        r == (a@.len() == n && (n > 0 ==> a@[0] == b0) && (n > 1 ==> a@[1] == b1) && (n > 2 ==> a@[2] == b2) && (n > 3
            ==> a@[3] == b3) && (n > 4 ==> a@[4] == b4) && (n > 5 ==> a@[5] == b5) && (n > 6 ==> a@[6] == b6)),
{
    if a.len() != n {
        return false;
    }
    if n > 0 && a[0] != b0 {
        return false;
    }
    if n > 1 && a[1] != b1 {
        return false;
    }
    if n > 2 && a[2] != b2 {
        return false;
    }
    if n > 3 && a[3] != b3 {
        return false;
    }
    if n > 4 && a[4] != b4 {
        return false;
    }
    if n > 5 && a[5] != b5 {
        return false;
    }
    if n > 6 && a[6] != b6 {
        return false;
    }
    true
}

fn parse_vec2_text(s: &[u8]) -> (r: Option<Vec2>)
    ensures
        r == sp_vec2_text(s@),
{
    let n = s.len();
    let i = match find_byte(s, 44, 0) {
        Some(i) => i,
        None => {
            return None;
        },
    };
    let left = trim(vstd::slice::slice_subrange(s, 0, i));
    let right = trim(vstd::slice::slice_subrange(s, i + 1, s.len()));
    let x = parse_decimal(left.as_slice());
    let y = parse_decimal(right.as_slice());
    match (x, y) {
        (Some(x), Some(y)) => Some(Vec2 { x, y }),
        _ => None,
    }
}

fn parse_rect_text(s: &[u8]) -> (r: Option<Rect>)
    ensures
        r == sp_rect_text(s@),
{
    let n = s.len();
    let i = match find_byte(s, 44, 0) {
        Some(i) => i,
        None => {
            return None;
        },
    };
    let x = parse_decimal(trim(vstd::slice::slice_subrange(s, 0, i)).as_slice());
    let j = match find_byte(s, 44, i + 1) {
        Some(j) => j,
        None => {
            return None;
        },
    };
    let y = parse_decimal(trim(vstd::slice::slice_subrange(s, i + 1, j)).as_slice());
    let k = match find_byte(s, 44, j + 1) {
        Some(k) => k,
        None => {
            return None;
        },
    };
    let w = parse_decimal(trim(vstd::slice::slice_subrange(s, j + 1, k)).as_slice());
    let h = parse_decimal(trim(vstd::slice::slice_subrange(s, k + 1, s.len())).as_slice());
    match (x, y, w, h) {
        (Some(x), Some(y), Some(w), Some(h)) => Some(
            Rect { position: Vec2 { x, y }, size: Vec2 { x: w, y: h } },
        ),
        _ => None,
    }
}

fn parse_rotate_text(s: &[u8]) -> (r: Option<Scalar>)
    ensures
        r == sp_rotate_text(s@),
{
    if eq_bytes(s, 4, 116, 114, 117, 101, 0, 0, 0) {
        Some(Scalar { bits: 90 * SCALE })
    } else if eq_bytes(s, 5, 102, 97, 108, 115, 101, 0, 0) {
        Some(Scalar { bits: 0 })
    } else {
        parse_decimal(s)
    }
}


/// A page header while its key-value lines are being read.
pub struct SpHeaderPartial {
    pub name: Seq<char>,
    pub size: Option<Vec2>,
    pub pma: bool,
}

/// A region while its key-value lines are being read.
pub struct SpRegionPartial {
    pub name: Seq<char>,
    pub index: Option<usize>,
    pub bounds: Option<Rect>,
    pub offsets: Option<Rect>,
    pub rotate: Scalar,
}

/// Where the parser stands between lines.
pub enum SpAtlasMode {
    Between,
    InHeader(SpHeaderPartial),
    InRegions(SpecHeader, Seq<SpecAtlasRegion>, SpRegionPartial),
}

/// A fresh region under a name.
pub open spec fn sp_new_region(name: Seq<char>) -> SpRegionPartial {
    SpRegionPartial { name, index: None, bounds: None, offsets: None, rotate: Scalar { bits: 0 } }
}

/// Close a region: its bounds are required; absent offsets become the zero
/// rectangle.
pub open spec fn sp_close_region(cur: SpRegionPartial, line_no: usize) -> Result<SpecAtlasRegion, SpinalError> {
    match cur.bounds {
        None => Err(crate::binary::sp_bad(line_no, Field::AtlasValue)),
        Some(b) => Ok(
            SpecAtlasRegion {
                name: cur.name,
                index: cur.index,
                bounds: Some(b),
                offsets: Some(
                    match cur.offsets {
                        Some(o) => o,
                        None => Rect {
                            position: Vec2 { x: Scalar { bits: 0 }, y: Scalar { bits: 0 } },
                            size: Vec2 { x: Scalar { bits: 0 }, y: Scalar { bits: 0 } },
                        },
                    },
                ),
                rotate: cur.rotate,
            },
        ),
    }
}

/// Apply one header key-value line.
pub open spec fn sp_header_kv(h: SpHeaderPartial, key: Seq<u8>, val: Seq<u8>, line_no: usize) -> Result<
    SpHeaderPartial,
    SpinalError,
> {
    if sp_is_key_size(key) {
        match sp_vec2_text(val) {
            Some(v) => Ok(SpHeaderPartial { name: h.name, size: Some(v), pma: h.pma }),
            None => Err(crate::binary::sp_bad(line_no, Field::AtlasValue)),
        }
    } else if sp_is_key_pma(key) {
        if sp_is_true(val) {
            Ok(SpHeaderPartial { name: h.name, size: h.size, pma: true })
        } else if sp_is_false(val) {
            Ok(SpHeaderPartial { name: h.name, size: h.size, pma: false })
        } else {
            Err(crate::binary::sp_bad(line_no, Field::AtlasValue))
        }
    } else {
        Ok(h)
    }
}

/// Apply one region key-value line.
pub open spec fn sp_region_kv(cur: SpRegionPartial, key: Seq<u8>, val: Seq<u8>, line_no: usize) -> Result<
    SpRegionPartial,
    SpinalError,
> {
    if sp_is_key_bounds(key) {
        match sp_rect_text(val) {
            Some(b) => Ok(SpRegionPartial { bounds: Some(b), ..cur }),
            None => Err(crate::binary::sp_bad(line_no, Field::AtlasValue)),
        }
    } else if sp_is_key_offsets(key) {
        match sp_rect_text(val) {
            Some(o) => Ok(SpRegionPartial { offsets: Some(o), ..cur }),
            None => Err(crate::binary::sp_bad(line_no, Field::AtlasValue)),
        }
    } else if sp_is_key_rotate(key) {
        match sp_rotate_text(val) {
            Some(v) => Ok(SpRegionPartial { rotate: v, ..cur }),
            None => Err(crate::binary::sp_bad(line_no, Field::AtlasValue)),
        }
    } else if sp_is_key_index(key) {
        match sp_decimal(val) {
            Some(v) => {
                if 0 <= v && v % (SCALE as int) == 0 && v / (SCALE as int) <= 0xffffffff {
                    Ok(SpRegionPartial { index: Some((v / (SCALE as int)) as usize), ..cur })
                } else {
                    Err(crate::binary::sp_bad(line_no, Field::AtlasValue))
                }
            },
            None => Err(crate::binary::sp_bad(line_no, Field::AtlasValue)),
        }
    } else {
        Ok(cur)
    }
}

/// One step of the parser: feed one line.
#[verifier::opaque]
pub open spec fn sp_atlas_step(
    mode: SpAtlasMode,
    pages: Seq<SpecAtlasPage>,
    line: Seq<u8>,
    line_no: usize,
) -> Result<(SpAtlasMode, Seq<SpecAtlasPage>), SpinalError> {
    let t = sp_trim(line);
    if t.len() == 0 {
        match mode {
            SpAtlasMode::Between => Ok((SpAtlasMode::Between, pages)),
            SpAtlasMode::InHeader(_) => Err(crate::binary::sp_bad(line_no, Field::AtlasTitle)),
            SpAtlasMode::InRegions(h, regs, cur) => match sp_close_region(cur, line_no) {
                Err(e) => Err(e),
                Ok(region) => Ok(
                    (
                        SpAtlasMode::Between,
                        pages.push(SpecAtlasPage { header: h, regions: regs.push(region) }),
                    ),
                ),
            },
        }
    } else {
        match sp_find_byte(t, 58, 0) {
            Some(ci) => {
                let key = sp_trim(t.subrange(0, ci));
                let val = sp_trim(t.subrange(ci + 1, t.len() as int));
                match mode {
                    SpAtlasMode::Between => Err(crate::binary::sp_bad(line_no, Field::AtlasTitle)),
                    SpAtlasMode::InHeader(h) => match sp_header_kv(h, key, val, line_no) {
                        Ok(h2) => Ok((SpAtlasMode::InHeader(h2), pages)),
                        Err(e) => Err(e),
                    },
                    SpAtlasMode::InRegions(h, regs, cur) => match sp_region_kv(cur, key, val, line_no) {
                        Ok(cur2) => Ok((SpAtlasMode::InRegions(h, regs, cur2), pages)),
                        Err(e) => Err(e),
                    },
                }
            },
            None => {
                if !vstd::utf8::valid_utf8(t) {
                    Err(
                        SpinalError::Decode(
                            DecodeError { offset: line_no, field: Field::AtlasTitle, kind: DecodeKind::InvalidUtf8 },
                        ),
                    )
                } else {
                    let name = vstd::utf8::decode_utf8(t);
                    match mode {
                        SpAtlasMode::Between => Ok(
                            (SpAtlasMode::InHeader(SpHeaderPartial { name, size: None, pma: false }), pages),
                        ),
                        SpAtlasMode::InHeader(h) => match h.size {
                            None => Err(crate::binary::sp_bad(line_no, Field::AtlasValue)),
                            Some(sz) => Ok(
                                (
                                    SpAtlasMode::InRegions(
                                        SpecHeader { name: h.name, size: sz, premultiplied_alpha: h.pma },
                                        Seq::empty(),
                                        sp_new_region(name),
                                    ),
                                    pages,
                                ),
                            ),
                        },
                        SpAtlasMode::InRegions(h, regs, cur) => match sp_close_region(cur, line_no) {
                            Err(e) => Err(e),
                            Ok(region) => Ok(
                                (SpAtlasMode::InRegions(h, regs.push(region), sp_new_region(name)), pages),
                            ),
                        },
                    }
                }
            },
        }
    }
}

/// Feed the lines from `i` on.
pub open spec fn sp_atlas_run(
    lines: Seq<Seq<u8>>,
    i: int,
    mode: SpAtlasMode,
    pages: Seq<SpecAtlasPage>,
) -> Result<(SpAtlasMode, Seq<SpecAtlasPage>), SpinalError>
    decreases lines.len() - i,
{
    if i < 0 || i >= lines.len() {
        Ok((mode, pages))
    } else {
        match sp_atlas_step(mode, pages, lines[i], i as usize) {
            Ok((m2, p2)) => sp_atlas_run(lines, i + 1, m2, p2),
            Err(e) => Err(e),
        }
    }
}

/// Close the last page at the end of the input.
pub open spec fn sp_atlas_finish(mode: SpAtlasMode, pages: Seq<SpecAtlasPage>, line_no: usize) -> Result<
    Seq<SpecAtlasPage>,
    SpinalError,
> {
    match mode {
        SpAtlasMode::Between => Ok(pages),
        SpAtlasMode::InHeader(_) => Err(crate::binary::sp_bad(line_no, Field::AtlasTitle)),
        SpAtlasMode::InRegions(h, regs, cur) => match sp_close_region(cur, line_no) {
            Err(e) => Err(e),
            Ok(region) => Ok(pages.push(SpecAtlasPage { header: h, regions: regs.push(region) })),
        },
    }
}

/// The pages of a whole atlas text.
pub open spec fn sp_parse_atlas(b: Seq<u8>) -> Result<Seq<SpecAtlasPage>, SpinalError> {
    let lines = sp_lines_rec(b, 0, Seq::empty(), Seq::empty());
    match sp_atlas_run(lines, 0, SpAtlasMode::Between, Seq::empty()) {
        Err(e) => Err(e),
        Ok((mode, pages)) => sp_atlas_finish(mode, pages, lines.len() as usize),
    }
}

/// A page header while its key-value lines are being read.
pub struct HeaderPartial {
    pub name: String,
    pub size: Option<Vec2>,
    pub pma: bool,
}

impl View for HeaderPartial {
    type V = SpHeaderPartial;

    open spec fn view(&self) -> SpHeaderPartial {
        SpHeaderPartial { name: self.name@, size: self.size, pma: self.pma }
    }
}

/// A region while its key-value lines are being read.
pub struct RegionPartial {
    pub name: String,
    pub index: Option<usize>,
    pub bounds: Option<Rect>,
    pub offsets: Option<Rect>,
    pub rotate: Scalar,
}

impl View for RegionPartial {
    type V = SpRegionPartial;

    open spec fn view(&self) -> SpRegionPartial {
        SpRegionPartial {
            name: self.name@,
            index: self.index,
            bounds: self.bounds,
            offsets: self.offsets,
            rotate: self.rotate,
        }
    }
}

/// Where the parser stands between lines.
pub enum AtlasMode {
    Between,
    InHeader(HeaderPartial),
    InRegions(Header, Vec<AtlasRegion>, RegionPartial),
}

impl View for AtlasMode {
    type V = SpAtlasMode;

    open spec fn view(&self) -> SpAtlasMode {
        match self {
            AtlasMode::Between => SpAtlasMode::Between,
            AtlasMode::InHeader(h) => SpAtlasMode::InHeader(h@),
            AtlasMode::InRegions(h, regs, cur) => SpAtlasMode::InRegions(h@, regs.deep_view(), cur@),
        }
    }
}

/// Close a region.
fn close_region(cur: RegionPartial, line_no: usize) -> (r: Result<AtlasRegion, SpinalError>)
    ensures
        r matches Ok(region) ==> sp_close_region(cur@, line_no) == Ok::<SpecAtlasRegion, SpinalError>(region@),
        r matches Err(e) ==> sp_close_region(cur@, line_no) == Err::<SpecAtlasRegion, SpinalError>(e),
{
    match cur.bounds {
        None => Err(SpinalError::Decode(
            DecodeError { offset: line_no, field: Field::AtlasValue, kind: DecodeKind::BadValue },
        )),
        Some(b) => Ok(
            AtlasRegion {
                name: cur.name,
                index: cur.index,
                bounds: Some(b),
                offsets: Some(
                    match cur.offsets {
                        Some(o) => o,
                        None => Rect { position: Vec2::zero(), size: Vec2::zero() },
                    },
                ),
                rotate: cur.rotate,
            },
        ),
    }
}

/// Feed one line to the parser.
fn atlas_step(mode: AtlasMode, pages: Vec<AtlasPage>, line: &Vec<u8>, line_no: usize) -> (r: Result<
    (AtlasMode, Vec<AtlasPage>),
    SpinalError,
>)
    ensures
        r matches Ok((m2, p2)) ==> sp_atlas_step(mode@, pages.deep_view(), line@, line_no) == Ok::<
            (SpAtlasMode, Seq<SpecAtlasPage>),
            SpinalError,
        >((m2@, p2.deep_view())),
        r matches Err(e) ==> sp_atlas_step(mode@, pages.deep_view(), line@, line_no) == Err::<
            (SpAtlasMode, Seq<SpecAtlasPage>),
            SpinalError,
        >(e),
{
    proof {
        reveal(sp_atlas_step);
    }
    let t = trim(line.as_slice());
    if t.len() == 0 {
        match mode {
            AtlasMode::Between => Ok((AtlasMode::Between, pages)),
            AtlasMode::InHeader(_) => Err(SpinalError::Decode(
                DecodeError { offset: line_no, field: Field::AtlasTitle, kind: DecodeKind::BadValue },
            )),
            AtlasMode::InRegions(h, regs, cur) => {
                let region = match close_region(cur, line_no) {
                    Ok(region) => region,
                    Err(e) => {
                        return Err(e);
                    },
                };
                let ghost rdv = regs.deep_view();
                let ghost gr = region@;
                let mut regs = regs;
                regs.push(region);
                let ghost pdv = pages.deep_view();
                let mut pages = pages;
                let ghost hdv = h@;
                let page = AtlasPage { header: h, regions: regs };
                let ghost pgdv = page@;
                pages.push(page);
                proof {
                    assert(pgdv.regions =~~= rdv.push(gr));
                    assert(pages.deep_view() =~~= pdv.push(SpecAtlasPage { header: hdv, regions: rdv.push(gr) }));
                }
                Ok((AtlasMode::Between, pages))
            },
        }
    } else {
        match find_byte(t.as_slice(), 58, 0) {
            Some(ci) => {
                let key = trim(vstd::slice::slice_subrange(t.as_slice(), 0, ci));
                let val = trim(vstd::slice::slice_subrange(t.as_slice(), ci + 1, t.len()));
                match mode {
                    AtlasMode::Between => Err(SpinalError::Decode(
                        DecodeError { offset: line_no, field: Field::AtlasTitle, kind: DecodeKind::BadValue },
                    )),
                    AtlasMode::InHeader(h) => {
                        if eq_bytes(key.as_slice(), 4, 115, 105, 122, 101, 0, 0, 0) {
                            match parse_vec2_text(val.as_slice()) {
                                Some(v) => Ok(
                                    (
                                        AtlasMode::InHeader(
                                            HeaderPartial { name: h.name, size: Some(v), pma: h.pma },
                                        ),
                                        pages,
                                    ),
                                ),
                                None => Err(SpinalError::Decode(
                                    DecodeError {
                                        offset: line_no,
                                        field: Field::AtlasValue,
                                        kind: DecodeKind::BadValue,
                                    },
                                )),
                            }
                        } else if eq_bytes(key.as_slice(), 3, 112, 109, 97, 0, 0, 0, 0) {
                            if eq_bytes(val.as_slice(), 4, 116, 114, 117, 101, 0, 0, 0) {
                                Ok(
                                    (
                                        AtlasMode::InHeader(
                                            HeaderPartial { name: h.name, size: h.size, pma: true },
                                        ),
                                        pages,
                                    ),
                                )
                            } else if eq_bytes(val.as_slice(), 5, 102, 97, 108, 115, 101, 0, 0) {
                                Ok(
                                    (
                                        AtlasMode::InHeader(
                                            HeaderPartial { name: h.name, size: h.size, pma: false },
                                        ),
                                        pages,
                                    ),
                                )
                            } else {
                                Err(SpinalError::Decode(
                                    DecodeError {
                                        offset: line_no,
                                        field: Field::AtlasValue,
                                        kind: DecodeKind::BadValue,
                                    },
                                ))
                            }
                        } else {
                            Ok((AtlasMode::InHeader(h), pages))
                        }
                    },
                    AtlasMode::InRegions(h, regs, cur) => {
                        if eq_bytes(key.as_slice(), 6, 98, 111, 117, 110, 100, 115, 0) {
                            match parse_rect_text(val.as_slice()) {
                                Some(b) => Ok(
                                    (
                                        AtlasMode::InRegions(h, regs, RegionPartial { bounds: Some(b), ..cur }),
                                        pages,
                                    ),
                                ),
                                None => Err(SpinalError::Decode(
                                    DecodeError {
                                        offset: line_no,
                                        field: Field::AtlasValue,
                                        kind: DecodeKind::BadValue,
                                    },
                                )),
                            }
                        } else if eq_bytes(key.as_slice(), 7, 111, 102, 102, 115, 101, 116, 115) {
                            match parse_rect_text(val.as_slice()) {
                                Some(o) => Ok(
                                    (
                                        AtlasMode::InRegions(h, regs, RegionPartial { offsets: Some(o), ..cur }),
                                        pages,
                                    ),
                                ),
                                None => Err(SpinalError::Decode(
                                    DecodeError {
                                        offset: line_no,
                                        field: Field::AtlasValue,
                                        kind: DecodeKind::BadValue,
                                    },
                                )),
                            }
                        } else if eq_bytes(key.as_slice(), 6, 114, 111, 116, 97, 116, 101, 0) {
                            match parse_rotate_text(val.as_slice()) {
                                Some(v) => Ok(
                                    (
                                        AtlasMode::InRegions(h, regs, RegionPartial { rotate: v, ..cur }),
                                        pages,
                                    ),
                                ),
                                None => Err(SpinalError::Decode(
                                    DecodeError {
                                        offset: line_no,
                                        field: Field::AtlasValue,
                                        kind: DecodeKind::BadValue,
                                    },
                                )),
                            }
                        } else if eq_bytes(key.as_slice(), 5, 105, 110, 100, 101, 120, 0, 0) {
                            match parse_decimal(val.as_slice()) {
                                Some(v) => {
                                    if 0 <= v.bits && (v.bits as u64) % 65536 == 0 && (v.bits as u64) / 65536
                                        <= 0xffffffff {
                                        let q = ((v.bits as u64) / 65536) as usize;
                                        proof {
                                            assert(v.bits as int % (SCALE as int) == (v.bits as u64) % 65536);
                                            assert(v.bits as int / (SCALE as int) == (v.bits as u64) / 65536);
                                        }
                                        Ok(
                                            (
                                                AtlasMode::InRegions(
                                                    h,
                                                    regs,
                                                    RegionPartial { index: Some(q), ..cur },
                                                ),
                                                pages,
                                            ),
                                        )
                                    } else {
                                        Err(SpinalError::Decode(
                                            DecodeError {
                                                offset: line_no,
                                                field: Field::AtlasValue,
                                                kind: DecodeKind::BadValue,
                                            },
                                        ))
                                    }
                                },
                                None => Err(SpinalError::Decode(
                                    DecodeError {
                                        offset: line_no,
                                        field: Field::AtlasValue,
                                        kind: DecodeKind::BadValue,
                                    },
                                )),
                            }
                        } else {
                            Ok((AtlasMode::InRegions(h, regs, cur), pages))
                        }
                    },
                }
            },
            None => {
                let name = match crate::binary::utf8_to_string(t) {
                    Some(name) => name,
                    None => {
                        return Err(SpinalError::Decode(
                            DecodeError { offset: line_no, field: Field::AtlasTitle, kind: DecodeKind::InvalidUtf8 },
                        ));
                    },
                };
                match mode {
                    AtlasMode::Between => Ok(
                        (AtlasMode::InHeader(HeaderPartial { name, size: None, pma: false }), pages),
                    ),
                    AtlasMode::InHeader(h) => match h.size {
                        None => Err(SpinalError::Decode(
                            DecodeError { offset: line_no, field: Field::AtlasValue, kind: DecodeKind::BadValue },
                        )),
                        Some(sz) => {
                            let regs: Vec<AtlasRegion> = Vec::new();
                            proof {
                                assert(regs.deep_view() =~= Seq::<SpecAtlasRegion>::empty());
                            }
                            Ok(
                                (
                                    AtlasMode::InRegions(
                                        Header { name: h.name, size: sz, premultiplied_alpha: h.pma },
                                        regs,
                                        RegionPartial {
                                            name,
                                            index: None,
                                            bounds: None,
                                            offsets: None,
                                            rotate: Scalar { bits: 0 },
                                        },
                                    ),
                                    pages,
                                ),
                            )
                        },
                    },
                    AtlasMode::InRegions(h, regs, cur) => {
                        let region = match close_region(cur, line_no) {
                            Ok(region) => region,
                            Err(e) => {
                                return Err(e);
                            },
                        };
                        let ghost rdv = regs.deep_view();
                        let ghost gr = region@;
                        let mut regs = regs;
                        regs.push(region);
                        proof {
                            assert(regs.deep_view() =~~= rdv.push(gr));
                        }
                        Ok(
                            (
                                AtlasMode::InRegions(
                                    h,
                                    regs,
                                    RegionPartial {
                                        name,
                                        index: None,
                                        bounds: None,
                                        offsets: None,
                                        rotate: Scalar { bits: 0 },
                                    },
                                ),
                                pages,
                            ),
                        )
                    },
                }
            },
        }
    }
}

/// Parses a texture-atlas text file.
pub struct AtlasParser;

impl AtlasParser {
    /// Decode a whole atlas text.
    pub fn parse(s: &str) -> (r: Result<Atlas, SpinalError>)
        ensures
            r matches Ok(a) ==> sp_parse_atlas(s.spec_bytes()) == Ok::<Seq<SpecAtlasPage>, SpinalError>(a@.pages),
            r matches Err(e) ==> sp_parse_atlas(s.spec_bytes()) == Err::<Seq<SpecAtlasPage>, SpinalError>(e),
    {
        let b = s.as_bytes();
        let lines = rd_lines(b);
        let n = lines.len();
        let mut mode = AtlasMode::Between;
        let mut pages: Vec<AtlasPage> = Vec::new();
        let mut i: usize = 0;
        proof {
            assert(pages.deep_view() =~= Seq::<SpecAtlasPage>::empty());
        }
        while i < n
            invariant
                i <= n,
                n == lines@.len(),
                lines.deep_view() == sp_lines_rec(s.spec_bytes(), 0, Seq::empty(), Seq::empty()),
                sp_atlas_run(lines.deep_view(), 0, SpAtlasMode::Between, Seq::empty()) == sp_atlas_run(
                    lines.deep_view(),
                    i as int,
                    mode@,
                    pages.deep_view(),
                ),
            decreases n - i,
        {
            proof {
                reveal_with_fuel(sp_atlas_run, 2);
                assert(lines@[i as int]@ == lines.deep_view()[i as int]);
            }
            let (m2, p2) = match atlas_step(mode, pages, &lines[i], i) {
                Ok(v) => v,
                Err(e) => {
                    return Err(e);
                },
            };
            mode = m2;
            pages = p2;
            i = i + 1;
        }
        proof {
            reveal_with_fuel(sp_atlas_run, 2);
        }
        match mode {
            AtlasMode::Between => Ok(Atlas { pages }),
            AtlasMode::InHeader(_) => Err(SpinalError::Decode(
                DecodeError { offset: n, field: Field::AtlasTitle, kind: DecodeKind::BadValue },
            )),
            AtlasMode::InRegions(h, regs, cur) => {
                let region = match close_region(cur, n) {
                    Ok(region) => region,
                    Err(e) => {
                        return Err(e);
                    },
                };
                let ghost rdv = regs.deep_view();
                let ghost gr = region@;
                let mut regs = regs;
                regs.push(region);
                let ghost pdv = pages.deep_view();
                let ghost hdv = h@;
                let page = AtlasPage { header: h, regions: regs };
                let ghost pgdv = page@;
                pages.push(page);
                proof {
                    assert(pgdv.regions =~~= rdv.push(gr));
                    assert(pages.deep_view() =~~= pdv.push(SpecAtlasPage { header: hdv, regions: rdv.push(gr) }));
                }
                Ok(Atlas { pages })
            },
        }
    }
}

} // verus!
