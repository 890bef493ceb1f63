use vstd::prelude::*;
use crate::error::Error;
use crate::zscii::{decode_string, Zscii};
use crate::memory::{
    header_word, mem_ok, read_byte, read_word, write_byte, write_word, MemView, Memory,
    STORY_MAX,
};

verus! {

/// Record layout of the object table: narrow (V1-V3, one-byte object
/// numbers, 32 attributes) or wide (V4+, two-byte numbers, 48 attributes).
#[derive(Clone, Copy, Debug, PartialEq, Eq, Structural)]
pub struct Object {
    pub wide: bool,
}

pub open spec fn prop_max(wide: bool) -> int {
    if wide { 63 } else { 31 }
}

pub open spec fn rec_size(wide: bool) -> int {
    if wide { 14 } else { 9 }
}

pub open spec fn attr_count(wide: bool) -> int {
    if wide { 48 } else { 32 }
}

pub open spec fn max_object(wide: bool) -> int {
    if wide { 0xFFFF } else { 0xFF }
}

pub open spec fn parent_off(wide: bool) -> int {
    if wide { 6 } else { 4 }
}

pub open spec fn sibling_off(wide: bool) -> int {
    if wide { 8 } else { 5 }
}

pub open spec fn child_off(wide: bool) -> int {
    if wide { 10 } else { 6 }
}

pub open spec fn props_off(wide: bool) -> int {
    if wide { 12 } else { 7 }
}

pub open spec fn valid_object(wide: bool, o: u16) -> bool {
    1 <= o <= max_object(wide)
}

/// Byte address of the record of object `o` (objects count from 1, after the
/// table of property defaults).
pub open spec fn obj_addr(m: MemView, wide: bool, o: u16) -> int {
    header_word(m, 0x0A) + 2 * prop_max(wide) + (o - 1) * rec_size(wide)
}

/// An object number stored at `a`: one byte when narrow, a word when wide.
pub open spec fn read_id(m: MemView, wide: bool, a: int) -> Result<u16, Error> {
    if wide {
        read_word(m, a)
    } else {
        match read_byte(m, a) {
            Ok(b) => Ok(b as u16),
            Err(e) => Err(e),
        }
    }
}

pub open spec fn write_id(m: MemView, wide: bool, a: int, v: u16) -> Result<MemView, Error> {
    if wide {
        write_word(m, a, v)
    } else {
        write_byte(m, a, v as u8)
    }
}

/// A link field (parent, sibling or child at offset `off`) of object `o`.
pub open spec fn link(m: MemView, wide: bool, o: u16, off: int) -> Result<u16, Error> {
    if !valid_object(wide, o) {
        Err(Error::InvalidObject(o))
    } else {
        read_id(m, wide, obj_addr(m, wide, o) + off)
    }
}

pub open spec fn set_link(m: MemView, wide: bool, o: u16, off: int, v: u16) -> Result<MemView, Error> {
    if !valid_object(wide, o) {
        Err(Error::InvalidObject(o))
    } else {
        write_id(m, wide, obj_addr(m, wide, o) + off, v)
    }
}

pub open spec fn parent(m: MemView, wide: bool, o: u16) -> Result<u16, Error> {
    link(m, wide, o, parent_off(wide))
}

pub open spec fn sibling(m: MemView, wide: bool, o: u16) -> Result<u16, Error> {
    link(m, wide, o, sibling_off(wide))
}

pub open spec fn child(m: MemView, wide: bool, o: u16) -> Result<u16, Error> {
    link(m, wide, o, child_off(wide))
}

/// The single-bit mask of attribute `n` within its byte.
pub open spec fn attr_mask(n: u16) -> u8 {
    (128u8 >> ((n % 8) as u8)) as u8
}

pub open spec fn attr_byte_addr(m: MemView, wide: bool, o: u16, n: u16) -> int {
    obj_addr(m, wide, o) + n / 8
}

pub open spec fn attr_check(wide: bool, o: u16, n: u16) -> Result<(), Error> {
    if !valid_object(wide, o) {
        Err(Error::InvalidObject(o))
    } else if n >= attr_count(wide) {
        Err(Error::InvalidAttribute(n))
    } else {
        Ok(())
    }
}

/// Attribute `n` of object `o`: bit `7 - n % 8` of byte `n / 8` of its record.
pub open spec fn attr(m: MemView, wide: bool, o: u16, n: u16) -> Result<bool, Error> {
    match attr_check(wide, o, n) {
        Err(e) => Err(e),
        Ok(_) => match read_byte(m, attr_byte_addr(m, wide, o, n)) {
            Ok(b) => Ok(b & attr_mask(n) != 0),
            Err(e) => Err(e),
        },
    }
}

/// Setting (`on`) or clearing attribute `n` of object `o`.
pub open spec fn set_attr(m: MemView, wide: bool, o: u16, n: u16, on: bool) -> Result<MemView, Error> {
    match attr_check(wide, o, n) {
        Err(e) => Err(e),
        Ok(_) => {
            let a = attr_byte_addr(m, wide, o, n);
            match read_byte(m, a) {
                Ok(b) => write_byte(
                    m,
                    a,
                    if on {
                        b | attr_mask(n)
                    } else {
                        b & !attr_mask(n)
                    },
                ),
                Err(e) => Err(e),
            }
        },
    }
}

/// The member of the sibling chain from `cur` whose sibling is `o`, looking at
/// no more than `fuel` members; not finding it means the tree is corrupt.
pub open spec fn prev_sibling(m: MemView, wide: bool, cur: u16, o: u16, fuel: nat) -> Result<u16, Error>
    decreases fuel,
{
    if cur == 0 || fuel == 0 {
        Err(Error::CorruptTree)
    } else {
        match sibling(m, wide, cur) {
            Err(e) => Err(e),
            Ok(s) => if s == o {
                Ok(cur)
            } else {
                prev_sibling(m, wide, s, o, (fuel - 1) as nat)
            },
        }
    }
}

/// Detaching `o` from its parent: the link that led to it is pointed at its
/// sibling, and its own parent and sibling become 0.
pub open spec fn remove(m: MemView, wide: bool, o: u16) -> Result<MemView, Error> {
    match parent(m, wide, o) {
        Err(e) => Err(e),
        Ok(p) => if p == 0 {
            Ok(m)
        } else {
            match sibling(m, wide, o) {
                Err(e) => Err(e),
                Ok(s) => match child(m, wide, p) {
                    Err(e) => Err(e),
                    Ok(c) => {
                        let relinked = if c == o {
                            set_link(m, wide, p, child_off(wide), s)
                        } else {
                            match prev_sibling(m, wide, c, o, max_object(wide) as nat) {
                                Err(e) => Err(e),
                                Ok(x) => set_link(m, wide, x, sibling_off(wide), s),
                            }
                        };
                        match relinked {
                            Err(e) => Err(e),
                            Ok(m1) => match set_link(m1, wide, o, sibling_off(wide), 0) {
                                Err(e) => Err(e),
                                Ok(m2) => set_link(m2, wide, o, parent_off(wide), 0),
                            },
                        }
                    },
                },
            }
        },
    }
}

/// Memory with `o` detached from its parent, if it had one.
pub open spec fn detached(m: MemView, wide: bool, o: u16) -> Result<MemView, Error> {
    match parent(m, wide, o) {
        Err(e) => Err(e),
        Ok(p) => if p != 0 {
            remove(m, wide, o)
        } else {
            Ok(m)
        },
    }
}

/// The chain of siblings from `start`, following at most `fuel` links.
pub open spec fn chain(m: MemView, wide: bool, start: u16, fuel: nat) -> Seq<u16>
    decreases fuel,
{
    if start == 0 || fuel == 0 {
        Seq::empty()
    } else {
        match sibling(m, wide, start) {
            Ok(s) => seq![start] + chain(m, wide, s, (fuel - 1) as nat),
            Err(_) => seq![start],
        }
    }
}

/// Making `o` the first child of `d`, detaching it first if it has a parent.
pub open spec fn insert(m: MemView, wide: bool, o: u16, d: u16) -> Result<MemView, Error> {
    match parent(m, wide, o) {
        Err(e) => Err(e),
        Ok(p) => {
            match detached(m, wide, o) {
                Err(e) => Err(e),
                Ok(m1) => match child(m1, wide, d) {
                    Err(e) => Err(e),
                    Ok(c) => match set_link(m1, wide, o, sibling_off(wide), c) {
                        Err(e) => Err(e),
                        Ok(m2) => match set_link(m2, wide, d, child_off(wide), o) {
                            Err(e) => Err(e),
                            Ok(m3) => set_link(m3, wide, o, parent_off(wide), d),
                        },
                    },
                },
            }
        },
    }
}

proof fn lemma_attr_bits(b: u8, k: u8, j: u8)
    requires
        k < 8,
        j < 8,
    ensures
        (b | (128u8 >> k)) & (128u8 >> k) != 0,
        (b & !(128u8 >> k)) & (128u8 >> k) == 0,
        k != j ==> ((b | (128u8 >> k)) & (128u8 >> j) != 0) == (b & (128u8 >> j) != 0),
        k != j ==> ((b & !(128u8 >> k)) & (128u8 >> j) != 0) == (b & (128u8 >> j) != 0),
{
    assert((b | (128u8 >> k)) & (128u8 >> k) != 0) by (bit_vector)
        requires
            k < 8,
    ;
    assert((b & !(128u8 >> k)) & (128u8 >> k) == 0) by (bit_vector)
        requires
            k < 8,
    ;
    assert(k != j ==> ((b | (128u8 >> k)) & (128u8 >> j) != 0) == (b & (128u8 >> j) != 0))
        by (bit_vector)
        requires
            k < 8,
            j < 8,
    ;
    assert(k != j ==> ((b & !(128u8 >> k)) & (128u8 >> j) != 0) == (b & (128u8 >> j) != 0))
        by (bit_vector)
        requires
            k < 8,
            j < 8,
    ;
}

/// Law: after setting attribute `n` it tests true, after clearing it tests
/// false, and every other attribute of every object tests as before.
pub proof fn lemma_attr_set_clear(m: MemView, wide: bool, o: u16, n: u16, on: bool, q: u16, k: u16)
    requires
        set_attr(m, wide, o, n, on) is Ok,
        q != o || k != n,
        attr(m, wide, q, k) is Ok,
    ensures
        attr(set_attr(m, wide, o, n, on).unwrap(), wide, o, n) == Ok::<bool, Error>(on),
        attr(set_attr(m, wide, o, n, on).unwrap(), wide, q, k) == attr(m, wide, q, k),
{
    let m2 = set_attr(m, wide, o, n, on).unwrap();
    let a = attr_byte_addr(m, wide, o, n);
    let b = m.bytes[a];
    assert(header_word(m2, 0x0A) == header_word(m, 0x0A));
    lemma_attr_bits(b, (n % 8) as u8, (k % 8) as u8);
    let aq = attr_byte_addr(m, wide, q, k);
    if aq == a {
        lemma_same_record(q as int - 1, o as int - 1, rec_size(wide), (k / 8) as int, (n / 8) as int);
        assert(k % 8 != n % 8);
    }
}

/// Two places `x * s + i` and `y * s + j` with offsets below `s` coincide
/// only within one record.
proof fn lemma_same_record(x: int, y: int, s: int, i: int, j: int)
    requires
        x * s + i == y * s + j,
        0 <= x,
        0 <= y,
        0 <= i < s,
        0 <= j < s,
    ensures
        x == y,
{
    if x < y {
        assert(x * s + s <= y * s) by (nonlinear_arith)
            requires
                x < y,
                s > 0,
        ;
    } else if y < x {
        assert(y * s + s <= x * s) by (nonlinear_arith)
            requires
                y < x,
                s > 0,
        ;
    }
}

/// Law: after `insert(o, d)` the parent of `o` is `d`, and `o` heads the
/// chain of `d`'s children, followed by `d`'s children from before (as they
/// stood once `o` was detached).
#[verifier::rlimit(60)]
pub proof fn lemma_insert_links(m: MemView, wide: bool, o: u16, d: u16)
    requires
        mem_ok(m),
        header_word(m, 0x0A) >= 64,
        insert(m, wide, o, d) is Ok,
        o != d,
    ensures
        parent(insert(m, wide, o, d).unwrap(), wide, o) == Ok::<u16, Error>(d),
        child(insert(m, wide, o, d).unwrap(), wide, d) == Ok::<u16, Error>(o),
{
    let p = parent(m, wide, o).unwrap();
    let m1 = if p != 0 {
        remove(m, wide, o).unwrap()
    } else {
        m
    };
    if p != 0 {
        lemma_remove_keeps(m, wide, o);
    }
    let c = child(m1, wide, d).unwrap();
    let m2 = set_link(m1, wide, o, sibling_off(wide), c).unwrap();
    lemma_set_link_keeps(m1, wide, o, sibling_off(wide), c);
    let m3 = set_link(m2, wide, d, child_off(wide), o).unwrap();
    lemma_set_link_keeps(m2, wide, d, child_off(wide), o);
    let m4 = set_link(m3, wide, o, parent_off(wide), d).unwrap();
    lemma_set_link_keeps(m3, wide, o, parent_off(wide), d);
    let base = header_word(m, 0x0A) + 2 * prop_max(wide);
    lemma_record_apart(base, wide, o, d);
    assert(obj_addr(m3, wide, o) == obj_addr(m, wide, o));
    assert(obj_addr(m4, wide, d) == obj_addr(m, wide, d));
    assert(parent(m4, wide, o) == Ok::<u16, Error>(d));
    assert(child(m3, wide, d) == Ok::<u16, Error>(o));
}

/// Records of distinct objects do not overlap.
proof fn lemma_record_apart(base: int, wide: bool, o: u16, d: u16)
    requires
        o != d,
    ensures
        base + (o - 1) * rec_size(wide) + rec_size(wide) <= base + (d - 1) * rec_size(wide)
            || base + (d - 1) * rec_size(wide) + rec_size(wide) <= base + (o - 1) * rec_size(
            wide,
        ),
{
    let s = rec_size(wide);
    if o < d {
        assert((o - 1) * s + s <= (d - 1) * s) by (nonlinear_arith)
            requires
                o < d,
                s > 0,
        ;
    } else {
        assert((d - 1) * s + s <= (o - 1) * s) by (nonlinear_arith)
            requires
                d < o,
                s > 0,
        ;
    }
}

/// A link write lands past the header, so the table address stays.
proof fn lemma_set_link_keeps(m: MemView, wide: bool, o: u16, off: int, v: u16)
    requires
        set_link(m, wide, o, off, v) is Ok,
        header_word(m, 0x0A) >= 64,
        0 <= off,
    ensures
        set_link(m, wide, o, off, v).unwrap().bytes.len() == m.bytes.len(),
        header_word(set_link(m, wide, o, off, v).unwrap(), 0x0A) == header_word(m, 0x0A),
        set_link(m, wide, o, off, v).unwrap().static_base == m.static_base,
{
    let m2 = set_link(m, wide, o, off, v).unwrap();
    assert(obj_addr(m, wide, o) >= 64) by (nonlinear_arith)
        requires
            obj_addr(m, wide, o) == header_word(m, 0x0A) + 2 * prop_max(wide) + (o - 1)
                * rec_size(wide),
            o >= 1,
            rec_size(wide) > 0,
            header_word(m, 0x0A) >= 64,
    ;
    assert(m2.bytes[0x0A] == m.bytes[0x0A]);
    assert(m2.bytes[0x0B] == m.bytes[0x0B]);
}

/// Removal writes only object links, so the table address stays.
proof fn lemma_remove_keeps(m: MemView, wide: bool, o: u16)
    requires
        remove(m, wide, o) is Ok,
        header_word(m, 0x0A) >= 64,
    ensures
        header_word(remove(m, wide, o).unwrap(), 0x0A) == header_word(m, 0x0A),
        remove(m, wide, o).unwrap().bytes.len() == m.bytes.len(),
{
    let p = parent(m, wide, o).unwrap();
    if p != 0 {
        let s = sibling(m, wide, o).unwrap();
        let c = child(m, wide, p).unwrap();
        let m1 = if c == o {
            lemma_set_link_keeps(m, wide, p, child_off(wide), s);
            set_link(m, wide, p, child_off(wide), s).unwrap()
        } else {
            let x = prev_sibling(m, wide, c, o, max_object(wide) as nat).unwrap();
            lemma_set_link_keeps(m, wide, x, sibling_off(wide), s);
            set_link(m, wide, x, sibling_off(wide), s).unwrap()
        };
        lemma_set_link_keeps(m1, wide, o, sibling_off(wide), 0);
        let m2 = set_link(m1, wide, o, sibling_off(wide), 0).unwrap();
        lemma_set_link_keeps(m2, wide, o, parent_off(wide), 0);
    }
}

pub open spec fn is_link_off(wide: bool, off: int) -> bool {
    off == parent_off(wide) || off == sibling_off(wide) || off == child_off(wide)
}

/// Writing one link leaves every other link of every object as it was.
proof fn lemma_link_frame(m: MemView, wide: bool, q0: u16, off0: int, v: u16, q: u16, off: int)
    requires
        set_link(m, wide, q0, off0, v) is Ok,
        header_word(m, 0x0A) >= 64,
        is_link_off(wide, off0),
        is_link_off(wide, off),
        q != q0 || off != off0,
    ensures
        link(set_link(m, wide, q0, off0, v).unwrap(), wide, q, off) == link(m, wide, q, off),
{
    let m2 = set_link(m, wide, q0, off0, v).unwrap();
    lemma_set_link_keeps(m, wide, q0, off0, v);
    assert(obj_addr(m2, wide, q) == obj_addr(m, wide, q));
    if valid_object(wide, q) && q != q0 {
        let base = header_word(m, 0x0A) + 2 * prop_max(wide);
        lemma_record_apart(base, wide, q, q0);
    }
}

/// Law: `remove(o)` leaves `o` with parent 0 and sibling 0, points the link
/// that led to `o` (its parent's child link, or its previous sibling's
/// sibling link) at `o`'s old sibling, and leaves every other link of every
/// object as it was.
#[verifier::rlimit(60)]
pub proof fn lemma_remove_links(m: MemView, wide: bool, o: u16, q: u16, off: int)
    requires
        remove(m, wide, o) is Ok,
        parent(m, wide, o) != Ok::<u16, Error>(0),
        header_word(m, 0x0A) >= 64,
        is_link_off(wide, off),
    ensures
        ({
            let m2 = remove(m, wide, o).unwrap();
            let p = parent(m, wide, o).unwrap();
            let s = sibling(m, wide, o).unwrap();
            let c = child(m, wide, p).unwrap();
            let (rq, roff) = if c == o {
                (p, child_off(wide))
            } else {
                (prev_sibling(m, wide, c, o, max_object(wide) as nat).unwrap(), sibling_off(wide))
            };
            &&& parent(m2, wide, o) == Ok::<u16, Error>(0)
            &&& sibling(m2, wide, o) == Ok::<u16, Error>(0)
            &&& (rq != o ==> link(m2, wide, rq, roff) == Ok::<u16, Error>(s))
            &&& (q != o && (q != rq || off != roff) ==> link(m2, wide, q, off) == link(m, wide, q, off))
        }),
{
    let p = parent(m, wide, o).unwrap();
    let s = sibling(m, wide, o).unwrap();
    let c = child(m, wide, p).unwrap();
    let (rq, roff) = if c == o {
        (p, child_off(wide))
    } else {
        (prev_sibling(m, wide, c, o, max_object(wide) as nat).unwrap(), sibling_off(wide))
    };
    let m1 = set_link(m, wide, rq, roff, s).unwrap();
    lemma_set_link_keeps(m, wide, rq, roff, s);
    let m2 = set_link(m1, wide, o, sibling_off(wide), 0).unwrap();
    lemma_set_link_keeps(m1, wide, o, sibling_off(wide), 0);
    let m3 = set_link(m2, wide, o, parent_off(wide), 0).unwrap();
    lemma_set_link_keeps(m2, wide, o, parent_off(wide), 0);
    assert(m3 == remove(m, wide, o).unwrap());
    lemma_link_frame(m2, wide, o, parent_off(wide), 0, o, sibling_off(wide));
    assert(obj_addr(m3, wide, o) == obj_addr(m, wide, o));
    if rq != o {
        assert(valid_object(wide, rq));
        assert(obj_addr(m1, wide, rq) == obj_addr(m, wide, rq));
        lemma_link_frame(m1, wide, o, sibling_off(wide), 0, rq, roff);
        lemma_link_frame(m2, wide, o, parent_off(wide), 0, rq, roff);
    }
    if q != o && (q != rq || off != roff) {
        lemma_link_frame(m, wide, rq, roff, s, q, off);
        lemma_link_frame(m1, wide, o, sibling_off(wide), 0, q, off);
        lemma_link_frame(m2, wide, o, parent_off(wide), 0, q, off);
    }
}

/// Where a property's data lies: `addr` is the first data byte (0 when the
/// object has no such property), after a size header of `size_bytes` bytes.
#[derive(Clone, Copy, Debug, PartialEq, Eq, Structural)]
pub struct PropAddr {
    pub addr: u32,
    pub size_bytes: u8,
    pub data_length: u8,
}

pub open spec fn absent() -> PropAddr {
    PropAddr { addr: 0, size_bytes: 0, data_length: 0 }
}

/// The size header at `a`: property number (0 ends the list), header length
/// and data length. Narrow: one byte `SSSPPPPP`, length `SSS + 1`. Wide: with
/// bit 7 clear, number in bits 0-5 and length 1 or 2 by bit 6; with bit 7 set,
/// the next byte's bits 0-5 give the length, 0 meaning 64.
pub open spec fn prop_header(m: MemView, wide: bool, a: int) -> Result<(u8, int, int), Error> {
    match read_byte(m, a) {
        Err(e) => Err(e),
        Ok(sz) => if sz == 0 {
            Ok((0, 1, 0))
        } else if !wide {
            Ok(((sz % 32) as u8, 1, sz / 32 + 1))
        } else if sz >= 128 {
            match read_byte(m, a + 1) {
                Err(e) => Err(e),
                Ok(b2) => Ok(((sz % 64) as u8, 2, if b2 % 64 == 0 { 64 } else { (b2 % 64) as int })),
            }
        } else {
            Ok(((sz % 64) as u8, 1, if sz >= 64 { 2 } else { 1 }))
        },
    }
}

/// Scanning the property list from `a` for property `n`, over at most `fuel`
/// entries (each entry takes at least one byte, so the image's length is
/// always enough).
pub open spec fn find_prop(m: MemView, wide: bool, a: int, n: u8, fuel: nat) -> Result<PropAddr, Error>
    decreases fuel,
{
    if !(0 <= a < m.bytes.len()) || fuel == 0 {
        Err(Error::MemoryOutOfBounds)
    } else {
        match prop_header(m, wide, a) {
            Err(e) => Err(e),
            Ok((num, h, l)) => if num == 0 {
                Ok(absent())
            } else if num == n {
                Ok(PropAddr { addr: (a + h) as u32, size_bytes: h as u8, data_length: l as u8 })
            } else {
                find_prop(m, wide, a + h + l, n, (fuel - 1) as nat)
            },
        }
    }
}

proof fn lemma_prop_header_sizes(m: MemView, wide: bool, a: int)
    ensures
        prop_header(m, wide, a) matches Ok((_, h, l)) ==> 1 <= h <= 2 && 0 <= l <= 64,
{
}

/// The address of the first property of `o`: its table opens with the name's
/// length in words, then the name.
pub open spec fn first_prop(m: MemView, wide: bool, o: u16) -> Result<int, Error> {
    if !valid_object(wide, o) {
        Err(Error::InvalidObject(o))
    } else {
        match read_word(m, obj_addr(m, wide, o) + props_off(wide)) {
            Err(e) => Err(e),
            Ok(t) => match read_byte(m, t as int) {
                Err(e) => Err(e),
                Ok(l) => Ok(t + 1 + 2 * l),
            },
        }
    }
}

pub open spec fn prop_addr(m: MemView, wide: bool, o: u16, n: u8) -> Result<PropAddr, Error> {
    match first_prop(m, wide, o) {
        Err(e) => Err(e),
        Ok(a) => find_prop(m, wide, a, n, m.bytes.len()),
    }
}

/// The word value of property `n` of `o`: one data byte zero-extended, two a
/// word, an absent property its default.
pub open spec fn prop_value(m: MemView, wide: bool, o: u16, n: u8) -> Result<u16, Error> {
    if n == 0 || n > prop_max(wide) {
        Err(Error::InvalidProperty(n as u16))
    } else {
        match prop_addr(m, wide, o, n) {
            Err(e) => Err(e),
            Ok(p) => if p.addr == 0 {
                read_word(m, header_word(m, 0x0A) + 2 * (n - 1))
            } else if p.data_length == 1 {
                match read_byte(m, p.addr as int) {
                    Ok(b) => Ok(b as u16),
                    Err(e) => Err(e),
                }
            } else if p.data_length == 2 {
                read_word(m, p.addr as int)
            } else {
                Err(Error::PropertyNotWordSized)
            },
        }
    }
}

/// Overwriting property `n` of `o` in place; it must be present and one or two
/// bytes long.
pub open spec fn put_prop(m: MemView, wide: bool, o: u16, n: u8, v: u16) -> Result<MemView, Error> {
    match prop_addr(m, wide, o, n) {
        Err(e) => Err(e),
        Ok(p) => if p.addr == 0 {
            Err(Error::PropertyNotWordSized)
        } else if p.data_length == 1 {
            write_byte(m, p.addr as int, (v % 256) as u8)
        } else if p.data_length == 2 {
            write_word(m, p.addr as int, v)
        } else {
            Err(Error::PropertyNotWordSized)
        },
    }
}

/// The number of the property after `n` (the first when `n` is 0), or 0 when
/// there is none.
pub open spec fn next_prop(m: MemView, wide: bool, o: u16, n: u8) -> Result<u8, Error> {
    match first_prop(m, wide, o) {
        Err(e) => Err(e),
        Ok(a) => if n == 0 {
            match prop_header(m, wide, a) {
                Ok((num, _, _)) => Ok(num),
                Err(e) => Err(e),
            }
        } else {
            match find_prop(m, wide, a, n, m.bytes.len()) {
                Err(e) => Err(e),
                Ok(p) => if p.addr == 0 {
                    Ok(0)
                } else {
                    match prop_header(m, wide, p.addr + p.data_length) {
                        Ok((num, _, _)) => Ok(num),
                        Err(e) => Err(e),
                    }
                },
            }
        },
    }
}

/// The data length of the property whose data starts at `addr`, read from the
/// size header just before it (0 for address 0).
pub open spec fn prop_len(m: MemView, wide: bool, addr: u16) -> Result<u8, Error> {
    if addr == 0 {
        Ok(0)
    } else {
        match read_byte(m, addr - 1) {
            Err(e) => Err(e),
            Ok(b) => Ok(
                if !wide {
                    (b / 32 + 1) as u8
                } else if b >= 128 {
                    if b % 64 == 0 {
                        64
                    } else {
                        (b % 64) as u8
                    }
                } else if b >= 64 {
                    2
                } else {
                    1
                },
            ),
        }
    }
}

/// The short name of `o`: the Z-string after the name-length byte of its
/// property table, empty when that length is 0.
pub open spec fn obj_name(m: MemView, wide: bool, version: u8, o: u16) -> Result<Seq<char>, Error> {
    if !valid_object(wide, o) {
        Err(Error::InvalidObject(o))
    } else {
        match read_word(m, obj_addr(m, wide, o) + props_off(wide)) {
            Err(e) => Err(e),
            Ok(t) => match read_byte(m, t as int) {
                Err(e) => Err(e),
                Ok(l) => if l == 0 {
                    Ok(Seq::empty())
                } else {
                    match decode_string(m, version, t + 1) {
                        Ok((s, _)) => Ok(s),
                        Err(e) => Err(e),
                    }
                },
            },
        }
    }
}

impl Object {
    /// The short name of `o`, decoded.
    pub fn name(&self, mem: &Memory, version: u8, o: u16) -> (r: Result<Vec<char>, Error>)
        requires
            mem.wf(),
        ensures
            match obj_name(mem@, self.wide, version, o) {
                Ok(s) => r matches Ok(v) && v@ == s,
                Err(e) => r matches Err(e2) && e2 == e,
            },
    {
        self.check_object(o)?;
        let off: u32 = if self.wide { 12 } else { 7 };
        let t = mem.read_u16(self.object_ptr(mem, o) + off)?;
        let l = mem.read_u8(t as u32)?;
        if l == 0 {
            return Ok(Vec::new());
        }
        let mut z = Zscii::new();
        z.get_string(mem, version, t as u32 + 1)
    }

    /// The layout for a story version: narrow up to V3, wide from V4.
    pub fn new(version: u8) -> (r: Object)
        ensures
            r.wide == (version >= 4),
    {
        Object { wide: version >= 4 }
    }

    fn object_ptr(&self, mem: &Memory, o: u16) -> (r: u32)
        requires
            mem.wf(),
            valid_object(self.wide, o),
        ensures
            r == obj_addr(mem@, self.wide, o),
    {
        let (pm, size): (u32, u32) = if self.wide { (63, 14) } else { (31, 9) };
        mem.object_table() as u32 + 2 * pm + (o as u32 - 1) * size
    }

    fn check_object(&self, o: u16) -> (r: Result<(), Error>)
        ensures
            r is Ok <==> valid_object(self.wide, o),
            r is Err ==> r == Err::<(), Error>(Error::InvalidObject(o)),
    {
        if o == 0 || (!self.wide && o > 255) {
            Err(Error::InvalidObject(o))
        } else {
            Ok(())
        }
    }

    fn read_id(&self, mem: &Memory, a: u32) -> (r: Result<u16, Error>)
        requires
            mem.wf(),
        ensures
            r == read_id(mem@, self.wide, a as int),
    {
        if self.wide {
            mem.read_u16(a)
        } else {
            match mem.read_u8(a) {
                Ok(b) => Ok(b as u16),
                Err(e) => Err(e),
            }
        }
    }

    fn link(&self, mem: &Memory, o: u16, off: u32) -> (r: Result<u16, Error>)
        requires
            mem.wf(),
            off <= 12,
        ensures
            r == link(mem@, self.wide, o, off as int),
    {
        self.check_object(o)?;
        let a = self.object_ptr(mem, o);
        self.read_id(mem, a + off)
    }

    fn set_link(&self, mem: &mut Memory, o: u16, off: u32, v: u16) -> (r: Result<(), Error>)
        requires
            old(mem).wf(),
            off <= 12,
        ensures
            final(mem).wf(),
            final(mem)@.stack == old(mem)@.stack,
            match set_link(old(mem)@, self.wide, o, off as int, v) {
                Ok(m) => r is Ok && final(mem)@ == m,
                Err(e) => r == Err::<(), Error>(e) && final(mem)@ == old(mem)@,
            },
    {
        self.check_object(o)?;
        let a = self.object_ptr(mem, o) + off;
        if self.wide {
            mem.write_u16(a, v)
        } else {
            mem.write_u8(a, v as u8)
        }
    }

    fn parent_off(&self) -> (r: u32)
        ensures
            r == parent_off(self.wide),
    {
        if self.wide { 6 } else { 4 }
    }

    fn sibling_off(&self) -> (r: u32)
        ensures
            r == sibling_off(self.wide),
    {
        if self.wide { 8 } else { 5 }
    }

    fn child_off(&self) -> (r: u32)
        ensures
            r == child_off(self.wide),
    {
        if self.wide { 10 } else { 6 }
    }

    pub fn parent(&self, mem: &Memory, o: u16) -> (r: Result<u16, Error>)
        requires
            mem.wf(),
        ensures
            r == parent(mem@, self.wide, o),
    {
        self.link(mem, o, self.parent_off())
    }

    pub fn sibling(&self, mem: &Memory, o: u16) -> (r: Result<u16, Error>)
        requires
            mem.wf(),
        ensures
            r == sibling(mem@, self.wide, o),
    {
        self.link(mem, o, self.sibling_off())
    }

    pub fn child(&self, mem: &Memory, o: u16) -> (r: Result<u16, Error>)
        requires
            mem.wf(),
        ensures
            r == child(mem@, self.wide, o),
    {
        self.link(mem, o, self.child_off())
    }

    /// Whether `a`'s parent is `b`.
    pub fn inside(&self, mem: &Memory, a: u16, b: u16) -> (r: Result<bool, Error>)
        requires
            mem.wf(),
        ensures
            match parent(mem@, self.wide, a) {
                Ok(p) => r == Ok::<bool, Error>(p == b),
                Err(e) => r == Err::<bool, Error>(e),
            },
    {
        let p = self.parent(mem, a)?;
        Ok(p == b)
    }

    fn attr_place(&self, mem: &Memory, o: u16, n: u16) -> (r: Result<(u32, u8), Error>)
        requires
            mem.wf(),
        ensures
            match attr_check(self.wide, o, n) {
                Ok(_) => r == Ok::<(u32, u8), Error>(
                    (attr_byte_addr(mem@, self.wide, o, n) as u32, attr_mask(n)),
                ),
                Err(e) => r == Err::<(u32, u8), Error>(e),
            },
    {
        self.check_object(o)?;
        let count: u16 = if self.wide { 48 } else { 32 };
        if n >= count {
            return Err(Error::InvalidAttribute(n));
        }
        let a = self.object_ptr(mem, o) + (n / 8) as u32;
        Ok((a, 128u8 >> ((n % 8) as u8)))
    }

    /// Attribute `n` of object `o`.
    pub fn attr_test(&self, mem: &Memory, o: u16, n: u16) -> (r: Result<bool, Error>)
        requires
            mem.wf(),
        ensures
            r == attr(mem@, self.wide, o, n),
    {
        let (a, mask) = self.attr_place(mem, o, n)?;
        let b = mem.read_u8(a)?;
        Ok(b & mask != 0)
    }

    fn attr_write(&self, mem: &mut Memory, o: u16, n: u16, on: bool) -> (r: Result<(), Error>)
        requires
            old(mem).wf(),
        ensures
            final(mem).wf(),
            match set_attr(old(mem)@, self.wide, o, n, on) {
                Ok(m) => r is Ok && final(mem)@ == m,
                Err(e) => r == Err::<(), Error>(e) && final(mem)@ == old(mem)@,
            },
    {
        let (a, mask) = self.attr_place(mem, o, n)?;
        let b = mem.read_u8(a)?;
        let nb = if on {
            b | mask
        } else {
            b & !mask
        };
        mem.write_u8(a, nb)
    }

    pub fn attr_set(&self, mem: &mut Memory, o: u16, n: u16) -> (r: Result<(), Error>)
        requires
            old(mem).wf(),
        ensures
            final(mem).wf(),
            match set_attr(old(mem)@, self.wide, o, n, true) {
                Ok(m) => r is Ok && final(mem)@ == m,
                Err(e) => r == Err::<(), Error>(e) && final(mem)@ == old(mem)@,
            },
    {
        self.attr_write(mem, o, n, true)
    }

    pub fn attr_clear(&self, mem: &mut Memory, o: u16, n: u16) -> (r: Result<(), Error>)
        requires
            old(mem).wf(),
        ensures
            final(mem).wf(),
            match set_attr(old(mem)@, self.wide, o, n, false) {
                Ok(m) => r is Ok && final(mem)@ == m,
                Err(e) => r == Err::<(), Error>(e) && final(mem)@ == old(mem)@,
            },
    {
        self.attr_write(mem, o, n, false)
    }

    /// Detaches `o` from its parent, re-linking the chain of its siblings.
    pub fn remove(&self, mem: &mut Memory, o: u16) -> (r: Result<(), Error>)
        requires
            old(mem).wf(),
        ensures
            final(mem).wf(),
            final(mem)@.stack == old(mem)@.stack,
            match remove(old(mem)@, self.wide, o) {
                Ok(m) => r is Ok && final(mem)@ == m,
                Err(e) => r == Err::<(), Error>(e),
            },
    {
        let p = self.parent(mem, o)?;
        if p == 0 {
            return Ok(());
        }
        let s = self.sibling(mem, o)?;
        let c = self.child(mem, p)?;
        if c == o {
            self.set_link(mem, p, self.child_off(), s)?;
        } else {
            let limit: u32 = if self.wide { 0xFFFF } else { 0xFF };
            let mut cur = c;
            let mut fuel: u32 = limit;
            let ghost m0 = mem@;
            loop
                invariant
                    mem.wf(),
                    mem@ == m0,
                    m0 == old(mem)@,
                    parent(m0, self.wide, o) == Ok::<u16, Error>(p),
                    sibling(m0, self.wide, o) == Ok::<u16, Error>(s),
                    child(m0, self.wide, p) == Ok::<u16, Error>(c),
                    p != 0,
                    c != o,
                    limit == max_object(self.wide),
                    fuel <= limit,
                    prev_sibling(m0, self.wide, cur, o, fuel as nat) == prev_sibling(
                        m0,
                        self.wide,
                        c,
                        o,
                        max_object(self.wide) as nat,
                    ),
                ensures
                    prev_sibling(m0, self.wide, c, o, max_object(self.wide) as nat) == Ok::<
                        u16,
                        Error,
                    >(cur),
                decreases fuel,
            {
                if cur == 0 || fuel == 0 {
                    return Err(Error::CorruptTree);
                }
                let next = self.sibling(mem, cur)?;
                if next == o {
                    break;
                }
                cur = next;
                fuel = fuel - 1;
            }
            self.set_link(mem, cur, self.sibling_off(), s)?;
        }
        self.set_link(mem, o, self.sibling_off(), 0)?;
        self.set_link(mem, o, self.parent_off(), 0)
    }

    /// Makes `o` the first child of `d`.
    pub fn insert(&self, mem: &mut Memory, o: u16, d: u16) -> (r: Result<(), Error>)
        requires
            old(mem).wf(),
        ensures
            final(mem).wf(),
            final(mem)@.stack == old(mem)@.stack,
            match insert(old(mem)@, self.wide, o, d) {
                Ok(m) => r is Ok && final(mem)@ == m,
                Err(e) => r == Err::<(), Error>(e),
            },
    {
        let p = self.parent(mem, o)?;
        if p != 0 {
            self.remove(mem, o)?;
        }
        let c = self.child(mem, d)?;
        self.set_link(mem, o, self.sibling_off(), c)?;
        self.set_link(mem, d, self.child_off(), o)?;
        self.set_link(mem, o, self.parent_off(), d)
    }

    fn prop_header(&self, mem: &Memory, a: u32) -> (r: Result<(u8, u32, u32), Error>)
        requires
            mem.wf(),
        ensures
            r matches Ok((_, h, l)) ==> 1 <= h <= 2 && l <= 64,
            match prop_header(mem@, self.wide, a as int) {
                Ok((num, h, l)) => r == Ok::<(u8, u32, u32), Error>((num, h as u32, l as u32)),
                Err(e) => r == Err::<(u8, u32, u32), Error>(e),
            },
    {
        let sz = mem.read_u8(a)?;
        if sz == 0 {
            Ok((0, 1, 0))
        } else if !self.wide {
            Ok((sz % 32, 1, (sz / 32) as u32 + 1))
        } else if sz >= 128 {
            if a == u32::MAX {
                return Err(Error::MemoryOutOfBounds);
            }
            let b2 = mem.read_u8(a + 1)?;
            let l: u32 = if b2 % 64 == 0 { 64 } else { (b2 % 64) as u32 };
            Ok((sz % 64, 2, l))
        } else {
            Ok((sz % 64, 1, if sz >= 64 { 2 } else { 1 }))
        }
    }

    fn find_prop(&self, mem: &Memory, start: u32, n: u8) -> (r: Result<PropAddr, Error>)
        requires
            mem.wf(),
        ensures
            r matches Ok(p) ==> p.addr <= STORY_MAX + 2 && p.data_length <= 64,
            r == find_prop(mem@, self.wide, start as int, n, mem@.bytes.len()),
    {
        let mut a = start;
        let mut fuel: usize = mem.len();
        loop
            invariant
                mem.wf(),
                fuel <= mem@.bytes.len(),
                find_prop(mem@, self.wide, a as int, n, fuel as nat) == find_prop(
                    mem@,
                    self.wide,
                    start as int,
                    n,
                    mem@.bytes.len(),
                ),
            decreases fuel,
        {
            if a as usize >= mem.len() || fuel == 0 {
                return Err(Error::MemoryOutOfBounds);
            }
            let (num, h, l) = self.prop_header(mem, a)?;
            proof {
                lemma_prop_header_sizes(mem@, self.wide, a as int);
            }
            if num == 0 {
                return Ok(PropAddr { addr: 0, size_bytes: 0, data_length: 0 });
            }
            if num == n {
                return Ok(PropAddr { addr: a + h, size_bytes: h as u8, data_length: l as u8 });
            }
            a = a + h + l;
            fuel = fuel - 1;
        }
    }

    fn first_prop(&self, mem: &Memory, o: u16) -> (r: Result<u32, Error>)
        requires
            mem.wf(),
        ensures
            match first_prop(mem@, self.wide, o) {
                Ok(a) => r == Ok::<u32, Error>(a as u32) && a < 0x30000,
                Err(e) => r == Err::<u32, Error>(e),
            },
    {
        self.check_object(o)?;
        let off: u32 = if self.wide { 12 } else { 7 };
        let t = mem.read_u16(self.object_ptr(mem, o) + off)?;
        let l = mem.read_u8(t as u32)?;
        Ok(t as u32 + 1 + 2 * l as u32)
    }

    /// The address and length of property `n` of `o` (address 0: absent).
    pub fn get_prop_addr(&self, mem: &Memory, o: u16, n: u8) -> (r: Result<PropAddr, Error>)
        requires
            mem.wf(),
        ensures
            r == prop_addr(mem@, self.wide, o, n),
    {
        let a = self.first_prop(mem, o)?;
        self.find_prop(mem, a, n)
    }

    /// The word value of property `n` of `o`, or its default when absent.
    pub fn get_prop(&self, mem: &Memory, o: u16, n: u8) -> (r: Result<u16, Error>)
        requires
            mem.wf(),
        ensures
            r == prop_value(mem@, self.wide, o, n),
    {
        let pm: u8 = if self.wide { 63 } else { 31 };
        if n == 0 || n > pm {
            return Err(Error::InvalidProperty(n as u16));
        }
        let p = self.get_prop_addr(mem, o, n)?;
        if p.addr == 0 {
            mem.read_u16(mem.object_table() as u32 + 2 * (n as u32 - 1))
        } else if p.data_length == 1 {
            let b = mem.read_u8(p.addr)?;
            Ok(b as u16)
        } else if p.data_length == 2 {
            mem.read_u16(p.addr)
        } else {
            Err(Error::PropertyNotWordSized)
        }
    }

    /// Overwrites property `n` of `o` with `v`.
    pub fn put_prop(&self, mem: &mut Memory, o: u16, n: u8, v: u16) -> (r: Result<(), Error>)
        requires
            old(mem).wf(),
        ensures
            final(mem).wf(),
            final(mem)@.stack == old(mem)@.stack,
            match put_prop(old(mem)@, self.wide, o, n, v) {
                Ok(m) => r is Ok && final(mem)@ == m,
                Err(e) => r == Err::<(), Error>(e) && final(mem)@ == old(mem)@,
            },
    {
        let p = self.get_prop_addr(mem, o, n)?;
        if p.addr == 0 {
            Err(Error::PropertyNotWordSized)
        } else if p.data_length == 1 {
            mem.write_u8(p.addr, (v % 256) as u8)
        } else if p.data_length == 2 {
            mem.write_u16(p.addr, v)
        } else {
            Err(Error::PropertyNotWordSized)
        }
    }

    /// The property number after `n` in `o`'s list (the first for 0), or 0.
    pub fn get_prop_next(&self, mem: &Memory, o: u16, n: u8) -> (r: Result<u8, Error>)
        requires
            mem.wf(),
        ensures
            r == next_prop(mem@, self.wide, o, n),
    {
        let a = self.first_prop(mem, o)?;
        if n == 0 {
            let (num, _h, _l) = self.prop_header(mem, a)?;
            return Ok(num);
        }
        let p = self.find_prop(mem, a, n)?;
        if p.addr == 0 {
            Ok(0)
        } else {
            let (num, _h, _l) = self.prop_header(mem, p.addr + p.data_length as u32)?;
            Ok(num)
        }
    }

    /// The data length of the property whose data starts at `addr`.
    pub fn get_prop_len(&self, mem: &Memory, addr: u16) -> (r: Result<u8, Error>)
        requires
            mem.wf(),
        ensures
            r == prop_len(mem@, self.wide, addr),
    {
        if addr == 0 {
            return Ok(0);
        }
        let b = mem.read_u8(addr as u32 - 1)?;
        if !self.wide {
            Ok(b / 32 + 1)
        } else if b >= 128 {
            if b % 64 == 0 {
                Ok(64)
            } else {
                Ok(b % 64)
            }
        } else if b >= 64 {
            Ok(2)
        } else {
            Ok(1)
        }
    }
}

/// A link write that is not the sibling link of a member leaves a sibling
/// chain as it was.
proof fn lemma_chain_frame(
    m: MemView,
    wide: bool,
    q0: u16,
    off0: int,
    v: u16,
    start: u16,
    fuel: nat,
)
    requires
        set_link(m, wide, q0, off0, v) is Ok,
        header_word(m, 0x0A) >= 64,
        is_link_off(wide, off0),
        off0 != sibling_off(wide) || !chain(m, wide, start, fuel).contains(q0),
    ensures
        chain(set_link(m, wide, q0, off0, v).unwrap(), wide, start, fuel) == chain(
            m,
            wide,
            start,
            fuel,
        ),
    decreases fuel,
{
    let m2 = set_link(m, wide, q0, off0, v).unwrap();
    if start != 0 && fuel != 0 {
        if off0 == sibling_off(wide) {
            assert(chain(m, wide, start, fuel)[0] == start);
        }
        lemma_link_frame(m, wide, q0, off0, v, start, sibling_off(wide));
        match sibling(m, wide, start) {
            Ok(s) => {
                let rest = chain(m, wide, s, (fuel - 1) as nat);
                if off0 == sibling_off(wide) {
                    assert forall|i: int| 0 <= i < rest.len() implies rest[i] != q0 by {
                        assert(chain(m, wide, start, fuel)[i + 1] == rest[i]);
                    }
                }
                lemma_chain_frame(m, wide, q0, off0, v, s, (fuel - 1) as nat);
            },
            Err(_) => {},
        }
    }
}

/// Law: after `insert(o, d)` the parent of `o` is `d`, and the chain of
/// `d`'s children is `o` followed by the children `d` had once `o` was
/// detached. When `o` was not among those (as in any well-formed tree), it
/// appears in the chain exactly once.
#[verifier::rlimit(60)]
pub proof fn lemma_insert_chain(m: MemView, wide: bool, o: u16, d: u16, fuel: nat)
    requires
        mem_ok(m),
        header_word(m, 0x0A) >= 64,
        insert(m, wide, o, d) is Ok,
        o != d,
        !chain(
            detached(m, wide, o).unwrap(),
            wide,
            child(detached(m, wide, o).unwrap(), wide, d).unwrap(),
            fuel,
        ).contains(o),
    ensures
        ({
            let m4 = insert(m, wide, o, d).unwrap();
            let m1 = detached(m, wide, o).unwrap();
            let c = child(m1, wide, d).unwrap();
            &&& parent(m4, wide, o) == Ok::<u16, Error>(d)
            &&& child(m4, wide, d) == Ok::<u16, Error>(o)
            &&& chain(m4, wide, o, fuel + 1) == seq![o] + chain(m1, wide, c, fuel)
            &&& forall|i: int|
                1 <= i < chain(m4, wide, o, fuel + 1).len() ==> #[trigger] chain(
                    m4,
                    wide,
                    o,
                    fuel + 1,
                )[i] != o
        }),
{
    lemma_insert_links(m, wide, o, d);
    let p = parent(m, wide, o).unwrap();
    let m1 = detached(m, wide, o).unwrap();
    if p != 0 {
        lemma_remove_keeps(m, wide, o);
    }
    let c = child(m1, wide, d).unwrap();
    let m2 = set_link(m1, wide, o, sibling_off(wide), c).unwrap();
    lemma_set_link_keeps(m1, wide, o, sibling_off(wide), c);
    let m3 = set_link(m2, wide, d, child_off(wide), o).unwrap();
    lemma_set_link_keeps(m2, wide, d, child_off(wide), o);
    let m4 = set_link(m3, wide, o, parent_off(wide), d).unwrap();
    lemma_set_link_keeps(m3, wide, o, parent_off(wide), d);
    assert(m4 == insert(m, wide, o, d).unwrap());
    lemma_chain_frame(m1, wide, o, sibling_off(wide), c, c, fuel);
    lemma_chain_frame(m2, wide, d, child_off(wide), o, c, fuel);
    lemma_chain_frame(m3, wide, o, parent_off(wide), d, c, fuel);
    lemma_link_frame(m2, wide, d, child_off(wide), o, o, sibling_off(wide));
    lemma_link_frame(m3, wide, o, parent_off(wide), d, o, sibling_off(wide));
    assert(obj_addr(m2, wide, o) == obj_addr(m1, wide, o));
    assert(sibling(m2, wide, o) == Ok::<u16, Error>(c));
    assert(sibling(m4, wide, o) == Ok::<u16, Error>(c));
    let full = chain(m4, wide, o, fuel + 1);
    let rest = chain(m1, wide, c, fuel);
    assert(full == seq![o] + rest);
    assert forall|i: int| 1 <= i < full.len() implies #[trigger] full[i] != o by {
        assert(full[i] == rest[i - 1]);
    }
}

/// The link that `remove(o)` points at `o`'s sibling: the parent's child link
/// when `o` is the first child, else the sibling link of `o`'s predecessor.
pub open spec fn relinked(m: MemView, wide: bool, o: u16) -> (u16, int) {
    let p = parent(m, wide, o).unwrap();
    let c = child(m, wide, p).unwrap();
    if c == o {
        (p, child_off(wide))
    } else {
        (prev_sibling(m, wide, c, o, max_object(wide) as nat).unwrap(), sibling_off(wide))
    }
}

/// Law: when the link that led to `o` was the only sibling or child link of
/// another object pointing at `o` (as in a well-formed tree), after
/// `remove(o)` no sibling or child link of any other object points at `o`,
/// and `o` has no sibling: it is in no chain.
pub proof fn lemma_remove_unlinks(m: MemView, wide: bool, o: u16)
    requires
        remove(m, wide, o) is Ok,
        parent(m, wide, o) != Ok::<u16, Error>(0),
        header_word(m, 0x0A) >= 64,
        sibling(m, wide, o) != Ok::<u16, Error>(o),
        forall|q: u16, off: int|
            #![trigger link(m, wide, q, off)]
            (off == sibling_off(wide) || off == child_off(wide)) && q != o && (q, off) != relinked(
                m,
                wide,
                o,
            ) ==> link(m, wide, q, off) != Ok::<u16, Error>(o),
    ensures
        sibling(remove(m, wide, o).unwrap(), wide, o) == Ok::<u16, Error>(0),
        forall|q: u16|
            q != o ==> #[trigger] sibling(remove(m, wide, o).unwrap(), wide, q) != Ok::<u16, Error>(o)
                && child(remove(m, wide, o).unwrap(), wide, q) != Ok::<u16, Error>(o),
{
    let m2 = remove(m, wide, o).unwrap();
    let (rq, roff) = relinked(m, wide, o);
    lemma_remove_links(m, wide, o, o, sibling_off(wide));
    assert forall|q: u16| q != o implies #[trigger] sibling(m2, wide, q) != Ok::<u16, Error>(o)
        && child(m2, wide, q) != Ok::<u16, Error>(o) by {
        lemma_remove_links(m, wide, o, q, sibling_off(wide));
        lemma_remove_links(m, wide, o, q, child_off(wide));
        if !(q == rq && roff == sibling_off(wide)) {
            assert(link(m, wide, q, sibling_off(wide)) != Ok::<u16, Error>(o));
        }
        if !(q == rq && roff == child_off(wide)) {
            assert(link(m, wide, q, child_off(wide)) != Ok::<u16, Error>(o));
        }
    }
}

} // verus!
