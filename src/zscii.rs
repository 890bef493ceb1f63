use vstd::prelude::*;
use crate::error::Error;
use crate::memory::{header_word, read_word, MemView, Memory};

verus! {

/// Longest Z-string, in words, that the decoder reads.
pub const MAX_STRING_WORDS: usize = 4096;

/// The decoder's shift state: an alphabet row (0, 1, 2), an abbreviation
/// waiting for its second Z-char, or a ten-bit literal waiting for its first or
/// second half.
#[derive(Clone, Copy, Debug, PartialEq, Eq, Structural)]
pub enum Mode {
    Alpha(u8),
    Abbrev(u8),
    Zcode1,
    Zcode2(u8),
}

/// The shift state and the row it falls back to after a character (A0, or
/// the row a V1/V2 shift lock chose).
#[derive(Clone, Copy, Debug, PartialEq, Eq, Structural)]
pub struct DecState {
    pub mode: Mode,
    pub lock: u8,
}

/// Rows and abbreviation tables number 0..2; a pending ten-bit half is a
/// Z-char.
pub open spec fn state_ok(st: DecState) -> bool {
    &&& st.lock < 3
    &&& match st.mode {
        Mode::Alpha(r) => r < 3,
        Mode::Abbrev(t) => t < 3,
        Mode::Zcode1 => true,
        Mode::Zcode2(h) => h < 32,
    }
}

pub open spec fn start() -> DecState {
    DecState { mode: Mode::Alpha(0), lock: 0 }
}

/// The words of the Z-string at `a`, up to and including the one with the top
/// bit set, reading no more than `fuel` words.
pub open spec fn string_words(m: MemView, a: int, fuel: nat) -> Result<Seq<u16>, Error>
    decreases fuel,
{
    if fuel == 0 {
        Err(Error::MalformedString)
    } else {
        match read_word(m, a) {
            Err(e) => Err(e),
            Ok(w) => if w >= 0x8000 {
                Ok(seq![w])
            } else {
                match string_words(m, a + 2, (fuel - 1) as nat) {
                    Ok(ws) => Ok(seq![w] + ws),
                    Err(e) => Err(e),
                }
            },
        }
    }
}

/// Z-char `k` (0, 1, 2) of a word: bits 14-10, 9-5, 4-0.
pub open spec fn zchar(w: u16, k: int) -> u8 {
    if k == 0 {
        ((w / 1024) % 32) as u8
    } else if k == 1 {
        ((w / 32) % 32) as u8
    } else {
        (w % 32) as u8
    }
}

pub open spec fn zchars(ws: Seq<u16>) -> Seq<u8> {
    Seq::new(3 * ws.len(), |j: int| zchar(ws[j / 3], j % 3))
}

pub open spec fn punct(v1: bool, i: int) -> char {
    if v1 {
        if i == 0 { '.' } else if i == 1 { ',' } else if i == 2 { '!' } else if i == 3 { '?' }
        else if i == 4 { '_' } else if i == 5 { '#' } else if i == 6 { '\'' } else if i == 7 { '"' }
        else if i == 8 { '/' } else if i == 9 { '\\' } else if i == 10 { '<' } else if i == 11 { '-' }
        else if i == 12 { ':' } else if i == 13 { '(' } else { ')' }
    } else {
        if i == 0 { '.' } else if i == 1 { ',' } else if i == 2 { '!' } else if i == 3 { '?' }
        else if i == 4 { '_' } else if i == 5 { '#' } else if i == 6 { '\'' } else if i == 7 { '"' }
        else if i == 8 { '/' } else if i == 9 { '\\' } else if i == 10 { '-' } else if i == 11 { ':' }
        else if i == 12 { '(' } else { ')' }
    }
}

/// Character `z` (7..31) of alphabet row A2; V1 has no newline and a `<`.
pub open spec fn a2_char(version: u8, z: u8) -> char {
    if version == 1 {
        if z <= 16 {
            ((48 + z - 7) as u8) as char
        } else {
            punct(true, z - 17)
        }
    } else {
        if z == 7 {
            '\n'
        } else if z <= 17 {
            ((48 + z - 8) as u8) as char
        } else {
            punct(false, z - 18)
        }
    }
}

/// Character `z` (6..31) of alphabet row `row`: lower case, upper case,
/// punctuation.
pub open spec fn alphabet_char(version: u8, row: u8, z: u8) -> char {
    if row == 0 {
        ((97 + z - 6) as u8) as char
    } else if row == 1 {
        ((65 + z - 6) as u8) as char
    } else {
        a2_char(version, z)
    }
}

/// The Unicode character of ZSCII codes 155..223 by the standard's default
/// translation table (accented Latin letters, quotation marks, currency);
/// `?` for any other code.
#[verifier::opaque]
pub open spec fn extra_char(code: u16) -> char {
    match code {
        155 => '\u{e4}',
        156 => '\u{f6}',
        157 => '\u{fc}',
        158 => '\u{c4}',
        159 => '\u{d6}',
        160 => '\u{dc}',
        161 => '\u{df}',
        162 => '\u{bb}',
        163 => '\u{ab}',
        164 => '\u{eb}',
        165 => '\u{ef}',
        166 => '\u{ff}',
        167 => '\u{cb}',
        168 => '\u{cf}',
        169 => '\u{e1}',
        170 => '\u{e9}',
        171 => '\u{ed}',
        172 => '\u{f3}',
        173 => '\u{fa}',
        174 => '\u{fd}',
        175 => '\u{c1}',
        176 => '\u{c9}',
        177 => '\u{cd}',
        178 => '\u{d3}',
        179 => '\u{da}',
        180 => '\u{dd}',
        181 => '\u{e0}',
        182 => '\u{e8}',
        183 => '\u{ec}',
        184 => '\u{f2}',
        185 => '\u{f9}',
        186 => '\u{c0}',
        187 => '\u{c8}',
        188 => '\u{cc}',
        189 => '\u{d2}',
        190 => '\u{d9}',
        191 => '\u{e2}',
        192 => '\u{ea}',
        193 => '\u{ee}',
        194 => '\u{f4}',
        195 => '\u{fb}',
        196 => '\u{c2}',
        197 => '\u{ca}',
        198 => '\u{ce}',
        199 => '\u{d4}',
        200 => '\u{db}',
        201 => '\u{e5}',
        202 => '\u{c5}',
        203 => '\u{f8}',
        204 => '\u{d8}',
        205 => '\u{e3}',
        206 => '\u{f1}',
        207 => '\u{f5}',
        208 => '\u{c3}',
        209 => '\u{d1}',
        210 => '\u{d5}',
        211 => '\u{e6}',
        212 => '\u{c6}',
        213 => '\u{e7}',
        214 => '\u{c7}',
        215 => '\u{fe}',
        216 => '\u{f0}',
        217 => '\u{de}',
        218 => '\u{d0}',
        219 => '\u{a3}',
        220 => '\u{153}',
        221 => '\u{152}',
        222 => '\u{a1}',
        223 => '\u{bf}',
        _ => '?',
    }
}

/// The character of a ZSCII code: 13 is a newline, 32..126 are ASCII,
/// 155..223 come from the default translation table, and the codes that are
/// no output characters are shown as `?`.
pub open spec fn zscii_char(code: u16) -> char {
    if code == 13 {
        '\n'
    } else if 32 <= code <= 126 {
        (code as u8) as char
    } else {
        extra_char(code)
    }
}

/// One Z-char under a state that is not waiting for an abbreviation: the next
/// state and the characters it emits.
pub open spec fn step(version: u8, st: DecState, z: u8) -> (DecState, Seq<char>) {
    let back = DecState { mode: Mode::Alpha(st.lock), lock: st.lock };
    match st.mode {
        Mode::Zcode1 => (DecState { mode: Mode::Zcode2(z), ..st }, Seq::empty()),
        Mode::Zcode2(hi) => (back, seq![zscii_char((hi as int * 32 + z) as u16)]),
        Mode::Abbrev(_) => (back, Seq::empty()),
        Mode::Alpha(row) => if z == 0 {
            (back, seq![' '])
        } else if z == 1 && version == 1 {
            (back, seq!['\n'])
        } else if z == 1 || (z <= 3 && version >= 3) {
            (DecState { mode: Mode::Abbrev((z - 1) as u8), ..st }, Seq::empty())
        } else if z <= 3 {
            (DecState { mode: Mode::Alpha((z - 1) as u8), lock: (z - 1) as u8 }, Seq::empty())
        } else if z <= 5 {
            (DecState { mode: Mode::Alpha((z - 3) as u8), ..st }, Seq::empty())
        } else if row == 2 && z == 6 {
            (DecState { mode: Mode::Zcode1, ..st }, Seq::empty())
        } else {
            (back, seq![alphabet_char(version, row, z)])
        },
    }
}

/// The Z-string that abbreviation `32 * t + z` stands for: the abbreviations
/// table holds its word address.
pub open spec fn abbrev_words(m: MemView, t: u8, z: u8) -> Result<Seq<u16>, Error> {
    match read_word(m, header_word(m, 0x18) + 2 * (32 * t + z)) {
        Err(e) => Err(e),
        Ok(wa) => string_words(m, 2 * wa, MAX_STRING_WORDS as nat),
    }
}

pub open spec fn prepend(p: Seq<char>, r: Result<Seq<char>, Error>) -> Result<Seq<char>, Error> {
    match r {
        Ok(s) => Ok(p + s),
        Err(e) => Err(e),
    }
}

/// Decoding Z-chars `zs[i..]` from state `st`. Inside an abbreviation
/// (`nested`) another abbreviation is malformed.
pub open spec fn decode_from(
    m: MemView,
    version: u8,
    zs: Seq<u8>,
    i: int,
    st: DecState,
    nested: bool,
) -> Result<Seq<char>, Error>
    decreases
            (if nested {
                0int
            } else {
                1int
            }),
            zs.len() - i,
{
    if i < 0 || i >= zs.len() {
        Ok(Seq::empty())
    } else {
        let z = zs[i];
        match st.mode {
            Mode::Abbrev(t) => if nested {
                Err(Error::MalformedString)
            } else {
                match abbrev_words(m, t, z) {
                    Err(e) => Err(e),
                    Ok(ws) => match decode_from(m, version, zchars(ws), 0, start(), true) {
                        Err(e) => Err(e),
                        Ok(s) => prepend(
                            s,
                            decode_from(
                                m,
                                version,
                                zs,
                                i + 1,
                                DecState { mode: Mode::Alpha(st.lock), lock: st.lock },
                                nested,
                            ),
                        ),
                    },
                }
            },
            _ => {
                let (st2, out) = step(version, st, z);
                prepend(out, decode_from(m, version, zs, i + 1, st2, nested))
            },
        }
    }
}

/// The text of the Z-string at `a` and the address just after it.
pub open spec fn decode_string(m: MemView, version: u8, a: int) -> Result<(Seq<char>, int), Error> {
    match string_words(m, a, MAX_STRING_WORDS as nat) {
        Err(e) => Err(e),
        Ok(ws) => match decode_from(m, version, zchars(ws), 0, start(), false) {
            Err(e) => Err(e),
            Ok(s) => Ok((s, a + 2 * ws.len())),
        },
    }
}

/// A Z-string decoder; `ptr` is the address just after the last string read.
pub struct Zscii {
    ptr: u32,
}

impl Zscii {
    pub fn new() -> (r: Zscii)
        ensures
            r.ptr() == 0,
    {
        Zscii { ptr: 0 }
    }

    pub closed spec fn ptr(&self) -> int {
        self.ptr as int
    }

    /// The address just after the last string read.
    pub fn get_ptr(&self) -> (r: u32)
        ensures
            r == self.ptr(),
    {
        self.ptr
    }

    /// Decodes the Z-string at `ptr` and moves past it.
    pub fn get_string(&mut self, mem: &Memory, version: u8, ptr: u32) -> (r: Result<Vec<char>, Error>)
        requires
            mem.wf(),
        ensures
            match decode_string(mem@, version, ptr as int) {
                Ok((s, end)) => r matches Ok(v) && v@ == s && final(self).ptr() == end,
                Err(e) => r matches Err(e2) && e2 == e,
            },
    {
        let ws = read_words(mem, ptr)?;
        let zs = words_to_zchars(&ws);
        let s = decode_zchars(mem, version, &zs, false)?;
        self.ptr = ptr + 2 * ws.len() as u32;
        Ok(s)
    }
}

fn read_words(mem: &Memory, start: u32) -> (r: Result<Vec<u16>, Error>)
    requires
        mem.wf(),
    ensures
        match string_words(mem@, start as int, MAX_STRING_WORDS as nat) {
            Ok(ws) => r matches Ok(v) && v@ == ws && ws.len() <= MAX_STRING_WORDS,
            Err(e) => r matches Err(e2) && e2 == e,
        },
{
    let mut v: Vec<u16> = Vec::new();
    let mut a: u32 = start;
    let mut fuel: usize = MAX_STRING_WORDS;
    loop
        invariant
            mem.wf(),
            fuel <= MAX_STRING_WORDS,
            v@.len() == MAX_STRING_WORDS - fuel,
            a == start + 2 * v@.len(),
            start < 0x20000 ==> a < 0x30000,
            string_words(mem@, start as int, MAX_STRING_WORDS as nat) == match string_words(
                mem@,
                a as int,
                fuel as nat,
            ) {
                Ok(ws) => Ok(v@ + ws),
                Err(e) => Err(e),
            },
        decreases fuel,
    {
        if fuel == 0 {
            return Err(Error::MalformedString);
        }
        let w = mem.read_u16(a)?;
        let ghost before = v@;
        v.push(w);
        if w >= 0x8000 {
            assert(before + seq![w] =~= v@);
            return Ok(v);
        }
        proof {
            let rest = string_words(mem@, a + 2, (fuel - 1) as nat);
            match rest {
                Ok(ws) => {
                    assert(before + (seq![w] + ws) =~= v@ + ws);
                },
                Err(_) => {},
            }
        }
        a = a + 2;
        fuel = fuel - 1;
    }
}

fn words_to_zchars(ws: &Vec<u16>) -> (r: Vec<u8>)
    requires
        ws@.len() <= MAX_STRING_WORDS,
    ensures
        r@ == zchars(ws@),
{
    let mut r: Vec<u8> = Vec::new();
    let mut i: usize = 0;
    while i < ws.len()
        invariant
            i <= ws@.len() <= MAX_STRING_WORDS,
            r@ =~= zchars(ws@).subrange(0, 3 * i as int),
        decreases ws@.len() - i,
    {
        let w = ws[i];
        r.push(((w / 1024) % 32) as u8);
        r.push(((w / 32) % 32) as u8);
        r.push((w % 32) as u8);
        proof {
            let z = zchars(ws@);
            assert(z[3 * i as int] == zchar(w, 0));
            assert(z[3 * i + 1] == zchar(w, 1));
            assert(z[3 * i + 2] == zchar(w, 2));
            assert(r@ =~= z.subrange(0, 3 * (i + 1) as int));
        }
        i += 1;
    }
    assert(r@ =~= zchars(ws@));
    r
}

fn punct_char(v1: bool, i: u8) -> (r: char)
    ensures
        r == punct(v1, i as int),
{
    if v1 {
        match i {
            0 => '.', 1 => ',', 2 => '!', 3 => '?', 4 => '_', 5 => '#', 6 => '\'', 7 => '"',
            8 => '/', 9 => '\\', 10 => '<', 11 => '-', 12 => ':', 13 => '(', _ => ')',
        }
    } else {
        match i {
            0 => '.', 1 => ',', 2 => '!', 3 => '?', 4 => '_', 5 => '#', 6 => '\'', 7 => '"',
            8 => '/', 9 => '\\', 10 => '-', 11 => ':', 12 => '(', _ => ')',
        }
    }
}

fn alphabet_lookup(version: u8, row: u8, z: u8) -> (r: char)
    requires
        6 <= z < 32,
    ensures
        r == alphabet_char(version, row, z),
{
    if row == 0 {
        (97 + z - 6) as char
    } else if row == 1 {
        (65 + z - 6) as char
    } else if version == 1 {
        if z <= 16 {
            (48 + z - 7) as char
        } else {
            punct_char(true, z - 17)
        }
    } else if z == 7 {
        '\n'
    } else if z <= 17 {
        (48 + z - 8) as char
    } else {
        punct_char(false, z - 18)
    }
}

fn extra_to_char(code: u16) -> (r: char)
    ensures
        r == extra_char(code),
{
    reveal(extra_char);
    match code {
        155 => '\u{e4}',
        156 => '\u{f6}',
        157 => '\u{fc}',
        158 => '\u{c4}',
        159 => '\u{d6}',
        160 => '\u{dc}',
        161 => '\u{df}',
        162 => '\u{bb}',
        163 => '\u{ab}',
        164 => '\u{eb}',
        165 => '\u{ef}',
        166 => '\u{ff}',
        167 => '\u{cb}',
        168 => '\u{cf}',
        169 => '\u{e1}',
        170 => '\u{e9}',
        171 => '\u{ed}',
        172 => '\u{f3}',
        173 => '\u{fa}',
        174 => '\u{fd}',
        175 => '\u{c1}',
        176 => '\u{c9}',
        177 => '\u{cd}',
        178 => '\u{d3}',
        179 => '\u{da}',
        180 => '\u{dd}',
        181 => '\u{e0}',
        182 => '\u{e8}',
        183 => '\u{ec}',
        184 => '\u{f2}',
        185 => '\u{f9}',
        186 => '\u{c0}',
        187 => '\u{c8}',
        188 => '\u{cc}',
        189 => '\u{d2}',
        190 => '\u{d9}',
        191 => '\u{e2}',
        192 => '\u{ea}',
        193 => '\u{ee}',
        194 => '\u{f4}',
        195 => '\u{fb}',
        196 => '\u{c2}',
        197 => '\u{ca}',
        198 => '\u{ce}',
        199 => '\u{d4}',
        200 => '\u{db}',
        201 => '\u{e5}',
        202 => '\u{c5}',
        203 => '\u{f8}',
        204 => '\u{d8}',
        205 => '\u{e3}',
        206 => '\u{f1}',
        207 => '\u{f5}',
        208 => '\u{c3}',
        209 => '\u{d1}',
        210 => '\u{d5}',
        211 => '\u{e6}',
        212 => '\u{c6}',
        213 => '\u{e7}',
        214 => '\u{c7}',
        215 => '\u{fe}',
        216 => '\u{f0}',
        217 => '\u{de}',
        218 => '\u{d0}',
        219 => '\u{a3}',
        220 => '\u{153}',
        221 => '\u{152}',
        222 => '\u{a1}',
        223 => '\u{bf}',
        _ => '?',
    }
}

/// The character of a ZSCII code.
pub fn zscii_to_char(code: u16) -> (r: char)
    ensures
        r == zscii_char(code),
{
    if code == 13 {
        '\n'
    } else if 32 <= code && code <= 126 {
        (code as u8) as char
    } else {
        extra_to_char(code)
    }
}

/// `r` is the ZSCII code of the typed character `c`: 13 for a newline, the
/// same code for printable ASCII, its code in the default translation table
/// for a character listed there, and `?` (63) for anything else.
pub open spec fn is_key_code(c: char, r: u16) -> bool {
    if c == '\n' {
        r == 13
    } else if 32 <= c as u32 <= 126 {
        r == c as u32
    } else {
        (155 <= r <= 223 && extra_char(r) == c) || (r == 63 && forall|k: u16|
            155 <= k <= 223 ==> #[trigger] extra_char(k) != c)
    }
}

/// The ZSCII code of a typed character.
pub fn zscii_of_key(c: char) -> (r: u16)
    ensures
        is_key_code(c, r),
        r <= 223,
{
    if c == '\n' {
        return 13;
    }
    let u = c as u32;
    if 32 <= u && u <= 126 {
        return u as u16;
    }
    let mut k: u16 = 155;
    while k <= 223
        invariant
            155 <= k <= 224,
            c != '\n',
            !(32 <= c as u32 <= 126),
            forall|j: u16| 155 <= j < k ==> #[trigger] extra_char(j) != c,
        decreases 224 - k,
    {
        if extra_to_char(k) == c {
            return k;
        }
        k += 1;
    }
    63
}

/// The ZSCII bytes of a typed line, one per character.
pub fn zscii_of_line(line: &Vec<char>) -> (r: Vec<u8>)
    ensures
        r@.len() == line@.len(),
        forall|i: int| 0 <= i < line@.len() ==> is_key_code(line@[i], #[trigger] r@[i] as u16),
{
    let mut r: Vec<u8> = Vec::new();
    let mut i: usize = 0;
    while i < line.len()
        invariant
            i <= line@.len(),
            r@.len() == i,
            forall|j: int| 0 <= j < i ==> is_key_code(line@[j], #[trigger] r@[j] as u16),
        decreases line@.len() - i,
    {
        let code = zscii_of_key(line[i]);
        r.push(code as u8);
        i += 1;
    }
    r
}

fn step_exec(version: u8, st: DecState, z: u8) -> (r: (DecState, Option<char>))
    requires
        z < 32,
        !(st.mode is Abbrev),
        state_ok(st),
    ensures
        state_ok(r.0),
        r.0 == step(version, st, z).0,
        step(version, st, z).1 == match r.1 {
            Some(c) => seq![c],
            None => Seq::<char>::empty(),
        },
{
    let back = DecState { mode: Mode::Alpha(st.lock), lock: st.lock };
    match st.mode {
        Mode::Zcode1 => (DecState { mode: Mode::Zcode2(z), ..st }, None),
        Mode::Zcode2(hi) => (back, Some(zscii_to_char(hi as u16 * 32 + z as u16))),
        Mode::Abbrev(_) => (back, None),
        Mode::Alpha(row) => if z == 0 {
            (back, Some(' '))
        } else if z == 1 && version == 1 {
            (back, Some('\n'))
        } else if z == 1 || (z <= 3 && version >= 3) {
            (DecState { mode: Mode::Abbrev(z - 1), ..st }, None)
        } else if z <= 3 {
            (DecState { mode: Mode::Alpha(z - 1), lock: z - 1 }, None)
        } else if z <= 5 {
            (DecState { mode: Mode::Alpha(z - 3), ..st }, None)
        } else if row == 2 && z == 6 {
            (DecState { mode: Mode::Zcode1, ..st }, None)
        } else {
            (back, Some(alphabet_lookup(version, row, z)))
        },
    }
}

/// Decodes a sequence of Z-chars; `nested` marks the text of an abbreviation,
/// inside which another abbreviation is refused.
fn decode_zchars(mem: &Memory, version: u8, zs: &Vec<u8>, nested: bool) -> (r: Result<Vec<char>, Error>)
    requires
        mem.wf(),
        forall|j: int| 0 <= j < zs@.len() ==> #[trigger] zs@[j] < 32,
    ensures
        match decode_from(mem@, version, zs@, 0, start(), nested) {
            Ok(s) => r matches Ok(v) && v@ == s,
            Err(e) => r matches Err(e2) && e2 == e,
        },
    decreases
            (if nested {
                0int
            } else {
                1int
            }),
            0int,
{
    let mut out: Vec<char> = Vec::new();
    let mut st = DecState { mode: Mode::Alpha(0), lock: 0 };
    let mut i: usize = 0;
    while i < zs.len()
        invariant
            mem.wf(),
            i <= zs@.len(),
            forall|j: int| 0 <= j < zs@.len() ==> #[trigger] zs@[j] < 32,
            state_ok(st),
            decode_from(mem@, version, zs@, 0, start(), nested) == prepend(
                out@,
                decode_from(mem@, version, zs@, i as int, st, nested),
            ),
        decreases zs@.len() - i,
    {
        let z = zs[i];
        let ghost before = out@;
        let ghost st0 = st;
        let ghost chunk: Seq<char>;
        match st.mode {
            Mode::Abbrev(t) => {
                if nested {
                    return Err(Error::MalformedString);
                }
                let ws = abbreviation_words(mem, t, z)?;
                let azs = words_to_zchars(&ws);
                proof {
                    assert forall|j: int| 0 <= j < azs@.len() implies #[trigger] azs@[j] < 32 by {
                        assert(azs@[j] == zchar(ws@[j / 3], j % 3));
                    }
                }
                let mut s = decode_zchars(mem, version, &azs, true)?;
                proof {
                    chunk = s@;
                }
                out.append(&mut s);
                st = DecState { mode: Mode::Alpha(st.lock), lock: st.lock };
            },
            _ => {
                let (st2, c) = step_exec(version, st, z);
                proof {
                    chunk = step(version, st0, z).1;
                }
                match c {
                    Some(ch) => out.push(ch),
                    None => {},
                }
                st = st2;
            },
        }
        proof {
            assert(out@ =~= before + chunk);
            assert(decode_from(mem@, version, zs@, i as int, st0, nested) == prepend(
                chunk,
                decode_from(mem@, version, zs@, i + 1, st, nested),
            ));
            match decode_from(mem@, version, zs@, i + 1, st, nested) {
                Ok(tail) => {
                    assert(before + (chunk + tail) =~= out@ + tail);
                },
                Err(_) => {},
            }
        }
        i += 1;
    }
    assert(out@ + Seq::<char>::empty() =~= out@);
    Ok(out)
}

fn abbreviation_words(mem: &Memory, t: u8, z: u8) -> (r: Result<Vec<u16>, Error>)
    requires
        mem.wf(),
        t < 3,
        z < 32,
    ensures
        match abbrev_words(mem@, t, z) {
            Ok(ws) => r matches Ok(v) && v@ == ws && ws.len() <= MAX_STRING_WORDS,
            Err(e) => r matches Err(e2) && e2 == e,
        },
{
    let entry = mem.abbreviations_table() as u32 + 2 * (32 * t as u32 + z as u32);
    let wa = mem.read_u16(entry)?;
    read_words(mem, 2 * wa as u32)
}

/// The characters every alphabet table has in the same place: space and the
/// letters.
pub open spec fn in_alphabet(c: char) -> bool {
    c == ' ' || ('a' <= c && c <= 'z') || ('A' <= c && c <= 'Z')
}

/// The Z-chars of one character: 0 for a space, a row-A0 code for a small
/// letter, a shift to A1 and the code for a capital.
pub open spec fn encode_char(c: char) -> Seq<u8> {
    if c == ' ' {
        seq![0u8]
    } else if 'a' <= c && c <= 'z' {
        seq![(c as u32 - 91) as u8]
    } else {
        seq![4u8, (c as u32 - 59) as u8]
    }
}

pub open spec fn encode(s: Seq<char>) -> Seq<u8>
    decreases s.len(),
{
    if s.len() == 0 {
        Seq::empty()
    } else {
        encode_char(s[0]) + encode(s.drop_first())
    }
}

/// Decoding from position `i` looks only at the Z-chars from `k <= i` on.
proof fn lemma_decode_suffix(
    m: MemView,
    version: u8,
    zs: Seq<u8>,
    k: int,
    i: int,
    st: DecState,
    nested: bool,
)
    requires
        0 <= k <= i,
        k <= zs.len(),
    ensures
        decode_from(m, version, zs, i, st, nested) == decode_from(
            m,
            version,
            zs.subrange(k, zs.len() as int),
            i - k,
            st,
            nested,
        ),
    decreases zs.len() - i,
{
    let tail = zs.subrange(k, zs.len() as int);
    if i < zs.len() {
        assert(tail[i - k] == zs[i]);
        let z = zs[i];
        match st.mode {
            Mode::Abbrev(t) => {
                lemma_decode_suffix(
                    m,
                    version,
                    zs,
                    k,
                    i + 1,
                    DecState { mode: Mode::Alpha(st.lock), lock: st.lock },
                    nested,
                );
            },
            _ => {
                let (st2, out) = step(version, st, z);
                lemma_decode_suffix(m, version, zs, k, i + 1, st2, nested);
            },
        }
    }
}

/// Law: the Z-chars that encode a text of spaces and letters decode, in any
/// version and with any abbreviation table, to that text.
#[verifier::rlimit(60)]
pub proof fn lemma_encode_decode(m: MemView, version: u8, s: Seq<char>, nested: bool)
    requires
        forall|j: int| 0 <= j < s.len() ==> in_alphabet(#[trigger] s[j]),
    ensures
        decode_from(m, version, encode(s), 0, start(), nested) == Ok::<Seq<char>, Error>(s),
    decreases s.len(),
{
    if s.len() == 0 {
        assert(decode_from(m, version, encode(s), 0, start(), nested) == Ok::<Seq<char>, Error>(
            Seq::empty(),
        ));
        assert(s =~= Seq::<char>::empty());
    } else {
        let c = s[0];
        let rest = s.drop_first();
        assert forall|j: int| 0 <= j < rest.len() implies in_alphabet(#[trigger] rest[j]) by {
            assert(rest[j] == s[j + 1]);
        }
        lemma_encode_decode(m, version, rest, nested);
        let zs = encode(s);
        let head = encode_char(c);
        assert(zs == head + encode(rest));
        let k = head.len() as int;
        assert(zs.subrange(k, zs.len() as int) =~= encode(rest));
        lemma_decode_suffix(m, version, zs, k, k, start(), nested);
        assert(in_alphabet(c));
        if c == ' ' {
            assert(decode_from(m, version, zs, 0, start(), nested) == prepend(
                seq![' '],
                decode_from(m, version, zs, 1, start(), nested),
            ));
        } else if 'a' <= c && c <= 'z' {
            let z = (c as u32 - 91) as u8;
            assert(((97 + z - 6) as u8) as char == c);
            assert(decode_from(m, version, zs, 0, start(), nested) == prepend(
                seq![c],
                decode_from(m, version, zs, 1, start(), nested),
            ));
        } else {
            let z = (c as u32 - 59) as u8;
            assert(((65 + z - 6) as u8) as char == c);
            let shifted = DecState { mode: Mode::Alpha(1), lock: 0 };
            assert(decode_from(m, version, zs, 1, shifted, nested) == prepend(
                seq![c],
                decode_from(m, version, zs, 2, start(), nested),
            ));
            assert(decode_from(m, version, zs, 0, start(), nested) == prepend(
                Seq::empty(),
                decode_from(m, version, zs, 1, shifted, nested),
            ));
        }
        assert(seq![c] + rest =~= s);
        assert(Seq::<char>::empty() + (seq![c] + rest) =~= seq![c] + rest);
    }
}

} // verus!
