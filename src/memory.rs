use vstd::prelude::*;
use crate::error::Error;

verus! {

/// Largest story image the machine accepts (512 KiB).
pub const STORY_MAX: usize = 0x80000;

/// Size of the fixed header at the start of every story.
pub const HEADER_SIZE: usize = 64;

/// Number of words the shared evaluation/frame stack can hold.
pub const STACK_SIZE: usize = 4096;

/// Highest number of locals a routine may declare.
pub const MAX_LOCALS: u8 = 15;

/// The big-endian word made of two bytes.
pub open spec fn word_of(hi: u8, lo: u8) -> u16 {
    (hi as int * 256 + lo as int) as u16
}

/// What the machine sees of its memory: the story bytes, an untouched copy of
/// the image as loaded, the static-memory boundary taken at load time, and the
/// word stack (its length is the stack pointer).
pub ghost struct MemView {
    pub bytes: Seq<u8>,
    pub original: Seq<u8>,
    pub static_base: int,
    pub stack: Seq<u16>,
}

/// Sizes fit their bounds, and the image keeps its length.
pub open spec fn mem_ok(m: MemView) -> bool {
    &&& HEADER_SIZE <= m.bytes.len() <= STORY_MAX
    &&& m.original.len() == m.bytes.len()
    &&& 0 <= m.static_base
    &&& m.stack.len() <= STACK_SIZE
}

pub open spec fn read_byte(m: MemView, a: int) -> Result<u8, Error> {
    if 0 <= a < m.bytes.len() {
        Ok(m.bytes[a])
    } else {
        Err(Error::MemoryOutOfBounds)
    }
}

pub open spec fn read_word(m: MemView, a: int) -> Result<u16, Error> {
    if 0 <= a && a + 1 < m.bytes.len() {
        Ok(word_of(m.bytes[a], m.bytes[a + 1]))
    } else {
        Err(Error::MemoryOutOfBounds)
    }
}

/// The two bytes of flags 2, which a story may write even where they lie in
/// static memory.
pub open spec fn is_flags2(a: int) -> bool {
    a == 0x10 || a == 0x11
}

/// Whether a byte may be written: in the image, and below static memory or
/// one of the flags-2 bytes.
pub open spec fn write_check(m: MemView, a: int) -> Result<(), Error> {
    if !(0 <= a < m.bytes.len()) {
        Err(Error::MemoryOutOfBounds)
    } else if a >= m.static_base && !is_flags2(a) {
        Err(Error::MemoryWriteProtected)
    } else {
        Ok(())
    }
}

pub open spec fn write_byte(m: MemView, a: int, v: u8) -> Result<MemView, Error> {
    match write_check(m, a) {
        Ok(_) => Ok(MemView { bytes: m.bytes.update(a, v), ..m }),
        Err(e) => Err(e),
    }
}

pub open spec fn write_word(m: MemView, a: int, v: u16) -> Result<MemView, Error> {
    match write_check(m, a) {
        Err(e) => Err(e),
        Ok(_) => match write_check(m, a + 1) {
            Err(e) => Err(e),
            Ok(_) => Ok(
                MemView {
                    bytes: m.bytes.update(a, (v / 256) as u8).update(a + 1, (v % 256) as u8),
                    ..m
                },
            ),
        },
    }
}

pub open spec fn header_word(m: MemView, a: int) -> u16 {
    word_of(m.bytes[a], m.bytes[a + 1])
}

/// Byte address of global variable `id` (0x10..0xFF).
pub open spec fn global_addr(m: MemView, id: u8) -> int {
    header_word(m, 0x0C) + 2 * (id - 16)
}

/// The stack index of local `i` (1-based) of a frame.
pub open spec fn local_index(f: StackFrame, i: int) -> int {
    f.bp - i
}

/// A frame fits the stack: its locals lie below its base, which is at or
/// below the stack pointer.
pub open spec fn frame_fits(f: StackFrame, sp: int) -> bool {
    f.nlocals <= MAX_LOCALS && f.nlocals <= f.bp <= sp
}

/// Memory after a restart: dynamic memory as loaded, flags 2 kept, static
/// memory as it is, the stack empty.
pub open spec fn reset_view(m: MemView) -> MemView {
    MemView {
        bytes: Seq::new(
            m.bytes.len(),
            |a: int|
                if is_flags2(a) || a >= m.static_base {
                    m.bytes[a]
                } else {
                    m.original[a]
                },
        ),
        stack: Seq::empty(),
        ..m
    }
}

/// Reading variable `id` (0: pop the stack; 1..15: a local; else a global).
pub open spec fn load_var(m: MemView, id: u8, f: StackFrame) -> Result<(MemView, u16), Error> {
    if id == 0 {
        if m.stack.len() <= f.bp {
            Err(Error::StackUnderflow)
        } else {
            Ok((MemView { stack: m.stack.drop_last(), ..m }, m.stack.last()))
        }
    } else if id < 16 {
        if id > f.nlocals {
            Err(Error::InvalidVariable(id))
        } else {
            Ok((m, m.stack[local_index(f, id as int)]))
        }
    } else {
        match read_word(m, global_addr(m, id)) {
            Ok(v) => Ok((m, v)),
            Err(e) => Err(e),
        }
    }
}

/// Writing variable `id` (0: push; 1..15: a local; else a global).
pub open spec fn store_var(m: MemView, id: u8, v: u16, f: StackFrame) -> Result<MemView, Error> {
    if id == 0 {
        if m.stack.len() >= STACK_SIZE {
            Err(Error::StackOverflow)
        } else {
            Ok(MemView { stack: m.stack.push(v), ..m })
        }
    } else if id < 16 {
        if id > f.nlocals {
            Err(Error::InvalidVariable(id))
        } else {
            Ok(MemView { stack: m.stack.update(local_index(f, id as int), v), ..m })
        }
    } else {
        write_word(m, global_addr(m, id), v)
    }
}

/// One routine activation. `pc` is where it executes (for a caller, where it
/// resumes), `bp` is the stack index below which it never pops, its locals sit
/// at `bp - 1` (local 1) down to `bp - nlocals`, and `store` names the
/// variable that receives its return value (`None`: discard).
#[derive(Clone, Copy, Debug, PartialEq, Eq, Structural)]
pub struct StackFrame {
    pub pc: u32,
    pub bp: usize,
    pub nlocals: u8,
    pub store: Option<u8>,
}

/// The word stack shared by all frames.
pub struct Stack {
    words: Vec<u16>,
}

impl View for Stack {
    type V = Seq<u16>;

    closed spec fn view(&self) -> Seq<u16> {
        self.words@
    }
}

impl Stack {
    /// The stack pointer: the number of words on the stack.
    pub fn sp(&self) -> (r: usize)
        ensures
            r == self@.len(),
    {
        self.words.len()
    }

    /// The word at a stack index.
    pub fn get(&self, i: usize) -> (r: u16)
        requires
            i < self@.len(),
        ensures
            r == self@[i as int],
    {
        self.words[i]
    }
}

impl StackFrame {
    /// The frame of the main routine: no caller, no locals, no return store.
    pub fn main(pc: u32) -> (r: StackFrame)
        ensures
            r == (StackFrame { pc, bp: 0, nlocals: 0, store: None }),
    {
        StackFrame { pc, bp: 0, nlocals: 0, store: None }
    }

    /// Local `i` (1-based) of this frame.
    pub fn read_local(&self, stack: &Stack, i: u16) -> (r: u16)
        requires
            1 <= i <= self.nlocals,
            frame_fits(*self, stack@.len() as int),
        ensures
            r == stack@[local_index(*self, i as int)],
    {
        stack.get(self.bp - i as usize)
    }
}

/// The story image and the word stack.
pub struct Memory {
    bytes: Vec<u8>,
    original: Vec<u8>,
    static_base: u32,
    stack: Stack,
}

impl View for Memory {
    type V = MemView;

    closed spec fn view(&self) -> MemView {
        MemView {
            bytes: self.bytes@,
            original: self.original@,
            static_base: self.static_base as int,
            stack: self.stack@,
        }
    }
}

impl Memory {
    /// Sizes fit their bounds, and the image keeps its length.
    pub open spec fn wf(&self) -> bool {
        mem_ok(self@)
    }

    /// Loads a story image; the static-memory boundary is read from the header
    /// once, here.
    pub fn new(story: &[u8]) -> (r: Memory)
        requires
            HEADER_SIZE <= story@.len() <= STORY_MAX,
        ensures
            r.wf(),
            r@.bytes == story@,
            r@.original == story@,
            r@.static_base == word_of(story@[0x0E], story@[0x0F]),
            r@.stack.len() == 0,
    {
        let bytes = Self::copy_bytes(story);
        let original = Self::copy_bytes(story);
        let static_base = Self::word_from(bytes[0x0E], bytes[0x0F]) as u32;
        Memory { bytes, original, static_base, stack: Stack { words: Vec::new() } }
    }

    fn copy_bytes(story: &[u8]) -> (r: Vec<u8>)
        ensures
            r@ == story@,
    {
        let mut v: Vec<u8> = Vec::new();
        let mut i: usize = 0;
        while i < story.len()
            invariant
                i <= story@.len(),
                v@ == story@.subrange(0, i as int),
            decreases story@.len() - i,
        {
            v.push(story[i]);
            i += 1;
            assert(v@ =~= story@.subrange(0, i as int));
        }
        assert(v@ =~= story@);
        v
    }

    fn word_from(hi: u8, lo: u8) -> (r: u16)
        ensures
            r == word_of(hi, lo),
    {
        (hi as u16) * 256 + (lo as u16)
    }

    /// The word stack.
    pub fn stack(&self) -> (r: &Stack)
        ensures
            r@ == self@.stack,
    {
        &self.stack
    }

    /// Length of the story image in bytes.
    pub fn len(&self) -> (r: usize)
        ensures
            r == self@.bytes.len(),
    {
        self.bytes.len()
    }

    /// A byte of the image as it was loaded.
    pub fn original_byte(&self, a: usize) -> (r: u8)
        requires
            a < self@.original.len(),
        ensures
            r == self@.original[a as int],
    {
        self.original[a]
    }

    pub fn read_u8(&self, addr: u32) -> (r: Result<u8, Error>)
        requires
            self.wf(),
        ensures
            r == read_byte(self@, addr as int),
    {
        if (addr as usize) < self.bytes.len() {
            Ok(self.bytes[addr as usize])
        } else {
            Err(Error::MemoryOutOfBounds)
        }
    }

    /// Big-endian word at `addr`.
    pub fn read_u16(&self, addr: u32) -> (r: Result<u16, Error>)
        requires
            self.wf(),
        ensures
            r == read_word(self@, addr as int),
    {
        if (addr as usize) < self.bytes.len() - 1 {
            let a = addr as usize;
            Ok(Self::word_from(self.bytes[a], self.bytes[a + 1]))
        } else {
            Err(Error::MemoryOutOfBounds)
        }
    }

    /// Big-endian double word at `addr`.
    pub fn read_u32(&self, addr: u32) -> (r: Result<u32, Error>)
        requires
            self.wf(),
        ensures
            r matches Ok(v) ==> {
                &&& read_word(self@, addr as int) matches Ok(hi)
                &&& read_word(self@, addr + 2) matches Ok(lo)
                &&& v == hi as int * 0x10000 + lo as int
            },
            r is Err <==> read_word(self@, addr + 2) is Err,
            r is Err ==> r == Err::<u32, Error>(Error::MemoryOutOfBounds),
    {
        if (addr as usize) < self.bytes.len() - 3 {
            let a = addr as usize;
            let hi = Self::word_from(self.bytes[a], self.bytes[a + 1]);
            let lo = Self::word_from(self.bytes[a + 2], self.bytes[a + 3]);
            Ok(hi as u32 * 0x10000 + lo as u32)
        } else {
            Err(Error::MemoryOutOfBounds)
        }
    }

    fn check_write(&self, addr: u32) -> (r: Result<(), Error>)
        requires
            self.wf(),
        ensures
            r == write_check(self@, addr as int),
    {
        if (addr as usize) >= self.bytes.len() {
            Err(Error::MemoryOutOfBounds)
        } else if addr >= self.static_base && addr != 0x10 && addr != 0x11 {
            Err(Error::MemoryWriteProtected)
        } else {
            Ok(())
        }
    }

    pub fn write_u8(&mut self, addr: u32, val: u8) -> (r: Result<(), Error>)
        requires
            old(self).wf(),
        ensures
            final(self).wf(),
            match write_byte(old(self)@, addr as int, val) {
                Ok(m) => r is Ok && final(self)@ == m,
                Err(e) => r == Err::<(), Error>(e) && final(self)@ == old(self)@,
            },
    {
        match self.check_write(addr) {
            Ok(()) => {
                self.bytes.set(addr as usize, val);
                Ok(())
            },
            Err(e) => Err(e),
        }
    }

    /// Writes a big-endian word; nothing is written unless both bytes may be.
    pub fn write_u16(&mut self, addr: u32, val: u16) -> (r: Result<(), Error>)
        requires
            old(self).wf(),
        ensures
            final(self).wf(),
            match write_word(old(self)@, addr as int, val) {
                Ok(m) => r is Ok && final(self)@ == m,
                Err(e) => r == Err::<(), Error>(e) && final(self)@ == old(self)@,
            },
    {
        if addr >= u32::MAX {
            return Err(Error::MemoryOutOfBounds);
        }
        match self.check_write(addr) {
            Err(e) => Err(e),
            Ok(()) => match self.check_write(addr + 1) {
                Err(e) => Err(e),
                Ok(()) => {
                    self.bytes.set(addr as usize, (val / 256) as u8);
                    self.bytes.set(addr as usize + 1, (val % 256) as u8);
                    Ok(())
                },
            },
        }
    }

    /// Writes a big-endian double word; nothing is written unless all four
    /// bytes may be.
    pub fn write_u32(&mut self, addr: u32, val: u32) -> (r: Result<(), Error>)
        requires
            old(self).wf(),
        ensures
            final(self).wf(),
            match write_word(old(self)@, addr as int, (val / 0x10000) as u16) {
                Err(e) => r == Err::<(), Error>(e) && final(self)@ == old(self)@,
                Ok(m1) => match write_word(m1, addr + 2, (val % 0x10000) as u16) {
                    Err(e) => r == Err::<(), Error>(e) && final(self)@ == old(self)@,
                    Ok(m2) => r is Ok && final(self)@ == m2,
                },
            },
    {
        if addr >= u32::MAX - 3 {
            return Err(Error::MemoryOutOfBounds);
        }
        let hi = (val / 0x10000) as u16;
        let lo = (val % 0x10000) as u16;
        match self.check_write(addr) {
            Err(e) => return Err(e),
            Ok(()) => {},
        }
        match self.check_write(addr + 1) {
            Err(e) => return Err(e),
            Ok(()) => {},
        }
        match self.check_write(addr + 2) {
            Err(e) => return Err(e),
            Ok(()) => {},
        }
        match self.check_write(addr + 3) {
            Err(e) => return Err(e),
            Ok(()) => {},
        }
        // Every byte was checked above, so neither half can fail.
        self.write_u16(addr, hi)?;
        self.write_u16(addr + 2, lo)
    }

    /// Pushes a word on the stack.
    pub fn push(&mut self, val: u16) -> (r: Result<(), Error>)
        requires
            old(self).wf(),
        ensures
            final(self).wf(),
            old(self)@.stack.len() >= STACK_SIZE ==> r == Err::<(), Error>(Error::StackOverflow)
                && final(self)@ == old(self)@,
            old(self)@.stack.len() < STACK_SIZE ==> r is Ok && final(self)@ == (MemView {
                stack: old(self)@.stack.push(val),
                ..old(self)@
            }),
    {
        if self.stack.words.len() >= STACK_SIZE {
            Err(Error::StackOverflow)
        } else {
            self.stack.words.push(val);
            Ok(())
        }
    }

    /// Pops a word, never below the frame's base.
    pub fn pop(&mut self, frame: &StackFrame) -> (r: Result<u16, Error>)
        requires
            old(self).wf(),
        ensures
            final(self).wf(),
            old(self)@.stack.len() <= frame.bp ==> r == Err::<u16, Error>(Error::StackUnderflow)
                && final(self)@ == old(self)@,
            old(self)@.stack.len() > frame.bp ==> r == Ok::<u16, Error>(old(self)@.stack.last())
                && final(self)@ == (MemView { stack: old(self)@.stack.drop_last(), ..old(self)@ }),
    {
        if self.stack.words.len() <= frame.bp {
            Err(Error::StackUnderflow)
        } else {
            match self.stack.words.pop() {
                Some(v) => Ok(v),
                None => Err(Error::StackUnderflow),
            }
        }
    }

    /// Cuts the stack back to `sp` words.
    pub fn truncate_stack(&mut self, sp: usize)
        requires
            old(self).wf(),
            sp <= old(self)@.stack.len(),
        ensures
            final(self).wf(),
            final(self)@ == (MemView { stack: old(self)@.stack.subrange(0, sp as int), ..old(self)@ }),
    {
        self.stack.words.truncate(sp);
        assert(self.stack@ =~= old(self)@.stack.subrange(0, sp as int));
    }

    fn set_stack_word(&mut self, i: usize, val: u16)
        requires
            old(self).wf(),
            i < old(self)@.stack.len(),
        ensures
            final(self).wf(),
            final(self)@ == (MemView { stack: old(self)@.stack.update(i as int, val), ..old(self)@ }),
    {
        self.stack.words.set(i, val);
    }

    /// Sets local `i` (1-based) of a frame.
    pub fn write_local(&mut self, frame: &StackFrame, i: u8, val: u16)
        requires
            old(self).wf(),
            1 <= i <= frame.nlocals,
            frame_fits(*frame, old(self)@.stack.len() as int),
        ensures
            final(self).wf(),
            final(self)@ == (MemView {
                stack: old(self)@.stack.update(local_index(*frame, i as int), val),
                ..old(self)@
            }),
    {
        self.set_stack_word(frame.bp - i as usize, val);
    }

    fn header_u16(&self, a: usize) -> (r: u16)
        requires
            self.wf(),
            a + 1 < HEADER_SIZE,
        ensures
            r == header_word(self@, a as int),
    {
        Self::word_from(self.bytes[a], self.bytes[a + 1])
    }

    /// Byte address of global variable `id` (0x10..0xFF).
    pub fn global_address(&self, id: u8) -> (r: u32)
        requires
            self.wf(),
            id >= 16,
        ensures
            r == global_addr(self@, id),
    {
        self.global_variables() as u32 + 2 * (id as u32 - 16)
    }

    pub fn read_global(&self, id: u8) -> (r: Result<u16, Error>)
        requires
            self.wf(),
            id >= 16,
        ensures
            r == read_word(self@, global_addr(self@, id)),
    {
        self.read_u16(self.global_address(id))
    }

    /// Reads variable `id`: 0 pops the stack, 1..15 are the frame's locals,
    /// the rest are globals.
    pub fn load(&mut self, id: u8, frame: &StackFrame) -> (r: Result<u16, Error>)
        requires
            old(self).wf(),
            frame_fits(*frame, old(self)@.stack.len() as int),
        ensures
            final(self).wf(),
            match load_var(old(self)@, id, *frame) {
                Ok((m, v)) => r == Ok::<u16, Error>(v) && final(self)@ == m,
                Err(e) => r == Err::<u16, Error>(e) && final(self)@ == old(self)@,
            },
    {
        if id == 0 {
            self.pop(frame)
        } else if id < 16 {
            if id > frame.nlocals {
                Err(Error::InvalidVariable(id))
            } else {
                Ok(frame.read_local(&self.stack, id as u16))
            }
        } else {
            self.read_global(id)
        }
    }

    /// Writes variable `id`: 0 pushes, 1..15 are the frame's locals, the rest
    /// are globals.
    pub fn store(&mut self, id: u8, val: u16, frame: &StackFrame) -> (r: Result<(), Error>)
        requires
            old(self).wf(),
            frame_fits(*frame, old(self)@.stack.len() as int),
        ensures
            final(self).wf(),
            match store_var(old(self)@, id, val, *frame) {
                Ok(m) => r is Ok && final(self)@ == m,
                Err(e) => r == Err::<(), Error>(e) && final(self)@ == old(self)@,
            },
    {
        if id == 0 {
            self.push(val)
        } else if id < 16 {
            if id > frame.nlocals {
                Err(Error::InvalidVariable(id))
            } else {
                self.write_local(frame, id, val);
                Ok(())
            }
        } else {
            let a = self.global_address(id);
            self.write_u16(a, val)
        }
    }

    /// Puts dynamic memory back as it was loaded, keeping flags 2, and empties
    /// the stack.
    pub fn reset(&mut self)
        requires
            old(self).wf(),
        ensures
            final(self).wf(),
            final(self)@ == reset_view(old(self)@),
    {
        let n = self.bytes.len();
        let mut i: usize = 0;
        while i < n
            invariant
                self.wf(),
                n == self@.bytes.len(),
                self@.original == old(self)@.original,
                self@.static_base == old(self)@.static_base,
                self@.stack == old(self)@.stack,
                self@.bytes.len() == old(self)@.bytes.len(),
                i <= n,
                forall|a: int|
                    0 <= a < n ==> #[trigger] self@.bytes[a] == if a < i && !is_flags2(a) && a
                        < old(self)@.static_base {
                        old(self)@.original[a]
                    } else {
                        old(self)@.bytes[a]
                    },
            decreases n - i,
        {
            if (i as u32) < self.static_base && i != 0x10 && i != 0x11 {
                let b = self.original[i];
                self.bytes.set(i, b);
            }
            i += 1;
        }
        self.stack.words.clear();
        assert(self@.bytes =~= reset_view(old(self)@).bytes);
        assert(self@.stack =~= Seq::<u16>::empty());
    }

    pub fn high_memory(&self) -> (r: u16)
        requires
            self.wf(),
        ensures
            r == header_word(self@, 0x04),
    {
        self.header_u16(0x04)
    }

    pub fn static_memory(&self) -> (r: u16)
        requires
            self.wf(),
        ensures
            r == header_word(self@, 0x0E),
    {
        self.header_u16(0x0E)
    }

    pub fn object_table(&self) -> (r: u16)
        requires
            self.wf(),
        ensures
            r == header_word(self@, 0x0A),
    {
        self.header_u16(0x0A)
    }

    pub fn dictionary(&self) -> (r: u16)
        requires
            self.wf(),
        ensures
            r == header_word(self@, 0x08),
    {
        self.header_u16(0x08)
    }

    pub fn global_variables(&self) -> (r: u16)
        requires
            self.wf(),
        ensures
            r == header_word(self@, 0x0C),
    {
        self.header_u16(0x0C)
    }

    pub fn character_table(&self) -> (r: u16)
        requires
            self.wf(),
        ensures
            r == header_word(self@, 0x2E),
    {
        self.header_u16(0x2E)
    }

    /// Address of a custom alphabet table, or zero for the default one.
    pub fn alphabet_table(&self) -> (r: u16)
        requires
            self.wf(),
        ensures
            r == header_word(self@, 0x34),
    {
        self.header_u16(0x34)
    }

    pub fn abbreviations_table(&self) -> (r: u16)
        requires
            self.wf(),
        ensures
            r == header_word(self@, 0x18),
    {
        self.header_u16(0x18)
    }

    pub fn header_extension_table(&self) -> (r: u16)
        requires
            self.wf(),
        ensures
            r == header_word(self@, 0x36),
    {
        self.header_u16(0x36)
    }

    pub fn routine_offset(&self) -> (r: u16)
        requires
            self.wf(),
        ensures
            r == header_word(self@, 0x28),
    {
        self.header_u16(0x28)
    }

    pub fn string_offset(&self) -> (r: u16)
        requires
            self.wf(),
        ensures
            r == header_word(self@, 0x2A),
    {
        self.header_u16(0x2A)
    }

    pub fn zmachine_version(&self) -> (r: u8)
        requires
            self.wf(),
        ensures
            r == self@.bytes[0],
    {
        self.bytes[0]
    }

    /// The first instruction's address (a packed routine address from V6 on).
    pub fn initial_pc(&self) -> (r: u16)
        requires
            self.wf(),
        ensures
            r == header_word(self@, 0x06),
    {
        self.header_u16(0x06)
    }
}

/// Law: a word written is the word read back from the same address.
pub proof fn lemma_word_round_trip(m: MemView, a: int, v: u16)
    requires
        write_word(m, a, v) is Ok,
    ensures
        write_word(m, a, v) matches Ok(m2) && read_word(m2, a) == Ok::<u16, Error>(v),
{
}

/// Law: a push followed by a pop against the same frame yields the pushed word
/// and leaves memory and the stack pointer as before.
pub proof fn lemma_push_pop(m: MemView, f: StackFrame, v: u16)
    requires
        store_var(m, 0, v, f) is Ok,
        frame_fits(f, m.stack.len() as int),
    ensures
        store_var(m, 0, v, f) matches Ok(m2) && load_var(m2, 0, f) == Ok::<(MemView, u16), Error>(
            (m, v),
        ),
{
    let m2 = store_var(m, 0, v, f).unwrap();
    assert(m2.stack.drop_last() =~= m.stack);
}

} // verus!
