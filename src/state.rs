use vstd::prelude::*;
use crate::error::Error;
use crate::memory::{
    frame_fits, global_addr, header_word, mem_ok, read_byte, read_word, store_var, load_var, word_of, MemView,
    Memory, StackFrame, HEADER_SIZE, MAX_LOCALS, STACK_SIZE, STORY_MAX,
};

verus! {

/// Most routine activations that may be live at once.
pub const MAX_FRAMES: usize = 1024;

/// What the machine hands to the screen, in order.
#[derive(Debug)]
pub enum ScreenOp {
    Print(Vec<char>),
    NewLine,
    PrintChar(char),
    PrintNumber(i16),
    /// The status line: location name, then score (or hours) and turns (or
    /// minutes).
    SetStatus(Vec<char>, u16, u16),
    /// Seed the random generator (0: from an unpredictable source).
    SeedRandom(u16),
    SplitWindow(u16),
    SetWindow(u16),
    EraseWindow(u16),
    MoveCursor(u16, u16),
    SetColor(u16, u16),
}

/// A screen operation with its text as a sequence.
pub ghost enum ScreenOpView {
    Print(Seq<char>),
    NewLine,
    PrintChar(char),
    PrintNumber(i16),
    SetStatus(Seq<char>, u16, u16),
    SeedRandom(u16),
    SplitWindow(u16),
    SetWindow(u16),
    EraseWindow(u16),
    MoveCursor(u16, u16),
    SetColor(u16, u16),
}

impl View for ScreenOp {
    type V = ScreenOpView;

    open spec fn view(&self) -> ScreenOpView {
        match self {
            ScreenOp::Print(t) => ScreenOpView::Print(t@),
            ScreenOp::NewLine => ScreenOpView::NewLine,
            ScreenOp::PrintChar(c) => ScreenOpView::PrintChar(*c),
            ScreenOp::PrintNumber(n) => ScreenOpView::PrintNumber(*n),
            ScreenOp::SetStatus(t, a, b) => ScreenOpView::SetStatus(t@, *a, *b),
            ScreenOp::SeedRandom(n) => ScreenOpView::SeedRandom(*n),
            ScreenOp::SplitWindow(n) => ScreenOpView::SplitWindow(*n),
            ScreenOp::SetWindow(n) => ScreenOpView::SetWindow(*n),
            ScreenOp::EraseWindow(n) => ScreenOpView::EraseWindow(*n),
            ScreenOp::MoveCursor(l, c) => ScreenOpView::MoveCursor(*l, *c),
            ScreenOp::SetColor(f, b) => ScreenOpView::SetColor(*f, *b),
        }
    }
}

pub open spec fn ops_view(ops: Seq<ScreenOp>) -> Seq<ScreenOpView> {
    ops.map_values(|o: ScreenOp| o@)
}

/// Input the machine is waiting for; the host answers through the `resume_*`
/// methods of `State`.
#[derive(Clone, Copy, Debug, PartialEq, Eq, Structural)]
pub enum Await {
    /// A random number in `1..=limit`, for variable `store`.
    Random { limit: u16, store: u8 },
    /// One key press, for variable `store`.
    Char { store: u8 },
    /// A line of input for the text buffer at `text` (its first byte holds the
    /// capacity) and the parse buffer at `parse`.
    Line { text: u16, parse: u16 },
}

/// The whole machine as the contracts see it.
pub ghost struct Vm {
    pub mem: MemView,
    pub frame: StackFrame,
    pub frames: Seq<StackFrame>,
    pub version: u8,
    pub running: bool,
    pub output: Seq<ScreenOpView>,
    pub awaiting: Option<Await>,
}

/// The stack pointer at the moment the caller `frames[i]` made its call: the
/// bottom of the locals of the frame above it.
pub open spec fn call_sp(frames: Seq<StackFrame>, cur: StackFrame, i: int) -> int {
    if i + 1 < frames.len() {
        frames[i + 1].bp - frames[i + 1].nlocals
    } else {
        cur.bp - cur.nlocals
    }
}

/// Every frame fits the stack as it stood when the frame above it was made,
/// and the current frame fits the stack as it is.
pub open spec fn chain_ok(frames: Seq<StackFrame>, cur: StackFrame, sp: int) -> bool {
    &&& frame_fits(cur, sp)
    &&& forall|i: int| 0 <= i < frames.len() ==> frame_fits(#[trigger] frames[i], call_sp(frames, cur, i))
}

pub open spec fn vm_ok(m: Vm) -> bool {
    &&& mem_ok(m.mem)
    &&& chain_ok(m.frames, m.frame, m.mem.stack.len() as int)
    &&& m.frames.len() <= MAX_FRAMES
}

pub open spec fn with_pc(m: Vm, pc: int) -> Vm {
    Vm { frame: StackFrame { pc: pc as u32, ..m.frame }, ..m }
}

pub open spec fn with_mem(m: Vm, mem: MemView) -> Vm {
    Vm { mem, ..m }
}

pub open spec fn emit(m: Vm, op: ScreenOpView) -> Vm {
    Vm { output: m.output.push(op), ..m }
}

/// Reading the byte at the program counter, which then moves past it.
pub open spec fn fetch_byte(m: Vm) -> Result<(Vm, u8), Error> {
    match read_byte(m.mem, m.frame.pc as int) {
        Ok(b) => Ok((with_pc(m, m.frame.pc + 1), b)),
        Err(e) => Err(e),
    }
}

/// Reading the word at the program counter, which then moves past it.
pub open spec fn fetch_word(m: Vm) -> Result<(Vm, u16), Error> {
    match read_word(m.mem, m.frame.pc as int) {
        Ok(w) => Ok((with_pc(m, m.frame.pc + 2), w)),
        Err(e) => Err(e),
    }
}

pub open spec fn load(m: Vm, id: u8) -> Result<(Vm, u16), Error> {
    match load_var(m.mem, id, m.frame) {
        Ok((mem, v)) => Ok((with_mem(m, mem), v)),
        Err(e) => Err(e),
    }
}

pub open spec fn store(m: Vm, id: u8, v: u16) -> Result<Vm, Error> {
    match store_var(m.mem, id, v, m.frame) {
        Ok(mem) => Ok(with_mem(m, mem)),
        Err(e) => Err(e),
    }
}

/// An instruction's store side input: read the destination variable from the
/// instruction stream, then write the value there.
pub open spec fn store_result(m: Vm, v: u16) -> Result<Vm, Error> {
    match fetch_byte(m) {
        Ok((m1, id)) => store(m1, id, v),
        Err(e) => Err(e),
    }
}

/// Returning `v` from the current routine: the caller's frame comes back, the
/// stack is cut to where it stood at the call, and `v` goes to the frame's
/// return store.
pub open spec fn ret(m: Vm, v: u16) -> Result<Vm, Error> {
    if m.frames.len() == 0 {
        Err(Error::CallStackUnderflow)
    } else {
        let back = Vm {
            mem: MemView {
                stack: m.mem.stack.subrange(0, m.frame.bp - m.frame.nlocals),
                ..m.mem
            },
            frame: m.frames.last(),
            frames: m.frames.drop_last(),
            ..m
        };
        match m.frame.store {
            Some(id) => store(back, id, v),
            None => Ok(back),
        }
    }
}

/// Moving the program counter to `target`, which must lie in the image.
pub open spec fn jump_to(m: Vm, target: int) -> Result<Vm, Error> {
    if 0 <= target < m.mem.bytes.len() {
        Ok(with_pc(m, target))
    } else {
        Err(Error::MemoryOutOfBounds)
    }
}

/// A 14-bit two's-complement number.
pub open spec fn signed14(x: int) -> int {
    if x >= 0x2000 {
        x - 0x4000
    } else {
        x
    }
}

/// A 16-bit two's-complement number.
pub open spec fn signed16(x: u16) -> int {
    if x >= 0x8000 {
        x - 0x10000
    } else {
        x as int
    }
}

/// The branch offset that follows an instruction: bit 6 of the first byte
/// selects a 6-bit unsigned offset, else a 14-bit signed one whose low byte
/// follows.
pub open spec fn branch_offset(m1: Vm, b1: u8) -> Result<(Vm, int), Error> {
    if (b1 / 64) % 2 == 1 {
        Ok((m1, (b1 % 64) as int))
    } else {
        match fetch_byte(m1) {
            Ok((m2, b2)) => Ok((m2, signed14((b1 % 64) * 256 + b2))),
            Err(e) => Err(e),
        }
    }
}

/// An instruction's branch side input: the branch is taken when `cond` is
/// bit 7 of the first branch byte; offsets 0 and 1 return false and true,
/// any other moves the program counter by the offset less two.
pub open spec fn branch(m: Vm, cond: bool) -> Result<Vm, Error> {
    match fetch_byte(m) {
        Err(e) => Err(e),
        Ok((m1, b1)) => match branch_offset(m1, b1) {
            Err(e) => Err(e),
            Ok((m2, off)) => {
                if cond != (b1 >= 128) {
                    Ok(m2)
                } else if off == 0 {
                    ret(m2, 0)
                } else if off == 1 {
                    ret(m2, 1)
                } else {
                    jump_to(m2, m2.frame.pc + off - 2)
                }
            },
        },
    }
}

/// Byte address of a packed routine address.
pub open spec fn unpack_routine(m: Vm, packed: u16) -> int {
    if m.version <= 3 {
        2 * packed
    } else if m.version <= 5 {
        4 * packed
    } else if m.version <= 7 {
        4 * packed + 8 * header_word(m.mem, 0x28)
    } else {
        8 * packed
    }
}

/// Byte address of a packed string address.
pub open spec fn unpack_string(m: Vm, packed: u16) -> int {
    if m.version <= 3 {
        2 * packed
    } else if m.version <= 5 {
        4 * packed
    } else if m.version <= 7 {
        4 * packed + 8 * header_word(m.mem, 0x2A)
    } else {
        8 * packed
    }
}

/// Initial value of local `k` (1-based) of a routine at `addr`: the argument if
/// one was given, else the routine header's default (V1-V4) or zero.
pub open spec fn local_init(m: Vm, addr: int, k: int, args: Seq<u16>) -> u16 {
    if k - 1 < args.len() {
        args[k - 1]
    } else if m.version <= 4 {
        word_of(m.mem.bytes[addr + 2 * k - 1], m.mem.bytes[addr + 2 * k])
    } else {
        0
    }
}

/// The locals as they lie on the stack, local `n` lowest and local 1 on top.
pub open spec fn call_locals(m: Vm, addr: int, n: int, args: Seq<u16>) -> Seq<u16> {
    Seq::new(n as nat, |j: int| local_init(m, addr, n - j, args))
}

/// Calling the routine at packed address `routine` with `args`, its return
/// value to go to `store`. A call to 0 returns false at once.
pub open spec fn call(m: Vm, routine: u16, args: Seq<u16>, store_to: Option<u8>) -> Result<Vm, Error> {
    if routine == 0 {
        match store_to {
            Some(id) => store(m, id, 0),
            None => Ok(m),
        }
    } else {
        let addr = unpack_routine(m, routine);
        match read_byte(m.mem, addr) {
            Err(e) => Err(e),
            Ok(n) => {
                if n > MAX_LOCALS {
                    Err(Error::TooManyLocals)
                } else if m.version <= 4 && addr + 2 * n >= m.mem.bytes.len() {
                    Err(Error::MemoryOutOfBounds)
                } else if m.frames.len() >= MAX_FRAMES || m.mem.stack.len() + n > STACK_SIZE {
                    Err(Error::StackOverflow)
                } else {
                    let sp = m.mem.stack.len();
                    Ok(
                        Vm {
                            mem: MemView {
                                stack: m.mem.stack + call_locals(m, addr, n as int, args),
                                ..m.mem
                            },
                            frame: StackFrame {
                                pc: (if m.version <= 4 {
                                    addr + 1 + 2 * n
                                } else {
                                    addr + 1
                                }) as u32,
                                bp: (sp + n) as usize,
                                nlocals: n,
                                store: store_to,
                            },
                            frames: m.frames.push(m.frame),
                            ..m
                        },
                    )
                }
            },
        }
    }
}

/// A machine and its result as an exact outcome: `Ok` with the state that the
/// spec gives, or the error that it gives.
pub open spec fn outcome(r: Result<(), Error>, post: Vm, spec: Result<Vm, Error>) -> bool {
    match spec {
        Ok(m) => r is Ok && post == m,
        Err(e) => r == Err::<(), Error>(e),
    }
}

/// The running machine.
pub struct State {
    pub mem: Memory,
    /// The routine executing now.
    pub frame: StackFrame,
    /// Its callers, the outermost first.
    pub frames: Vec<StackFrame>,
    pub version: u8,
    pub running: bool,
    /// Screen operations not yet handed to the host.
    pub output: Vec<ScreenOp>,
    /// Input the machine waits for before it goes on.
    pub awaiting: Option<Await>,
}

impl View for State {
    type V = Vm;

    open spec fn view(&self) -> Vm {
        Vm {
            mem: self.mem@,
            frame: self.frame,
            frames: self.frames@,
            version: self.version,
            running: self.running,
            output: ops_view(self.output@),
            awaiting: self.awaiting,
        }
    }
}

impl State {
    pub open spec fn wf(&self) -> bool {
        vm_ok(self@)
    }

    /// A machine at the start of a story: the main routine at the header's
    /// initial program counter, nothing on the stack.
    pub fn new(story: &[u8]) -> (r: State)
        requires
            HEADER_SIZE <= story@.len() <= STORY_MAX,
        ensures
            r.wf(),
            r@.mem.bytes == story@,
            r@.mem.original == story@,
            r@.mem.static_base == word_of(story@[0x0E], story@[0x0F]),
            r@.mem.stack.len() == 0,
            r@.version == story@[0],
            r@.frame == (StackFrame {
                pc: word_of(story@[0x06], story@[0x07]) as u32,
                bp: 0,
                nlocals: 0,
                store: None,
            }),
            r@.frames.len() == 0,
            r@.running,
            r@.output.len() == 0,
            r@.awaiting is None,
    {
        let mem = Memory::new(story);
        let version = mem.zmachine_version();
        let pc = mem.initial_pc() as u32;
        let r = State {
            mem,
            frame: StackFrame::main(pc),
            frames: Vec::new(),
            version,
            running: true,
            output: Vec::new(),
            awaiting: None,
        };
        assert(r@.output =~= Seq::<ScreenOpView>::empty());
        r
    }

    /// Queues a screen operation.
    pub fn emit(&mut self, op: ScreenOp)
        requires
            old(self).wf(),
        ensures
            final(self).wf(),
            final(self)@ == emit(old(self)@, op@),
    {
        self.output.push(op);
        assert(ops_view(self.output@) =~= ops_view(old(self).output@).push(op@));
    }

    /// Hands the pending screen operations to the host.
    pub fn take_output(&mut self) -> (r: Vec<ScreenOp>)
        requires
            old(self).wf(),
        ensures
            final(self).wf(),
            ops_view(r@) == old(self)@.output,
            final(self)@ == (Vm { output: Seq::empty(), ..old(self)@ }),
    {
        let mut r: Vec<ScreenOp> = Vec::new();
        std::mem::swap(&mut r, &mut self.output);
        assert(ops_view(self.output@) =~= Seq::<ScreenOpView>::empty());
        r
    }

    /// Moves the program counter.
    pub fn set_pc(&mut self, pc: u32)
        requires
            old(self).wf(),
        ensures
            final(self).wf(),
            final(self)@ == with_pc(old(self)@, pc as int),
    {
        self.frame.pc = pc;
    }

    /// The byte at the program counter, which then moves past it.
    pub fn next_u8(&mut self) -> (r: Result<u8, Error>)
        requires
            old(self).wf(),
        ensures
            final(self).wf(),
            match fetch_byte(old(self)@) {
                Ok((m, b)) => r == Ok::<u8, Error>(b) && final(self)@ == m,
                Err(e) => r == Err::<u8, Error>(e) && final(self)@ == old(self)@,
            },
    {
        match self.mem.read_u8(self.frame.pc) {
            Ok(b) => {
                self.frame.pc = self.frame.pc + 1;
                Ok(b)
            },
            Err(e) => Err(e),
        }
    }

    /// The word at the program counter, which then moves past it.
    pub fn next_u16(&mut self) -> (r: Result<u16, Error>)
        requires
            old(self).wf(),
        ensures
            final(self).wf(),
            match fetch_word(old(self)@) {
                Ok((m, w)) => r == Ok::<u16, Error>(w) && final(self)@ == m,
                Err(e) => r == Err::<u16, Error>(e) && final(self)@ == old(self)@,
            },
    {
        match self.mem.read_u16(self.frame.pc) {
            Ok(w) => {
                self.frame.pc = self.frame.pc + 2;
                Ok(w)
            },
            Err(e) => Err(e),
        }
    }

    /// Reads a variable of the current frame (0 pops the stack).
    pub fn read_variable(&mut self, id: u8) -> (r: Result<u16, Error>)
        requires
            old(self).wf(),
        ensures
            final(self).wf(),
            match load(old(self)@, id) {
                Ok((m, v)) => r == Ok::<u16, Error>(v) && final(self)@ == m,
                Err(e) => r == Err::<u16, Error>(e) && final(self)@ == old(self)@,
            },
    {
        let frame = self.frame;
        let r = self.mem.load(id, &frame);
        proof {
            self.lemma_chain_shrink(old(self)@);
        }
        r
    }

    /// The frames still fit a stack that is no shorter than the current
    /// frame's base.
    proof fn lemma_chain_shrink(&self, pre: Vm)
        requires
            vm_ok(pre),
            mem_ok(self@.mem),
            self@.frame == pre.frame,
            self@.frames == pre.frames,
            self@.mem.stack.len() >= pre.frame.bp,
        ensures
            vm_ok(self@),
    {
    }

    /// Writes a variable of the current frame (0 pushes on the stack).
    pub fn store_variable(&mut self, id: u8, v: u16) -> (r: Result<(), Error>)
        requires
            old(self).wf(),
        ensures
            final(self).wf(),
            outcome(r, final(self)@, store(old(self)@, id, v)),
            r is Err ==> final(self)@ == old(self)@,
    {
        let frame = self.frame;
        let r = self.mem.store(id, v, &frame);
        proof {
            self.lemma_chain_shrink(old(self)@);
        }
        r
    }

    /// Reads the destination variable from the instruction stream and stores
    /// `v` there.
    pub fn store_result(&mut self, v: u16) -> (r: Result<(), Error>)
        requires
            old(self).wf(),
        ensures
            final(self).wf(),
            outcome(r, final(self)@, store_result(old(self)@, v)),
    {
        let id = self.next_u8()?;
        self.store_variable(id, v)
    }

    /// Returns `v` from the current routine to its caller.
    pub fn ret(&mut self, v: u16) -> (r: Result<(), Error>)
        requires
            old(self).wf(),
        ensures
            final(self).wf(),
            outcome(r, final(self)@, ret(old(self)@, v)),
    {
        match self.frames.pop() {
            None => Err(Error::CallStackUnderflow),
            Some(caller) => {
                let callee = self.frame;
                proof {
                    let i = old(self)@.frames.len() - 1;
                    assert(frame_fits(old(self)@.frames[i], call_sp(old(self)@.frames, callee, i)));
                }
                self.mem.truncate_stack(callee.bp - callee.nlocals as usize);
                self.frame = caller;
                proof {
                    let pre = old(self)@;
                    assert forall|i: int| 0 <= i < self@.frames.len() implies frame_fits(
                        #[trigger] self@.frames[i],
                        call_sp(self@.frames, self.frame, i),
                    ) by {
                        assert(self@.frames[i] == pre.frames[i]);
                        assert(call_sp(self@.frames, self.frame, i) == call_sp(pre.frames, pre.frame, i));
                    }
                }
                match callee.store {
                    Some(id) => self.store_variable(id, v),
                    None => Ok(()),
                }
            },
        }
    }

    /// Moves the program counter to `target` if it lies in the image.
    pub fn jump_to(&mut self, target: i64) -> (r: Result<(), Error>)
        requires
            old(self).wf(),
        ensures
            final(self).wf(),
            outcome(r, final(self)@, jump_to(old(self)@, target as int)),
    {
        if 0 <= target && target < self.mem.len() as i64 {
            self.frame.pc = target as u32;
            Ok(())
        } else {
            Err(Error::MemoryOutOfBounds)
        }
    }

    /// Reads the branch bytes after an instruction and branches on `cond`.
    pub fn branch(&mut self, cond: bool) -> (r: Result<(), Error>)
        requires
            old(self).wf(),
        ensures
            final(self).wf(),
            outcome(r, final(self)@, branch(old(self)@, cond)),
    {
        let b1 = self.next_u8()?;
        let offset: i64 = if (b1 / 64) % 2 == 1 {
            (b1 % 64) as i64
        } else {
            let b2 = self.next_u8()?;
            let x = (b1 % 64) as i64 * 256 + b2 as i64;
            if x >= 0x2000 {
                x - 0x4000
            } else {
                x
            }
        };
        if cond != (b1 >= 128) {
            Ok(())
        } else if offset == 0 {
            self.ret(0)
        } else if offset == 1 {
            self.ret(1)
        } else {
            let target = self.frame.pc as i64 + offset - 2;
            self.jump_to(target)
        }
    }

    /// Byte address of a packed routine address.
    pub fn unpack_routine(&self, packed: u16) -> (r: u32)
        requires
            self.wf(),
        ensures
            r == unpack_routine(self@, packed),
    {
        if self.version <= 3 {
            2 * packed as u32
        } else if self.version <= 5 {
            4 * packed as u32
        } else if self.version <= 7 {
            4 * packed as u32 + 8 * self.mem.routine_offset() as u32
        } else {
            8 * packed as u32
        }
    }

    /// Byte address of a packed string address.
    pub fn unpack_string(&self, packed: u16) -> (r: u32)
        requires
            self.wf(),
        ensures
            r == unpack_string(self@, packed),
    {
        if self.version <= 3 {
            2 * packed as u32
        } else if self.version <= 5 {
            4 * packed as u32
        } else if self.version <= 7 {
            4 * packed as u32 + 8 * self.mem.string_offset() as u32
        } else {
            8 * packed as u32
        }
    }

    /// Calls the routine at packed address `routine` with `args`; its return
    /// value will go to `store_to`.
    pub fn call(&mut self, routine: u16, args: &[u16], store_to: Option<u8>) -> (r: Result<(), Error>)
        requires
            old(self).wf(),
        ensures
            final(self).wf(),
            outcome(r, final(self)@, call(old(self)@, routine, args@, store_to)),
    {
        if routine == 0 {
            return match store_to {
                Some(id) => self.store_variable(id, 0),
                None => Ok(()),
            };
        }
        let addr = self.unpack_routine(routine);
        let n = self.mem.read_u8(addr)?;
        if n > MAX_LOCALS {
            return Err(Error::TooManyLocals);
        }
        if self.version <= 4 && addr as usize + 2 * n as usize >= self.mem.len() {
            return Err(Error::MemoryOutOfBounds);
        }
        let sp = self.mem.stack().sp();
        if self.frames.len() >= MAX_FRAMES || sp + n as usize > STACK_SIZE {
            return Err(Error::StackOverflow);
        }
        let ghost pre = self@;
        let ghost locals = call_locals(pre, addr as int, n as int, args@);
        // Push local n first, so that local 1 ends on top.
        let mut k: u8 = n;
        while k > 0
            invariant
                self.wf(),
                0 <= k <= n <= MAX_LOCALS,
                sp + n <= STACK_SIZE,
                self@ == (Vm {
                    mem: MemView {
                        stack: pre.mem.stack + locals.subrange(0, n - k),
                        ..pre.mem
                    },
                    ..pre
                }),
                pre.version <= 4 ==> addr + 2 * n < pre.mem.bytes.len(),
                addr < pre.mem.bytes.len(),
                self.version == pre.version,
                vm_ok(pre),
                locals == call_locals(pre, addr as int, n as int, args@),
                sp == pre.mem.stack.len(),
            decreases k,
        {
            let v: u16 = if ((k - 1) as usize) < args.len() {
                args[(k - 1) as usize]
            } else if self.version <= 4 {
                self.mem.read_u16(addr + 2 * k as u32 - 1)?
            } else {
                0
            };
            assert(v == locals[n - k]);
            self.mem.push(v)?;
            proof {
                assert(pre.mem.stack + locals.subrange(0, n - (k - 1)) =~= (pre.mem.stack
                    + locals.subrange(0, n - k)).push(v));
            }
            k = k - 1;
            proof {
                lemma_chain_grow(pre, self@);
            }
        }
        assert(locals.subrange(0, n as int) =~= locals);
        let pc = if self.version <= 4 {
            addr + 1 + 2 * n as u32
        } else {
            addr + 1
        };
        let caller = self.frame;
        self.frames.push(caller);
        self.frame = StackFrame { pc, bp: sp + n as usize, nlocals: n, store: store_to };
        proof {
            let post = self@;
            assert forall|i: int| 0 <= i < post.frames.len() implies frame_fits(
                #[trigger] post.frames[i],
                call_sp(post.frames, post.frame, i),
            ) by {
                if i + 1 < post.frames.len() {
                    assert(post.frames[i] == pre.frames[i]);
                    assert(call_sp(post.frames, post.frame, i) == call_sp(pre.frames, pre.frame, i));
                }
            }
        }
        Ok(())
    }
}

proof fn lemma_chain_grow(pre: Vm, post: Vm)
    requires
        vm_ok(pre),
        mem_ok(post.mem),
        post.frame == pre.frame,
        post.frames == pre.frames,
        post.mem.stack.len() >= pre.mem.stack.len(),
    ensures
        vm_ok(post),
{
}

/// Law: a call of a routine followed by a return of `v` gives the caller back
/// its program counter, frame and stack exactly, and `v` lands in the variable
/// that the call named (as a store from the caller's own state would put it).
pub proof fn lemma_call_then_ret(m: Vm, routine: u16, args: Seq<u16>, id: u8, v: u16)
    requires
        vm_ok(m),
        routine != 0,
        call(m, routine, args, Some(id)) is Ok,
    ensures
        ret(call(m, routine, args, Some(id)).unwrap(), v) == store(m, id, v),
{
    let m1 = call(m, routine, args, Some(id)).unwrap();
    let n = m1.frame.nlocals;
    assert(m1.mem.stack.subrange(0, m1.frame.bp - m1.frame.nlocals) =~= m.mem.stack);
    assert(m1.frames.drop_last() =~= m.frames);
}

/// Law: however the called routine used memory and its own part of the stack,
/// returning `v` from it gives the caller back its frame, program counter,
/// callers and stack exactly, and puts `v` where the call said: pushed on the
/// caller's stack (variable 0), into the caller's local, or into the global.
pub proof fn lemma_ret_restores_caller(
    m: Vm,
    routine: u16,
    args: Seq<u16>,
    id: u8,
    m1: Vm,
    v: u16,
)
    requires
        vm_ok(m),
        routine != 0,
        call(m, routine, args, Some(id)) is Ok,
        m1.frame.bp == call(m, routine, args, Some(id)).unwrap().frame.bp,
        m1.frame.nlocals == call(m, routine, args, Some(id)).unwrap().frame.nlocals,
        m1.frame.store == Some(id),
        m1.frames == m.frames.push(m.frame),
        m1.mem.stack.len() >= m.mem.stack.len(),
        m1.mem.stack.subrange(0, m.mem.stack.len() as int) == m.mem.stack,
    ensures
        ret(m1, v) == store(
            Vm { mem: MemView { stack: m.mem.stack, ..m1.mem }, frame: m.frame, frames: m.frames, ..m1 },
            id,
            v,
        ),
        ret(m1, v) matches Ok(m2) ==> {
            &&& m2.frame == m.frame
            &&& m2.frames == m.frames
            &&& id == 0 ==> m2.mem.stack == m.mem.stack.push(v)
            &&& 1 <= id < 16 ==> m2.mem.stack == m.mem.stack.update(m.frame.bp - id, v)
            &&& id >= 16 ==> m2.mem.stack == m.mem.stack && read_word(
                m2.mem,
                global_addr(m1.mem, id),
            ) == Ok::<u16, Error>(v)
        },
{
    let c = call(m, routine, args, Some(id)).unwrap();
    assert(m1.frame.bp - m1.frame.nlocals == m.mem.stack.len());
    assert(m1.frames.drop_last() =~= m.frames);
    assert(m1.frames.last() == m.frame);
}

} // verus!
