use vstd::prelude::*;
use crate::error::Error;
use crate::memory::{
    global_addr, header_word, read_byte, read_word, reset_view, word_of, write_byte, write_word,
    MemView, StackFrame,
};
use crate::object::{
    attr, child, insert, next_prop, obj_name, parent, prop_addr, prop_len, prop_value, put_prop,
    remove, set_attr, sibling, Object,
};
use crate::state::{
    branch, call, emit, fetch_byte, jump_to, load, outcome, ret, signed16, store, store_result,
    unpack_string, with_mem, with_pc, Await, ScreenOp, ScreenOpView, State, Vm,
};
use crate::zscii::{decode_string, zscii_char, zscii_to_char, Zscii};

verus! {

/// A 16-bit word holding `v` modulo 2^16 (two's complement for negatives).
pub open spec fn word(v: int) -> u16 {
    (v % 0x10000) as u16
}

pub open spec fn abs(x: int) -> int {
    if x < 0 { -x } else { x }
}

/// Signed division truncating toward zero.
pub open spec fn sdiv(x: int, y: int) -> int {
    if (x < 0) != (y < 0) {
        -(abs(x) / abs(y))
    } else {
        abs(x) / abs(y)
    }
}

/// Signed remainder, taking the sign of the dividend.
pub open spec fn srem(x: int, y: int) -> int {
    if x < 0 {
        -(abs(x) % abs(y))
    } else {
        abs(x) % abs(y)
    }
}

/// The machine after a memory result, or the error.
pub open spec fn lift(m: Vm, r: Result<MemView, Error>) -> Result<Vm, Error> {
    match r {
        Ok(mem) => Ok(with_mem(m, mem)),
        Err(e) => Err(e),
    }
}

/// Storing a computed value through the store side input.
pub open spec fn store_of(m: Vm, r: Result<u16, Error>) -> Result<Vm, Error> {
    match r {
        Ok(v) => store_result(m, v),
        Err(e) => Err(e),
    }
}

/// Branching on a computed condition.
pub open spec fn branch_of(m: Vm, r: Result<bool, Error>) -> Result<Vm, Error> {
    match r {
        Ok(c) => branch(m, c),
        Err(e) => Err(e),
    }
}

/// Address `base + k` in 16-bit arithmetic, as array operands compute it.
pub open spec fn array_addr(base: u16, k: int) -> int {
    (base + k) % 0x10000
}

pub open spec fn spec_add(m: Vm, ops: Seq<u16>) -> Result<Vm, Error> {
    store_result(m, word(ops[0] + ops[1]))
}

pub open spec fn spec_sub(m: Vm, ops: Seq<u16>) -> Result<Vm, Error> {
    store_result(m, word(ops[0] - ops[1]))
}

pub open spec fn spec_mul(m: Vm, ops: Seq<u16>) -> Result<Vm, Error> {
    store_result(m, word(signed16(ops[0]) * signed16(ops[1])))
}

pub open spec fn spec_div(m: Vm, ops: Seq<u16>) -> Result<Vm, Error> {
    if ops[1] == 0 {
        Err(Error::ArithmeticTrap)
    } else {
        store_result(m, word(sdiv(signed16(ops[0]), signed16(ops[1]))))
    }
}

pub open spec fn spec_mod(m: Vm, ops: Seq<u16>) -> Result<Vm, Error> {
    if ops[1] == 0 {
        Err(Error::ArithmeticTrap)
    } else {
        store_result(m, word(srem(signed16(ops[0]), signed16(ops[1]))))
    }
}

pub open spec fn spec_or(m: Vm, ops: Seq<u16>) -> Result<Vm, Error> {
    store_result(m, ops[0] | ops[1])
}

pub open spec fn spec_and(m: Vm, ops: Seq<u16>) -> Result<Vm, Error> {
    store_result(m, ops[0] & ops[1])
}

pub open spec fn spec_not(m: Vm, ops: Seq<u16>) -> Result<Vm, Error> {
    store_result(m, !ops[0])
}

pub open spec fn spec_store(m: Vm, ops: Seq<u16>) -> Result<Vm, Error> {
    store(m, ops[0] as u8, ops[1])
}

pub open spec fn spec_load(m: Vm, ops: Seq<u16>) -> Result<Vm, Error> {
    match load(m, ops[0] as u8) {
        Ok((m1, v)) => store_result(m1, v),
        Err(e) => Err(e),
    }
}

pub open spec fn spec_storew(m: Vm, ops: Seq<u16>) -> Result<Vm, Error> {
    lift(m, write_word(m.mem, array_addr(ops[0], 2 * ops[1]), ops[2]))
}

pub open spec fn spec_storeb(m: Vm, ops: Seq<u16>) -> Result<Vm, Error> {
    lift(m, write_byte(m.mem, array_addr(ops[0], ops[1] as int), (ops[2] % 256) as u8))
}

pub open spec fn spec_loadw(m: Vm, ops: Seq<u16>) -> Result<Vm, Error> {
    store_of(m, read_word(m.mem, array_addr(ops[0], 2 * ops[1])))
}

pub open spec fn spec_loadb(m: Vm, ops: Seq<u16>) -> Result<Vm, Error> {
    match read_byte(m.mem, array_addr(ops[0], ops[1] as int)) {
        Ok(b) => store_result(m, b as u16),
        Err(e) => Err(e),
    }
}

pub open spec fn spec_push(m: Vm, ops: Seq<u16>) -> Result<Vm, Error> {
    store(m, 0, ops[0])
}

pub open spec fn spec_pull(m: Vm, ops: Seq<u16>) -> Result<Vm, Error> {
    match load(m, 0) {
        Ok((m1, v)) => store(m1, ops[0] as u8, v),
        Err(e) => Err(e),
    }
}

/// Adding `delta` to variable `ops[0]`; the new value, as a signed number.
pub open spec fn bump(m: Vm, ops: Seq<u16>, delta: int) -> Result<(Vm, u16), Error> {
    match load(m, ops[0] as u8) {
        Err(e) => Err(e),
        Ok((m1, v)) => match store(m1, ops[0] as u8, word(v + delta)) {
            Ok(m2) => Ok((m2, word(v + delta))),
            Err(e) => Err(e),
        },
    }
}

pub open spec fn spec_inc(m: Vm, ops: Seq<u16>) -> Result<Vm, Error> {
    match bump(m, ops, 1) {
        Ok((m2, _)) => Ok(m2),
        Err(e) => Err(e),
    }
}

pub open spec fn spec_dec(m: Vm, ops: Seq<u16>) -> Result<Vm, Error> {
    match bump(m, ops, -1) {
        Ok((m2, _)) => Ok(m2),
        Err(e) => Err(e),
    }
}

pub open spec fn spec_inc_chk(m: Vm, ops: Seq<u16>) -> Result<Vm, Error> {
    match bump(m, ops, 1) {
        Ok((m2, v)) => branch(m2, signed16(v) > signed16(ops[1])),
        Err(e) => Err(e),
    }
}

pub open spec fn spec_dec_chk(m: Vm, ops: Seq<u16>) -> Result<Vm, Error> {
    match bump(m, ops, -1) {
        Ok((m2, v)) => branch(m2, signed16(v) < signed16(ops[1])),
        Err(e) => Err(e),
    }
}

pub open spec fn spec_je(m: Vm, ops: Seq<u16>) -> Result<Vm, Error> {
    branch(m, exists|i: int| 1 <= i < ops.len() && #[trigger] ops[i] == ops[0])
}

pub open spec fn spec_jz(m: Vm, ops: Seq<u16>) -> Result<Vm, Error> {
    branch(m, ops[0] == 0)
}

pub open spec fn spec_jl(m: Vm, ops: Seq<u16>) -> Result<Vm, Error> {
    branch(m, signed16(ops[0]) < signed16(ops[1]))
}

pub open spec fn spec_jg(m: Vm, ops: Seq<u16>) -> Result<Vm, Error> {
    branch(m, signed16(ops[0]) > signed16(ops[1]))
}

pub open spec fn spec_test(m: Vm, ops: Seq<u16>) -> Result<Vm, Error> {
    branch(m, ops[0] & ops[1] == ops[1])
}

pub open spec fn spec_jump(m: Vm, ops: Seq<u16>) -> Result<Vm, Error> {
    jump_to(m, m.frame.pc + signed16(ops[0]) - 2)
}

/// Signed value of a word.
fn signed(v: u16) -> (r: i32)
    ensures
        r == signed16(v),
{
    if v >= 0x8000 {
        v as i32 - 0x10000
    } else {
        v as i32
    }
}

/// The word of a signed magnitude `q` (negated when `neg`), for |value| up to
/// 2^16.
fn word_from(neg: bool, q: u32) -> (r: u16)
    requires
        q <= 0x10000,
    ensures
        r == word(if neg { -q } else { q as int }),
{
    if neg {
        if q == 0 || q == 0x10000 {
            0
        } else {
            (0x10000 - q) as u16
        }
    } else if q == 0x10000 {
        0
    } else {
        q as u16
    }
}

/// Illegal opcode: always fails.
#[derive(Clone, Copy, Debug)]
pub struct IllegalInstruction(pub u8);

impl IllegalInstruction {
    pub fn execute(&self, state: &mut State, operands: Vec<u16>) -> (r: Result<(), Error>)
        requires
            old(state).wf(),
        ensures
            final(state).wf(),
            r == Err::<(), Error>(Error::IllegalOpcode(self.0)),
    {
        Err(Error::IllegalOpcode(self.0))
    }
}

/// No operation.
#[derive(Clone, Copy, Debug)]
pub struct NopInstruction;

impl NopInstruction {
    pub fn execute(&self, state: &mut State, operands: Vec<u16>) -> (r: Result<(), Error>)
        requires
            old(state).wf(),
        ensures
            final(state).wf(),
            r is Ok && final(state)@ == old(state)@,
    {
        Ok(())
    }
}

/// Signed 16-bit addition, wrapping.
#[derive(Clone, Copy, Debug)]
pub struct Add;

impl Add {
    pub fn execute(&self, state: &mut State, operands: Vec<u16>) -> (r: Result<(), Error>)
        requires
            old(state).wf(),
            operands@.len() >= 2,
        ensures
            final(state).wf(),
            outcome(r, final(state)@, spec_add(old(state)@, operands@)),
    {
        let v = operands[0].wrapping_add(operands[1]);
        state.store_result(v)
    }
}

/// Signed 16-bit subtraction, wrapping.
#[derive(Clone, Copy, Debug)]
pub struct Sub;

impl Sub {
    pub fn execute(&self, state: &mut State, operands: Vec<u16>) -> (r: Result<(), Error>)
        requires
            old(state).wf(),
            operands@.len() >= 2,
        ensures
            final(state).wf(),
            outcome(r, final(state)@, spec_sub(old(state)@, operands@)),
    {
        let v = operands[0].wrapping_sub(operands[1]);
        state.store_result(v)
    }
}

/// Signed 16-bit multiplication, wrapping.
#[derive(Clone, Copy, Debug)]
pub struct Mul;

impl Mul {
    pub fn execute(&self, state: &mut State, operands: Vec<u16>) -> (r: Result<(), Error>)
        requires
            old(state).wf(),
            operands@.len() >= 2,
        ensures
            final(state).wf(),
            outcome(r, final(state)@, spec_mul(old(state)@, operands@)),
    {
        let a = operands[0];
        let b = operands[1];
        let v = a.wrapping_mul(b);
        proof {
            lemma_signed_mul(a, b);
        }
        state.store_result(v)
    }
}

proof fn lemma_signed_mul(a: u16, b: u16)
    ensures
        word(a as int * b as int) == word(signed16(a) * signed16(b)),
{
    let sa = signed16(a);
    let sb = signed16(b);
    let ka: int = if a >= 0x8000 { 1 } else { 0 };
    let kb: int = if b >= 0x8000 { 1 } else { 0 };
    assert(a as int * b as int == sa * sb + 0x10000 * (ka * sb + kb * sa + 0x10000 * ka * kb))
        by (nonlinear_arith)
        requires
            a as int == sa + 0x10000 * ka,
            b as int == sb + 0x10000 * kb,
    ;
    let k = ka * sb + kb * sa + 0x10000 * ka * kb;
    assert((sa * sb + 0x10000 * k) % 0x10000 == (sa * sb) % 0x10000) by (nonlinear_arith);
}

/// Signed 16-bit division truncating toward zero; division by zero traps.
#[derive(Clone, Copy, Debug)]
pub struct Div;

impl Div {
    pub fn execute(&self, state: &mut State, operands: Vec<u16>) -> (r: Result<(), Error>)
        requires
            old(state).wf(),
            operands@.len() >= 2,
        ensures
            final(state).wf(),
            outcome(r, final(state)@, spec_div(old(state)@, operands@)),
            operands@[1] == 0 ==> final(state)@ == old(state)@,
    {
        if operands[1] == 0 {
            return Err(Error::ArithmeticTrap);
        }
        let a = signed(operands[0]);
        let b = signed(operands[1]);
        let ua: u32 = if a < 0 { (-a) as u32 } else { a as u32 };
        let ub: u32 = if b < 0 { (-b) as u32 } else { b as u32 };
        let q = ua / ub;
        assert(q <= ua) by (nonlinear_arith)
            requires
                q == ua / ub,
                ub >= 1,
        ;
        let v = word_from((a < 0) != (b < 0), q);
        state.store_result(v)
    }
}

/// Signed 16-bit remainder with the sign of the dividend; zero divisor traps.
#[derive(Clone, Copy, Debug)]
pub struct Mod;

impl Mod {
    pub fn execute(&self, state: &mut State, operands: Vec<u16>) -> (r: Result<(), Error>)
        requires
            old(state).wf(),
            operands@.len() >= 2,
        ensures
            final(state).wf(),
            outcome(r, final(state)@, spec_mod(old(state)@, operands@)),
            operands@[1] == 0 ==> final(state)@ == old(state)@,
    {
        if operands[1] == 0 {
            return Err(Error::ArithmeticTrap);
        }
        let a = signed(operands[0]);
        let b = signed(operands[1]);
        let ua: u32 = if a < 0 { (-a) as u32 } else { a as u32 };
        let ub: u32 = if b < 0 { (-b) as u32 } else { b as u32 };
        let q = ua % ub;
        let v = word_from(a < 0, q);
        state.store_result(v)
    }
}

/// Bitwise or.
#[derive(Clone, Copy, Debug)]
pub struct Or;

impl Or {
    pub fn execute(&self, state: &mut State, operands: Vec<u16>) -> (r: Result<(), Error>)
        requires
            old(state).wf(),
            operands@.len() >= 2,
        ensures
            final(state).wf(),
            outcome(r, final(state)@, spec_or(old(state)@, operands@)),
    {
        state.store_result(operands[0] | operands[1])
    }
}

/// Bitwise and.
#[derive(Clone, Copy, Debug)]
pub struct And;

impl And {
    pub fn execute(&self, state: &mut State, operands: Vec<u16>) -> (r: Result<(), Error>)
        requires
            old(state).wf(),
            operands@.len() >= 2,
        ensures
            final(state).wf(),
            outcome(r, final(state)@, spec_and(old(state)@, operands@)),
    {
        state.store_result(operands[0] & operands[1])
    }
}

/// Bitwise not.
#[derive(Clone, Copy, Debug)]
pub struct Not;

impl Not {
    pub fn execute(&self, state: &mut State, operands: Vec<u16>) -> (r: Result<(), Error>)
        requires
            old(state).wf(),
            operands@.len() >= 1,
        ensures
            final(state).wf(),
            outcome(r, final(state)@, spec_not(old(state)@, operands@)),
    {
        state.store_result(!operands[0])
    }
}

/// Writes the value into the variable named by the first operand.
#[derive(Clone, Copy, Debug)]
pub struct Store;

impl Store {
    pub fn execute(&self, state: &mut State, operands: Vec<u16>) -> (r: Result<(), Error>)
        requires
            old(state).wf(),
            operands@.len() >= 2,
        ensures
            final(state).wf(),
            outcome(r, final(state)@, spec_store(old(state)@, operands@)),
    {
        state.store_variable(operands[0] as u8, operands[1])
    }
}

/// Reads the variable named by the operand and stores its value.
#[derive(Clone, Copy, Debug)]
pub struct Load;

impl Load {
    pub fn execute(&self, state: &mut State, operands: Vec<u16>) -> (r: Result<(), Error>)
        requires
            old(state).wf(),
            operands@.len() >= 1,
        ensures
            final(state).wf(),
            outcome(r, final(state)@, spec_load(old(state)@, operands@)),
    {
        let v = state.read_variable(operands[0] as u8)?;
        state.store_result(v)
    }
}

/// Writes a word at `array + 2 * index`.
#[derive(Clone, Copy, Debug)]
pub struct StoreW;

impl StoreW {
    pub fn execute(&self, state: &mut State, operands: Vec<u16>) -> (r: Result<(), Error>)
        requires
            old(state).wf(),
            operands@.len() >= 3,
        ensures
            final(state).wf(),
            outcome(r, final(state)@, spec_storew(old(state)@, operands@)),
    {
        let a = operands[0].wrapping_add(operands[1].wrapping_mul(2));
        state.mem.write_u16(a as u32, operands[2])
    }
}

/// Writes a byte at `array + index`.
#[derive(Clone, Copy, Debug)]
pub struct StoreB;

impl StoreB {
    pub fn execute(&self, state: &mut State, operands: Vec<u16>) -> (r: Result<(), Error>)
        requires
            old(state).wf(),
            operands@.len() >= 3,
        ensures
            final(state).wf(),
            outcome(r, final(state)@, spec_storeb(old(state)@, operands@)),
    {
        let a = operands[0].wrapping_add(operands[1]);
        state.mem.write_u8(a as u32, (operands[2] % 256) as u8)
    }
}

/// Reads the word at `array + 2 * index` and stores it.
#[derive(Clone, Copy, Debug)]
pub struct LoadW;

impl LoadW {
    pub fn execute(&self, state: &mut State, operands: Vec<u16>) -> (r: Result<(), Error>)
        requires
            old(state).wf(),
            operands@.len() >= 2,
        ensures
            final(state).wf(),
            outcome(r, final(state)@, spec_loadw(old(state)@, operands@)),
    {
        let a = operands[0].wrapping_add(operands[1].wrapping_mul(2));
        let v = state.mem.read_u16(a as u32)?;
        state.store_result(v)
    }
}

/// Reads the byte at `array + index` and stores it.
#[derive(Clone, Copy, Debug)]
pub struct LoadB;

impl LoadB {
    pub fn execute(&self, state: &mut State, operands: Vec<u16>) -> (r: Result<(), Error>)
        requires
            old(state).wf(),
            operands@.len() >= 2,
        ensures
            final(state).wf(),
            outcome(r, final(state)@, spec_loadb(old(state)@, operands@)),
    {
        let a = operands[0].wrapping_add(operands[1]);
        let b = state.mem.read_u8(a as u32)?;
        state.store_result(b as u16)
    }
}

/// Pushes the operand on the stack.
#[derive(Clone, Copy, Debug)]
pub struct Push;

impl Push {
    pub fn execute(&self, state: &mut State, operands: Vec<u16>) -> (r: Result<(), Error>)
        requires
            old(state).wf(),
            operands@.len() >= 1,
        ensures
            final(state).wf(),
            outcome(r, final(state)@, spec_push(old(state)@, operands@)),
    {
        state.store_variable(0, operands[0])
    }
}

/// Pops the stack into the variable named by the operand.
#[derive(Clone, Copy, Debug)]
pub struct Pull;

impl Pull {
    pub fn execute(&self, state: &mut State, operands: Vec<u16>) -> (r: Result<(), Error>)
        requires
            old(state).wf(),
            operands@.len() >= 1,
        ensures
            final(state).wf(),
            outcome(r, final(state)@, spec_pull(old(state)@, operands@)),
    {
        let v = state.read_variable(0)?;
        state.store_variable(operands[0] as u8, v)
    }
}

impl State {
    /// Adds `up ? 1 : -1` to a variable and returns its new value.
    fn bump(&mut self, id: u8, up: bool) -> (r: Result<u16, Error>)
        requires
            old(self).wf(),
        ensures
            final(self).wf(),
            match bump(old(self)@, seq![id as u16], if up { 1 } else { -1 }) {
                Ok((m, v)) => r == Ok::<u16, Error>(v) && final(self)@ == m,
                Err(e) => r == Err::<u16, Error>(e),
            },
    {
        assert((id as u16) as u8 == id);
        let v = self.read_variable(id)?;
        let n = if up {
            v.wrapping_add(1)
        } else {
            v.wrapping_sub(1)
        };
        self.store_variable(id, n)?;
        Ok(n)
    }
}

/// Increments a variable.
#[derive(Clone, Copy, Debug)]
pub struct Inc;

impl Inc {
    pub fn execute(&self, state: &mut State, operands: Vec<u16>) -> (r: Result<(), Error>)
        requires
            old(state).wf(),
            operands@.len() >= 1,
        ensures
            final(state).wf(),
            outcome(r, final(state)@, spec_inc(old(state)@, operands@)),
    {
        let id = operands[0] as u8;
        assert(bump(old(state)@, seq![id as u16], 1) == bump(old(state)@, operands@, 1));
        state.bump(id, true)?;
        Ok(())
    }
}

/// Decrements a variable.
#[derive(Clone, Copy, Debug)]
pub struct Dec;

impl Dec {
    pub fn execute(&self, state: &mut State, operands: Vec<u16>) -> (r: Result<(), Error>)
        requires
            old(state).wf(),
            operands@.len() >= 1,
        ensures
            final(state).wf(),
            outcome(r, final(state)@, spec_dec(old(state)@, operands@)),
    {
        let id = operands[0] as u8;
        assert(bump(old(state)@, seq![id as u16], -1) == bump(old(state)@, operands@, -1));
        state.bump(id, false)?;
        Ok(())
    }
}

/// Increments a variable and branches if it is now greater than the threshold.
#[derive(Clone, Copy, Debug)]
pub struct IncChk;

impl IncChk {
    pub fn execute(&self, state: &mut State, operands: Vec<u16>) -> (r: Result<(), Error>)
        requires
            old(state).wf(),
            operands@.len() >= 2,
        ensures
            final(state).wf(),
            outcome(r, final(state)@, spec_inc_chk(old(state)@, operands@)),
    {
        let id = operands[0] as u8;
        assert(bump(old(state)@, seq![id as u16], 1) == bump(old(state)@, operands@, 1));
        let v = state.bump(id, true)?;
        state.branch(signed(v) > signed(operands[1]))
    }
}

/// Decrements a variable and branches if it is now less than the threshold.
#[derive(Clone, Copy, Debug)]
pub struct DecChk;

impl DecChk {
    pub fn execute(&self, state: &mut State, operands: Vec<u16>) -> (r: Result<(), Error>)
        requires
            old(state).wf(),
            operands@.len() >= 2,
        ensures
            final(state).wf(),
            outcome(r, final(state)@, spec_dec_chk(old(state)@, operands@)),
    {
        let id = operands[0] as u8;
        assert(bump(old(state)@, seq![id as u16], -1) == bump(old(state)@, operands@, -1));
        let v = state.bump(id, false)?;
        state.branch(signed(v) < signed(operands[1]))
    }
}

/// Branches if the first operand equals any of the others.
#[derive(Clone, Copy, Debug)]
pub struct Je;

impl Je {
    pub fn execute(&self, state: &mut State, operands: Vec<u16>) -> (r: Result<(), Error>)
        requires
            old(state).wf(),
            operands@.len() >= 1,
        ensures
            final(state).wf(),
            outcome(r, final(state)@, spec_je(old(state)@, operands@)),
    {
        let first = operands[0];
        let mut found = false;
        let mut i: usize = 1;
        while i < operands.len()
            invariant
                1 <= i <= operands@.len(),
                first == operands@[0],
                found == exists|j: int| 1 <= j < i && #[trigger] operands@[j] == first,
            decreases operands@.len() - i,
        {
            if operands[i] == first {
                found = true;
            }
            i += 1;
        }
        state.branch(found)
    }
}

/// Branches if the operand is zero.
#[derive(Clone, Copy, Debug)]
pub struct Jz;

impl Jz {
    pub fn execute(&self, state: &mut State, operands: Vec<u16>) -> (r: Result<(), Error>)
        requires
            old(state).wf(),
            operands@.len() >= 1,
        ensures
            final(state).wf(),
            outcome(r, final(state)@, spec_jz(old(state)@, operands@)),
    {
        state.branch(operands[0] == 0)
    }
}

/// Branches if the first operand is less than the second, signed.
#[derive(Clone, Copy, Debug)]
pub struct Jl;

impl Jl {
    pub fn execute(&self, state: &mut State, operands: Vec<u16>) -> (r: Result<(), Error>)
        requires
            old(state).wf(),
            operands@.len() >= 2,
        ensures
            final(state).wf(),
            outcome(r, final(state)@, spec_jl(old(state)@, operands@)),
    {
        state.branch(signed(operands[0]) < signed(operands[1]))
    }
}

/// Branches if the first operand is greater than the second, signed.
#[derive(Clone, Copy, Debug)]
pub struct Jg;

impl Jg {
    pub fn execute(&self, state: &mut State, operands: Vec<u16>) -> (r: Result<(), Error>)
        requires
            old(state).wf(),
            operands@.len() >= 2,
        ensures
            final(state).wf(),
            outcome(r, final(state)@, spec_jg(old(state)@, operands@)),
    {
        state.branch(signed(operands[0]) > signed(operands[1]))
    }
}

/// Branches if every bit set in the second operand is set in the first.
#[derive(Clone, Copy, Debug)]
pub struct Test;

impl Test {
    pub fn execute(&self, state: &mut State, operands: Vec<u16>) -> (r: Result<(), Error>)
        requires
            old(state).wf(),
            operands@.len() >= 2,
        ensures
            final(state).wf(),
            outcome(r, final(state)@, spec_test(old(state)@, operands@)),
    {
        state.branch(operands[0] & operands[1] == operands[1])
    }
}

/// Jumps by a signed offset: the new PC is the PC after the operand plus the
/// offset less two.
#[derive(Clone, Copy, Debug)]
pub struct Jump;

impl Jump {
    pub fn execute(&self, state: &mut State, operands: Vec<u16>) -> (r: Result<(), Error>)
        requires
            old(state).wf(),
            operands@.len() >= 1,
        ensures
            final(state).wf(),
            outcome(r, final(state)@, spec_jump(old(state)@, operands@)),
    {
        let target = state.frame.pc as i64 + signed(operands[0]) as i64 - 2;
        state.jump_to(target)
    }
}

/// Objects are narrow up to V3, wide from V4.
pub open spec fn wide_of(m: Vm) -> bool {
    m.version >= 4
}

/// A property number operand: one byte.
pub open spec fn prop_number(n: u16) -> Result<u8, Error> {
    if n > 255 {
        Err(Error::InvalidProperty(n))
    } else {
        Ok(n as u8)
    }
}

pub open spec fn spec_set_attr(m: Vm, ops: Seq<u16>) -> Result<Vm, Error> {
    lift(m, set_attr(m.mem, wide_of(m), ops[0], ops[1], true))
}

pub open spec fn spec_clear_attr(m: Vm, ops: Seq<u16>) -> Result<Vm, Error> {
    lift(m, set_attr(m.mem, wide_of(m), ops[0], ops[1], false))
}

pub open spec fn spec_test_attr(m: Vm, ops: Seq<u16>) -> Result<Vm, Error> {
    branch_of(m, attr(m.mem, wide_of(m), ops[0], ops[1]))
}

pub open spec fn spec_insert_obj(m: Vm, ops: Seq<u16>) -> Result<Vm, Error> {
    lift(m, insert(m.mem, wide_of(m), ops[0], ops[1]))
}

pub open spec fn spec_remove_obj(m: Vm, ops: Seq<u16>) -> Result<Vm, Error> {
    lift(m, remove(m.mem, wide_of(m), ops[0]))
}

pub open spec fn spec_get_parent(m: Vm, ops: Seq<u16>) -> Result<Vm, Error> {
    store_of(m, parent(m.mem, wide_of(m), ops[0]))
}

/// Storing an object number, then branching when it is not 0.
pub open spec fn store_then_branch(m: Vm, r: Result<u16, Error>) -> Result<Vm, Error> {
    match r {
        Err(e) => Err(e),
        Ok(o) => match store_result(m, o) {
            Ok(m1) => branch(m1, o != 0),
            Err(e) => Err(e),
        },
    }
}

pub open spec fn spec_get_child(m: Vm, ops: Seq<u16>) -> Result<Vm, Error> {
    store_then_branch(m, child(m.mem, wide_of(m), ops[0]))
}

pub open spec fn spec_get_sibling(m: Vm, ops: Seq<u16>) -> Result<Vm, Error> {
    store_then_branch(m, sibling(m.mem, wide_of(m), ops[0]))
}

pub open spec fn spec_jin(m: Vm, ops: Seq<u16>) -> Result<Vm, Error> {
    match parent(m.mem, wide_of(m), ops[0]) {
        Ok(p) => branch(m, p == ops[1]),
        Err(e) => Err(e),
    }
}

pub open spec fn spec_get_prop(m: Vm, ops: Seq<u16>) -> Result<Vm, Error> {
    match prop_number(ops[1]) {
        Err(e) => Err(e),
        Ok(n) => store_of(m, prop_value(m.mem, wide_of(m), ops[0], n)),
    }
}

pub open spec fn spec_get_prop_addr(m: Vm, ops: Seq<u16>) -> Result<Vm, Error> {
    match prop_number(ops[1]) {
        Err(e) => Err(e),
        Ok(n) => match prop_addr(m.mem, wide_of(m), ops[0], n) {
            Ok(p) => store_result(m, (p.addr % 0x10000) as u16),
            Err(e) => Err(e),
        },
    }
}

pub open spec fn spec_get_prop_len(m: Vm, ops: Seq<u16>) -> Result<Vm, Error> {
    match prop_len(m.mem, wide_of(m), ops[0]) {
        Ok(l) => store_result(m, l as u16),
        Err(e) => Err(e),
    }
}

pub open spec fn spec_get_next_prop(m: Vm, ops: Seq<u16>) -> Result<Vm, Error> {
    match prop_number(ops[1]) {
        Err(e) => Err(e),
        Ok(n) => match next_prop(m.mem, wide_of(m), ops[0], n) {
            Ok(p) => store_result(m, p as u16),
            Err(e) => Err(e),
        },
    }
}

pub open spec fn spec_put_prop(m: Vm, ops: Seq<u16>) -> Result<Vm, Error> {
    match prop_number(ops[1]) {
        Err(e) => Err(e),
        Ok(n) => lift(m, put_prop(m.mem, wide_of(m), ops[0], n, ops[2])),
    }
}

impl State {
    fn objects(&self) -> (r: Object)
        ensures
            r.wide == wide_of(self@),
    {
        Object::new(self.version)
    }

    fn prop_number(n: u16) -> (r: Result<u8, Error>)
        ensures
            r == prop_number(n),
    {
        if n > 255 {
            Err(Error::InvalidProperty(n))
        } else {
            Ok(n as u8)
        }
    }
}

/// Sets an attribute of an object.
#[derive(Clone, Copy, Debug)]
pub struct SetAttr;

impl SetAttr {
    pub fn execute(&self, state: &mut State, operands: Vec<u16>) -> (r: Result<(), Error>)
        requires
            old(state).wf(),
            operands@.len() >= 2,
        ensures
            final(state).wf(),
            outcome(r, final(state)@, spec_set_attr(old(state)@, operands@)),
            r is Err ==> final(state)@ == old(state)@,
    {
        let obj = state.objects();
        obj.attr_set(&mut state.mem, operands[0], operands[1])
    }
}

/// Clears an attribute of an object.
#[derive(Clone, Copy, Debug)]
pub struct ClearAttr;

impl ClearAttr {
    pub fn execute(&self, state: &mut State, operands: Vec<u16>) -> (r: Result<(), Error>)
        requires
            old(state).wf(),
            operands@.len() >= 2,
        ensures
            final(state).wf(),
            outcome(r, final(state)@, spec_clear_attr(old(state)@, operands@)),
            r is Err ==> final(state)@ == old(state)@,
    {
        let obj = state.objects();
        obj.attr_clear(&mut state.mem, operands[0], operands[1])
    }
}

/// Branches if an object has an attribute.
#[derive(Clone, Copy, Debug)]
pub struct TestAttr;

impl TestAttr {
    pub fn execute(&self, state: &mut State, operands: Vec<u16>) -> (r: Result<(), Error>)
        requires
            old(state).wf(),
            operands@.len() >= 2,
        ensures
            final(state).wf(),
            outcome(r, final(state)@, spec_test_attr(old(state)@, operands@)),
    {
        let obj = state.objects();
        let set = obj.attr_test(&state.mem, operands[0], operands[1])?;
        state.branch(set)
    }
}

/// Moves an object to be the first child of another.
#[derive(Clone, Copy, Debug)]
pub struct InsertObj;

impl InsertObj {
    pub fn execute(&self, state: &mut State, operands: Vec<u16>) -> (r: Result<(), Error>)
        requires
            old(state).wf(),
            operands@.len() >= 2,
        ensures
            final(state).wf(),
            outcome(r, final(state)@, spec_insert_obj(old(state)@, operands@)),
    {
        let obj = state.objects();
        obj.insert(&mut state.mem, operands[0], operands[1])
    }
}

/// Detaches an object from its parent.
#[derive(Clone, Copy, Debug)]
pub struct RemoveObj;

impl RemoveObj {
    pub fn execute(&self, state: &mut State, operands: Vec<u16>) -> (r: Result<(), Error>)
        requires
            old(state).wf(),
            operands@.len() >= 1,
        ensures
            final(state).wf(),
            outcome(r, final(state)@, spec_remove_obj(old(state)@, operands@)),
    {
        let obj = state.objects();
        obj.remove(&mut state.mem, operands[0])
    }
}

/// Stores the parent of an object.
#[derive(Clone, Copy, Debug)]
pub struct GetParent;

impl GetParent {
    pub fn execute(&self, state: &mut State, operands: Vec<u16>) -> (r: Result<(), Error>)
        requires
            old(state).wf(),
            operands@.len() >= 1,
        ensures
            final(state).wf(),
            outcome(r, final(state)@, spec_get_parent(old(state)@, operands@)),
    {
        let obj = state.objects();
        let p = obj.parent(&state.mem, operands[0])?;
        state.store_result(p)
    }
}

/// Stores the first child of an object and branches if there is one.
#[derive(Clone, Copy, Debug)]
pub struct GetChild;

impl GetChild {
    pub fn execute(&self, state: &mut State, operands: Vec<u16>) -> (r: Result<(), Error>)
        requires
            old(state).wf(),
            operands@.len() >= 1,
        ensures
            final(state).wf(),
            outcome(r, final(state)@, spec_get_child(old(state)@, operands@)),
    {
        let obj = state.objects();
        let c = obj.child(&state.mem, operands[0])?;
        state.store_result(c)?;
        state.branch(c != 0)
    }
}

/// Stores the next sibling of an object and branches if there is one.
#[derive(Clone, Copy, Debug)]
pub struct GetSibling;

impl GetSibling {
    pub fn execute(&self, state: &mut State, operands: Vec<u16>) -> (r: Result<(), Error>)
        requires
            old(state).wf(),
            operands@.len() >= 1,
        ensures
            final(state).wf(),
            outcome(r, final(state)@, spec_get_sibling(old(state)@, operands@)),
    {
        let obj = state.objects();
        let s = obj.sibling(&state.mem, operands[0])?;
        state.store_result(s)?;
        state.branch(s != 0)
    }
}

/// Branches if the first object's parent is the second.
#[derive(Clone, Copy, Debug)]
pub struct Jin;

impl Jin {
    pub fn execute(&self, state: &mut State, operands: Vec<u16>) -> (r: Result<(), Error>)
        requires
            old(state).wf(),
            operands@.len() >= 2,
        ensures
            final(state).wf(),
            outcome(r, final(state)@, spec_jin(old(state)@, operands@)),
    {
        let obj = state.objects();
        let inside = obj.inside(&state.mem, operands[0], operands[1])?;
        state.branch(inside)
    }
}

/// Stores a property's value, or its default.
#[derive(Clone, Copy, Debug)]
pub struct GetProp;

impl GetProp {
    pub fn execute(&self, state: &mut State, operands: Vec<u16>) -> (r: Result<(), Error>)
        requires
            old(state).wf(),
            operands@.len() >= 2,
        ensures
            final(state).wf(),
            outcome(r, final(state)@, spec_get_prop(old(state)@, operands@)),
    {
        let n = State::prop_number(operands[1])?;
        let obj = state.objects();
        let v = obj.get_prop(&state.mem, operands[0], n)?;
        state.store_result(v)
    }
}

/// Stores the address of a property's data (0 if absent).
#[derive(Clone, Copy, Debug)]
pub struct GetPropAddr;

impl GetPropAddr {
    pub fn execute(&self, state: &mut State, operands: Vec<u16>) -> (r: Result<(), Error>)
        requires
            old(state).wf(),
            operands@.len() >= 2,
        ensures
            final(state).wf(),
            outcome(r, final(state)@, spec_get_prop_addr(old(state)@, operands@)),
    {
        let n = State::prop_number(operands[1])?;
        let obj = state.objects();
        let p = obj.get_prop_addr(&state.mem, operands[0], n)?;
        state.store_result((p.addr % 0x10000) as u16)
    }
}

/// Stores the length of the property whose data is at the given address.
#[derive(Clone, Copy, Debug)]
pub struct GetPropLen;

impl GetPropLen {
    pub fn execute(&self, state: &mut State, operands: Vec<u16>) -> (r: Result<(), Error>)
        requires
            old(state).wf(),
            operands@.len() >= 1,
        ensures
            final(state).wf(),
            outcome(r, final(state)@, spec_get_prop_len(old(state)@, operands@)),
    {
        let obj = state.objects();
        let l = obj.get_prop_len(&state.mem, operands[0])?;
        state.store_result(l as u16)
    }
}

/// Stores the number of the property after the given one.
#[derive(Clone, Copy, Debug)]
pub struct GetNextProp;

impl GetNextProp {
    pub fn execute(&self, state: &mut State, operands: Vec<u16>) -> (r: Result<(), Error>)
        requires
            old(state).wf(),
            operands@.len() >= 2,
        ensures
            final(state).wf(),
            outcome(r, final(state)@, spec_get_next_prop(old(state)@, operands@)),
    {
        let n = State::prop_number(operands[1])?;
        let obj = state.objects();
        let p = obj.get_prop_next(&state.mem, operands[0], n)?;
        state.store_result(p as u16)
    }
}

/// Overwrites a one- or two-byte property.
#[derive(Clone, Copy, Debug)]
pub struct PutProp;

impl PutProp {
    pub fn execute(&self, state: &mut State, operands: Vec<u16>) -> (r: Result<(), Error>)
        requires
            old(state).wf(),
            operands@.len() >= 3,
        ensures
            final(state).wf(),
            outcome(r, final(state)@, spec_put_prop(old(state)@, operands@)),
            r is Err ==> final(state)@ == old(state)@,
    {
        let n = State::prop_number(operands[1])?;
        let obj = state.objects();
        obj.put_prop(&mut state.mem, operands[0], n, operands[2])
    }
}

pub open spec fn spec_call(m: Vm, ops: Seq<u16>) -> Result<Vm, Error> {
    match fetch_byte(m) {
        Ok((m1, id)) => call(m1, ops[0], ops.subrange(1, ops.len() as int), Some(id)),
        Err(e) => Err(e),
    }
}

/// A call whose result is discarded (the `call_*n` forms).
pub open spec fn spec_call_discard(m: Vm, ops: Seq<u16>) -> Result<Vm, Error> {
    call(m, ops[0], ops.subrange(1, ops.len() as int), None)
}

pub open spec fn spec_ret_popped(m: Vm) -> Result<Vm, Error> {
    match load(m, 0) {
        Ok((m1, v)) => ret(m1, v),
        Err(e) => Err(e),
    }
}

/// Calls the routine at a packed address with the remaining operands as
/// arguments; the result goes to the store variable that follows.
#[derive(Clone, Copy, Debug)]
pub struct Call;

impl Call {
    pub fn execute(&self, state: &mut State, operands: Vec<u16>) -> (r: Result<(), Error>)
        requires
            old(state).wf(),
            operands@.len() >= 1,
        ensures
            final(state).wf(),
            outcome(r, final(state)@, spec_call(old(state)@, operands@)),
    {
        let id = state.next_u8()?;
        state.call(operands[0], operands.as_slice().split_at(1).1, Some(id))
    }

    /// The same call with its result thrown away: no store byte follows.
    pub fn execute_discarding(&self, state: &mut State, operands: Vec<u16>) -> (r: Result<(), Error>)
        requires
            old(state).wf(),
            operands@.len() >= 1,
        ensures
            final(state).wf(),
            outcome(r, final(state)@, spec_call_discard(old(state)@, operands@)),
    {
        state.call(operands[0], operands.as_slice().split_at(1).1, None)
    }
}

/// Returns a value from the current routine.
#[derive(Clone, Copy, Debug)]
pub struct Ret;

impl Ret {
    pub fn execute(&self, state: &mut State, operands: Vec<u16>) -> (r: Result<(), Error>)
        requires
            old(state).wf(),
            operands@.len() >= 1,
        ensures
            final(state).wf(),
            outcome(r, final(state)@, ret(old(state)@, operands@[0])),
    {
        state.ret(operands[0])
    }
}

/// Returns true (1).
#[derive(Clone, Copy, Debug)]
pub struct RTrue;

impl RTrue {
    pub fn execute(&self, state: &mut State, operands: Vec<u16>) -> (r: Result<(), Error>)
        requires
            old(state).wf(),
        ensures
            final(state).wf(),
            outcome(r, final(state)@, ret(old(state)@, 1)),
    {
        state.ret(1)
    }
}

/// Returns false (0).
#[derive(Clone, Copy, Debug)]
pub struct RFalse;

impl RFalse {
    pub fn execute(&self, state: &mut State, operands: Vec<u16>) -> (r: Result<(), Error>)
        requires
            old(state).wf(),
        ensures
            final(state).wf(),
            outcome(r, final(state)@, ret(old(state)@, 0)),
    {
        state.ret(0)
    }
}

/// Pops the stack and returns that value.
#[derive(Clone, Copy, Debug)]
pub struct RetPopped;

impl RetPopped {
    pub fn execute(&self, state: &mut State, operands: Vec<u16>) -> (r: Result<(), Error>)
        requires
            old(state).wf(),
        ensures
            final(state).wf(),
            outcome(r, final(state)@, spec_ret_popped(old(state)@)),
    {
        let v = state.read_variable(0)?;
        state.ret(v)
    }
}

/// The machine after a restart: memory reset, the main routine at the
/// header's initial PC, no callers, running.
pub open spec fn restarted(m: Vm) -> Vm {
    let mem = reset_view(m.mem);
    Vm {
        mem,
        frame: StackFrame { pc: header_word(mem, 0x06) as u32, bp: 0, nlocals: 0, store: None },
        frames: Seq::empty(),
        running: true,
        awaiting: None,
        ..m
    }
}

/// Restarts the story from its loaded image.
#[derive(Clone, Copy, Debug)]
pub struct Restart;

impl Restart {
    pub fn execute(&self, state: &mut State, operands: Vec<u16>) -> (r: Result<(), Error>)
        requires
            old(state).wf(),
        ensures
            final(state).wf(),
            r is Ok && final(state)@ == restarted(old(state)@),
    {
        state.mem.reset();
        state.frames = Vec::new();
        state.frame = StackFrame::main(state.mem.initial_pc() as u32);
        state.running = true;
        state.awaiting = None;
        assert(state@.frames =~= Seq::<StackFrame>::empty());
        Ok(())
    }
}

/// Stops the machine.
#[derive(Clone, Copy, Debug)]
pub struct Quit;

impl Quit {
    pub fn execute(&self, state: &mut State, operands: Vec<u16>) -> (r: Result<(), Error>)
        requires
            old(state).wf(),
        ensures
            final(state).wf(),
            r is Ok && final(state)@ == (Vm { running: false, ..old(state)@ }),
    {
        state.running = false;
        Ok(())
    }
}

/// Printing the text of a decoded string result.
pub open spec fn print_of(m: Vm, r: Result<(Seq<char>, int), Error>) -> Result<Vm, Error> {
    match r {
        Ok((s, _)) => Ok(emit(m, ScreenOpView::Print(s))),
        Err(e) => Err(e),
    }
}

pub open spec fn spec_print(m: Vm) -> Result<Vm, Error> {
    match decode_string(m.mem, m.version, m.frame.pc as int) {
        Ok((s, end)) => Ok(emit(with_pc(m, end), ScreenOpView::Print(s))),
        Err(e) => Err(e),
    }
}

pub open spec fn spec_print_ret(m: Vm) -> Result<Vm, Error> {
    match spec_print(m) {
        Ok(m1) => ret(emit(m1, ScreenOpView::NewLine), 1),
        Err(e) => Err(e),
    }
}

impl State {
    fn print_at(&mut self, addr: u32) -> (r: Result<u32, Error>)
        requires
            old(self).wf(),
        ensures
            final(self).wf(),
            match decode_string(old(self)@.mem, old(self)@.version, addr as int) {
                Ok((s, end)) => r == Ok::<u32, Error>(end as u32) && end == end as u32
                    && final(self)@ == emit(old(self)@, ScreenOpView::Print(s)),
                Err(e) => r == Err::<u32, Error>(e),
            },
    {
        let mut z = Zscii::new();
        let text = z.get_string(&self.mem, self.version, addr)?;
        let end = z.get_ptr();
        self.emit(ScreenOp::Print(text));
        Ok(end)
    }
}

/// Prints the string that follows the instruction.
#[derive(Clone, Copy, Debug)]
pub struct Print;

impl Print {
    pub fn execute(&self, state: &mut State, operands: Vec<u16>) -> (r: Result<(), Error>)
        requires
            old(state).wf(),
        ensures
            final(state).wf(),
            outcome(r, final(state)@, spec_print(old(state)@)),
    {
        let end = state.print_at(state.frame.pc)?;
        state.set_pc(end);
        Ok(())
    }
}

/// Prints the string that follows, a newline, and returns true.
#[derive(Clone, Copy, Debug)]
pub struct PrintRet;

impl PrintRet {
    pub fn execute(&self, state: &mut State, operands: Vec<u16>) -> (r: Result<(), Error>)
        requires
            old(state).wf(),
        ensures
            final(state).wf(),
            outcome(r, final(state)@, spec_print_ret(old(state)@)),
    {
        Print.execute(state, operands)?;
        state.emit(ScreenOp::NewLine);
        state.ret(1)
    }
}

/// Prints the string at a byte address.
#[derive(Clone, Copy, Debug)]
pub struct PrintAddr;

impl PrintAddr {
    pub fn execute(&self, state: &mut State, operands: Vec<u16>) -> (r: Result<(), Error>)
        requires
            old(state).wf(),
            operands@.len() >= 1,
        ensures
            final(state).wf(),
            outcome(
                r,
                final(state)@,
                print_of(
                    old(state)@,
                    decode_string(old(state)@.mem, old(state)@.version, operands@[0] as int),
                ),
            ),
    {
        state.print_at(operands[0] as u32)?;
        Ok(())
    }
}

/// Prints the string at a packed address.
#[derive(Clone, Copy, Debug)]
pub struct PrintPAddr;

impl PrintPAddr {
    pub fn execute(&self, state: &mut State, operands: Vec<u16>) -> (r: Result<(), Error>)
        requires
            old(state).wf(),
            operands@.len() >= 1,
        ensures
            final(state).wf(),
            outcome(
                r,
                final(state)@,
                print_of(
                    old(state)@,
                    decode_string(
                        old(state)@.mem,
                        old(state)@.version,
                        unpack_string(old(state)@, operands@[0]),
                    ),
                ),
            ),
    {
        let a = state.unpack_string(operands[0]);
        state.print_at(a)?;
        Ok(())
    }
}

pub open spec fn spec_print_obj(m: Vm, ops: Seq<u16>) -> Result<Vm, Error> {
    match obj_name(m.mem, wide_of(m), m.version, ops[0]) {
        Ok(s) => Ok(emit(m, ScreenOpView::Print(s))),
        Err(e) => Err(e),
    }
}

/// Prints an object's short name.
#[derive(Clone, Copy, Debug)]
pub struct PrintObj;

impl PrintObj {
    pub fn execute(&self, state: &mut State, operands: Vec<u16>) -> (r: Result<(), Error>)
        requires
            old(state).wf(),
            operands@.len() >= 1,
        ensures
            final(state).wf(),
            outcome(r, final(state)@, spec_print_obj(old(state)@, operands@)),
    {
        let obj = state.objects();
        let name = obj.name(&state.mem, state.version, operands[0])?;
        state.emit(ScreenOp::Print(name));
        Ok(())
    }
}

/// Prints one ZSCII character.
#[derive(Clone, Copy, Debug)]
pub struct PrintChar;

impl PrintChar {
    pub fn execute(&self, state: &mut State, operands: Vec<u16>) -> (r: Result<(), Error>)
        requires
            old(state).wf(),
            operands@.len() >= 1,
        ensures
            final(state).wf(),
            r is Ok && final(state)@ == emit(
                old(state)@,
                ScreenOpView::PrintChar(zscii_char(operands@[0])),
            ),
    {
        state.emit(ScreenOp::PrintChar(zscii_to_char(operands[0])));
        Ok(())
    }
}

/// Prints a signed number.
#[derive(Clone, Copy, Debug)]
pub struct PrintNum;

impl PrintNum {
    pub fn execute(&self, state: &mut State, operands: Vec<u16>) -> (r: Result<(), Error>)
        requires
            old(state).wf(),
            operands@.len() >= 1,
        ensures
            final(state).wf(),
            r is Ok && final(state)@ == emit(
                old(state)@,
                ScreenOpView::PrintNumber(signed16(operands@[0]) as i16),
            ),
    {
        let n = signed(operands[0]) as i16;
        state.emit(ScreenOp::PrintNumber(n));
        Ok(())
    }
}

/// Starts a new line.
#[derive(Clone, Copy, Debug)]
pub struct NewLine;

impl NewLine {
    pub fn execute(&self, state: &mut State, operands: Vec<u16>) -> (r: Result<(), Error>)
        requires
            old(state).wf(),
        ensures
            final(state).wf(),
            r is Ok && final(state)@ == emit(old(state)@, ScreenOpView::NewLine),
    {
        state.emit(ScreenOp::NewLine);
        Ok(())
    }
}

/// Splits the screen, giving the upper window so many lines.
#[derive(Clone, Copy, Debug)]
pub struct SplitWindow;

impl SplitWindow {
    pub fn execute(&self, state: &mut State, operands: Vec<u16>) -> (r: Result<(), Error>)
        requires
            old(state).wf(),
            operands@.len() >= 1,
        ensures
            final(state).wf(),
            r is Ok && final(state)@ == emit(old(state)@, ScreenOpView::SplitWindow(operands@[0])),
    {
        state.emit(ScreenOp::SplitWindow(operands[0]));
        Ok(())
    }
}

/// Selects the window that receives output.
#[derive(Clone, Copy, Debug)]
pub struct SetWindow;

impl SetWindow {
    pub fn execute(&self, state: &mut State, operands: Vec<u16>) -> (r: Result<(), Error>)
        requires
            old(state).wf(),
            operands@.len() >= 1,
        ensures
            final(state).wf(),
            r is Ok && final(state)@ == emit(old(state)@, ScreenOpView::SetWindow(operands@[0])),
    {
        state.emit(ScreenOp::SetWindow(operands[0]));
        Ok(())
    }
}

/// Clears a window.
#[derive(Clone, Copy, Debug)]
pub struct EraseWindow;

impl EraseWindow {
    pub fn execute(&self, state: &mut State, operands: Vec<u16>) -> (r: Result<(), Error>)
        requires
            old(state).wf(),
            operands@.len() >= 1,
        ensures
            final(state).wf(),
            r is Ok && final(state)@ == emit(old(state)@, ScreenOpView::EraseWindow(operands@[0])),
    {
        state.emit(ScreenOp::EraseWindow(operands[0]));
        Ok(())
    }
}

/// Moves the cursor to a line and column.
#[derive(Clone, Copy, Debug)]
pub struct MoveCursor;

impl MoveCursor {
    pub fn execute(&self, state: &mut State, operands: Vec<u16>) -> (r: Result<(), Error>)
        requires
            old(state).wf(),
            operands@.len() >= 2,
        ensures
            final(state).wf(),
            r is Ok && final(state)@ == emit(
                old(state)@,
                ScreenOpView::MoveCursor(operands@[0], operands@[1]),
            ),
    {
        state.emit(ScreenOp::MoveCursor(operands[0], operands[1]));
        Ok(())
    }
}

/// Sets the foreground and background colours.
#[derive(Clone, Copy, Debug)]
pub struct SetColor;

impl SetColor {
    pub fn execute(&self, state: &mut State, operands: Vec<u16>) -> (r: Result<(), Error>)
        requires
            old(state).wf(),
            operands@.len() >= 2,
        ensures
            final(state).wf(),
            r is Ok && final(state)@ == emit(
                old(state)@,
                ScreenOpView::SetColor(operands@[0], operands@[1]),
            ),
    {
        state.emit(ScreenOp::SetColor(operands[0], operands[1]));
        Ok(())
    }
}

/// The V3 status line: the name of the location object in global 0x10, and
/// globals 0x11 and 0x12.
pub open spec fn status_line(m: Vm) -> Result<ScreenOpView, Error> {
    match read_word(m.mem, global_addr(m.mem, 16)) {
        Err(e) => Err(e),
        Ok(loc) => match obj_name(m.mem, wide_of(m), m.version, loc) {
            Err(e) => Err(e),
            Ok(name) => match read_word(m.mem, global_addr(m.mem, 17)) {
                Err(e) => Err(e),
                Ok(a) => match read_word(m.mem, global_addr(m.mem, 18)) {
                    Err(e) => Err(e),
                    Ok(b) => Ok(ScreenOpView::SetStatus(name, a, b)),
                },
            },
        },
    }
}

pub open spec fn spec_show_status(m: Vm) -> Result<Vm, Error> {
    if m.version <= 3 {
        match status_line(m) {
            Ok(op) => Ok(emit(m, op)),
            Err(e) => Err(e),
        }
    } else {
        Ok(m)
    }
}

pub open spec fn spec_sread(m: Vm, ops: Seq<u16>) -> Result<Vm, Error> {
    match spec_show_status(m) {
        Ok(m1) => Ok(Vm { awaiting: Some(Await::Line { text: ops[0], parse: ops[1] }), ..m1 }),
        Err(e) => Err(e),
    }
}

pub open spec fn spec_read_char(m: Vm) -> Result<Vm, Error> {
    match fetch_byte(m) {
        Ok((m1, id)) => Ok(Vm { awaiting: Some(Await::Char { store: id }), ..m1 }),
        Err(e) => Err(e),
    }
}

pub open spec fn spec_random(m: Vm, ops: Seq<u16>) -> Result<Vm, Error> {
    if signed16(ops[0]) > 0 {
        match fetch_byte(m) {
            Ok((m1, id)) => Ok(
                Vm { awaiting: Some(Await::Random { limit: ops[0], store: id }), ..m1 },
            ),
            Err(e) => Err(e),
        }
    } else {
        store_result(emit(m, ScreenOpView::SeedRandom(word(-signed16(ops[0])))), 0)
    }
}

/// Save and restore are not offered: they fail (branch false up to V3, store
/// 0 from V4).
pub open spec fn spec_save_fails(m: Vm) -> Result<Vm, Error> {
    if m.version <= 3 {
        branch(m, false)
    } else {
        store_result(m, 0)
    }
}

/// Sum of the bytes `s[lo..hi]`.
pub open spec fn byte_sum(s: Seq<u8>, lo: int, hi: int) -> int
    decreases hi - lo,
{
    if lo >= hi {
        0
    } else {
        byte_sum(s, lo, hi - 1) + s[hi - 1]
    }
}

/// The story's length from its header (a count of 2, 4 or 8 byte units by
/// version), cut to the image.
pub open spec fn file_len(m: Vm) -> int {
    let units = word_of(m.mem.original[0x1A], m.mem.original[0x1B]) as int;
    let len = units * (if m.version <= 3 {
        2int
    } else if m.version <= 5 {
        4int
    } else {
        8int
    });
    if len > m.mem.original.len() {
        m.mem.original.len() as int
    } else {
        len
    }
}

/// The loaded image's bytes from 0x40 on sum, modulo 2^16, to the header's
/// checksum.
pub open spec fn checksum_ok(m: Vm) -> bool {
    byte_sum(m.mem.original, 0x40, file_len(m)) % 0x10000 == word_of(
        m.mem.original[0x1C],
        m.mem.original[0x1D],
    ) as int
}

/// Updates the status line (V3 only).
#[derive(Clone, Copy, Debug)]
pub struct ShowStatus;

impl ShowStatus {
    pub fn execute(&self, state: &mut State, operands: Vec<u16>) -> (r: Result<(), Error>)
        requires
            old(state).wf(),
        ensures
            final(state).wf(),
            outcome(r, final(state)@, spec_show_status(old(state)@)),
    {
        if state.version > 3 {
            return Ok(());
        }
        let loc = state.mem.read_global(16)?;
        let obj = state.objects();
        let name = obj.name(&state.mem, state.version, loc)?;
        let a = state.mem.read_global(17)?;
        let b = state.mem.read_global(18)?;
        state.emit(ScreenOp::SetStatus(name, a, b));
        Ok(())
    }
}

/// Reads a line of input into a text buffer: the machine waits for the host
/// to answer with `State::resume_line`.
#[derive(Clone, Copy, Debug)]
pub struct Sread;

impl Sread {
    pub fn execute(&self, state: &mut State, operands: Vec<u16>) -> (r: Result<(), Error>)
        requires
            old(state).wf(),
            operands@.len() >= 2,
        ensures
            final(state).wf(),
            outcome(r, final(state)@, spec_sread(old(state)@, operands@)),
    {
        ShowStatus.execute(state, Vec::new())?;
        state.awaiting = Some(Await::Line { text: operands[0], parse: operands[1] });
        Ok(())
    }
}

/// Reads one key: the machine waits for `State::resume_char`.
#[derive(Clone, Copy, Debug)]
pub struct ReadChar;

impl ReadChar {
    pub fn execute(&self, state: &mut State, operands: Vec<u16>) -> (r: Result<(), Error>)
        requires
            old(state).wf(),
        ensures
            final(state).wf(),
            outcome(r, final(state)@, spec_read_char(old(state)@)),
    {
        let id = state.next_u8()?;
        state.awaiting = Some(Await::Char { store: id });
        Ok(())
    }
}

/// A positive range asks the host for a number in `1..=range` (answered by
/// `State::resume_random`); zero or a negative range re-seeds and stores 0.
#[derive(Clone, Copy, Debug)]
pub struct Random;

impl Random {
    pub fn execute(&self, state: &mut State, operands: Vec<u16>) -> (r: Result<(), Error>)
        requires
            old(state).wf(),
            operands@.len() >= 1,
        ensures
            final(state).wf(),
            outcome(r, final(state)@, spec_random(old(state)@, operands@)),
    {
        let range = signed(operands[0]);
        if range > 0 {
            let id = state.next_u8()?;
            state.awaiting = Some(Await::Random { limit: operands[0], store: id });
            Ok(())
        } else {
            state.emit(ScreenOp::SeedRandom(word_from(false, (-range) as u32)));
            state.store_result(0)
        }
    }
}

impl State {
    fn save_fails(&mut self) -> (r: Result<(), Error>)
        requires
            old(self).wf(),
        ensures
            final(self).wf(),
            outcome(r, final(self)@, spec_save_fails(old(self)@)),
    {
        if self.version <= 3 {
            self.branch(false)
        } else {
            self.store_result(0)
        }
    }
}

/// Saving is not offered: reports failure.
#[derive(Clone, Copy, Debug)]
pub struct Save;

impl Save {
    pub fn execute(&self, state: &mut State, operands: Vec<u16>) -> (r: Result<(), Error>)
        requires
            old(state).wf(),
        ensures
            final(state).wf(),
            outcome(r, final(state)@, spec_save_fails(old(state)@)),
    {
        state.save_fails()
    }
}

/// Restoring is not offered: reports failure.
#[derive(Clone, Copy, Debug)]
pub struct Restore;

impl Restore {
    pub fn execute(&self, state: &mut State, operands: Vec<u16>) -> (r: Result<(), Error>)
        requires
            old(state).wf(),
        ensures
            final(state).wf(),
            outcome(r, final(state)@, spec_save_fails(old(state)@)),
    {
        state.save_fails()
    }
}

impl State {
    /// Whether the loaded image matches the header's checksum.
    pub fn checksum_matches(&self) -> (r: bool)
        requires
            self.wf(),
        ensures
            r == checksum_ok(self@),
    {
        let units = self.mem.original_byte(0x1A) as usize * 256 + self.mem.original_byte(0x1B) as usize;
        let scale: usize = if self.version <= 3 {
            2
        } else if self.version <= 5 {
            4
        } else {
            8
        };
        let n = self.mem.len();
        let end = if units * scale > n {
            n
        } else {
            units * scale
        };
        let mut sum: u32 = 0;
        let mut i: usize = 0x40;
        while i < end
            invariant
                self.wf(),
                0x40 <= i || end <= 0x40,
                i <= 0x40 || i <= end,
                end == file_len(self@),
                end <= n == self@.mem.original.len(),
                i >= 0x40,
                sum == byte_sum(self@.mem.original, 0x40, i as int),
                sum <= 255 * i,
            decreases end - i,
        {
            sum = sum + self.mem.original_byte(i) as u32;
            i += 1;
        }
        let expect = self.mem.original_byte(0x1C) as u32 * 256 + self.mem.original_byte(0x1D) as u32;
        proof {
            if end < 0x40 {
                assert(byte_sum(self@.mem.original, 0x40, end as int) == 0);
            }
        }
        let total = if end < 0x40 {
            0
        } else {
            sum
        };
        total % 0x10000 == expect
    }
}

/// Branches if the story image matches its header checksum.
#[derive(Clone, Copy, Debug)]
pub struct Verify;

impl Verify {
    pub fn execute(&self, state: &mut State, operands: Vec<u16>) -> (r: Result<(), Error>)
        requires
            old(state).wf(),
        ensures
            final(state).wf(),
            outcome(r, final(state)@, branch(old(state)@, checksum_ok(old(state)@))),
    {
        let ok = state.checksum_matches();
        state.branch(ok)
    }
}

/// A ZSCII letter in lower case.
pub open spec fn lower(b: u8) -> u8 {
    if 65 <= b <= 90 {
        (b + 32) as u8
    } else {
        b
    }
}

/// How many characters of `input` a text buffer of capacity `cap` takes: up
/// to V4 one byte is kept for the terminating 0.
pub open spec fn line_len(version: u8, input: Seq<u8>, cap: u8) -> int {
    let room = if version >= 5 {
        cap as int
    } else if cap == 0 {
        0
    } else {
        cap - 1
    };
    if input.len() < room {
        input.len() as int
    } else {
        room
    }
}

/// What a line of input puts after the capacity byte of a text buffer: the
/// characters in lower case, then a 0 (up to V4); from V5 a count, then the
/// characters.
pub open spec fn line_bytes(version: u8, input: Seq<u8>, cap: u8) -> Seq<u8> {
    let n = line_len(version, input, cap);
    let letters = Seq::new(n as nat, |i: int| lower(input[i]));
    if version >= 5 {
        seq![n as u8] + letters
    } else {
        letters.push(0)
    }
}

pub open spec fn write_bytes(m: MemView, a: int, bs: Seq<u8>) -> Result<MemView, Error>
    decreases bs.len(),
{
    if bs.len() == 0 {
        Ok(m)
    } else {
        match write_byte(m, a, bs[0]) {
            Ok(m1) => write_bytes(m1, a + 1, bs.drop_first()),
            Err(e) => Err(e),
        }
    }
}

/// Answering a line request: the text goes to the buffer after its capacity
/// byte, the parse buffer reports no words (tokenising is left to the story),
/// and from V5 the terminating character 13 is stored.
pub open spec fn line_answer(m: Vm, text: u16, parse: u16, input: Seq<u8>) -> Result<Vm, Error> {
    let m0 = Vm { awaiting: None, ..m };
    match read_byte(m.mem, text as int) {
        Err(e) => Err(e),
        Ok(cap) => match write_bytes(m.mem, text + 1, line_bytes(m.version, input, cap)) {
            Err(e) => Err(e),
            Ok(mem1) => match write_byte(mem1, parse + 1, 0) {
                Err(e) => Err(e),
                Ok(mem2) => if m.version >= 5 {
                    store_result(with_mem(m0, mem2), 13)
                } else {
                    Ok(with_mem(m0, mem2))
                },
            },
        },
    }
}

impl State {
    /// Answers a pending random request with `v`.
    pub fn resume_random(&mut self, v: u16) -> (r: Result<(), Error>)
        requires
            old(self).wf(),
        ensures
            final(self).wf(),
            outcome(
                r,
                final(self)@,
                match old(self)@.awaiting {
                    Some(Await::Random { store: id, .. }) => store(
                        Vm { awaiting: None, ..old(self)@ },
                        id,
                        v,
                    ),
                    _ => Err(Error::UnexpectedInput),
                },
            ),
    {
        match self.awaiting {
            Some(Await::Random { store: id, .. }) => {
                self.awaiting = None;
                self.store_variable(id, v)
            },
            _ => Err(Error::UnexpectedInput),
        }
    }

    /// Answers a pending key request with the ZSCII code `c`.
    pub fn resume_char(&mut self, c: u16) -> (r: Result<(), Error>)
        requires
            old(self).wf(),
        ensures
            final(self).wf(),
            outcome(
                r,
                final(self)@,
                match old(self)@.awaiting {
                    Some(Await::Char { store: id }) => store(Vm { awaiting: None, ..old(self)@ }, id, c),
                    _ => Err(Error::UnexpectedInput),
                },
            ),
    {
        match self.awaiting {
            Some(Await::Char { store: id }) => {
                self.awaiting = None;
                self.store_variable(id, c)
            },
            _ => Err(Error::UnexpectedInput),
        }
    }

    fn write_all(&mut self, a: u32, bs: &Vec<u8>) -> (r: Result<(), Error>)
        requires
            old(self).wf(),
            a < 0x20000,
            bs@.len() <= 256,
        ensures
            final(self).wf(),
            final(self)@.mem.stack == old(self)@.mem.stack,
            final(self)@.frame == old(self)@.frame,
            final(self)@.frames == old(self)@.frames,
            match write_bytes(old(self)@.mem, a as int, bs@) {
                Ok(mem) => r is Ok && final(self)@ == with_mem(old(self)@, mem),
                Err(e) => r == Err::<(), Error>(e),
            },
    {
        let mut i: usize = 0;
        assert(bs@.subrange(0, bs@.len() as int) =~= bs@);
        while i < bs.len()
            invariant
                self.wf(),
                i <= bs@.len() <= 256,
                a < 0x20000,
                self@ == with_mem(old(self)@, self@.mem),
                self@.mem.stack == old(self)@.mem.stack,
                write_bytes(old(self)@.mem, a as int, bs@) == write_bytes(
                    self@.mem,
                    a + i,
                    bs@.subrange(i as int, bs@.len() as int),
                ),
            decreases bs@.len() - i,
        {
            let ghost rest = bs@.subrange(i as int, bs@.len() as int);
            assert(rest.drop_first() =~= bs@.subrange(i + 1, bs@.len() as int));
            self.mem.write_u8(a + i as u32, bs[i])?;
            i += 1;
        }
        assert(bs@.subrange(i as int, bs@.len() as int) =~= Seq::<u8>::empty());
        Ok(())
    }

    /// Answers a pending line request with the ZSCII bytes of `input`.
    pub fn resume_line(&mut self, input: &Vec<u8>) -> (r: Result<(), Error>)
        requires
            old(self).wf(),
        ensures
            final(self).wf(),
            outcome(
                r,
                final(self)@,
                match old(self)@.awaiting {
                    Some(Await::Line { text, parse }) => line_answer(old(self)@, text, parse, input@),
                    _ => Err(Error::UnexpectedInput),
                },
            ),
    {
        let (text, parse) = match self.awaiting {
            Some(Await::Line { text, parse }) => (text, parse),
            _ => {
                return Err(Error::UnexpectedInput);
            },
        };
        let ghost m = self@;
        self.awaiting = None;
        let cap = self.mem.read_u8(text as u32)?;
        let mut bytes: Vec<u8> = Vec::new();
        let mut i: usize = 0;
        let room: usize = if self.version >= 5 {
            cap as usize
        } else if cap == 0 {
            0
        } else {
            (cap - 1) as usize
        };
        let n: usize = if input.len() < room {
            input.len()
        } else {
            room
        };
        if self.version >= 5 {
            bytes.push(n as u8);
        }
        let ghost head = bytes@;
        while i < n
            invariant
                i <= n <= input@.len(),
                n <= 255,
                bytes@ =~= head + Seq::new(i as nat, |j: int| lower(input@[j])),
            decreases n - i,
        {
            let b = input[i];
            bytes.push(if 65 <= b && b <= 90 { b + 32 } else { b });
            i += 1;
        }
        if self.version < 5 {
            bytes.push(0);
        }
        assert(bytes@ =~= line_bytes(self.version, input@, cap));
        self.write_all(text as u32 + 1, &bytes)?;
        self.mem.write_u8(parse as u32 + 1, 0)?;
        if self.version >= 5 {
            self.store_result(13)
        } else {
            Ok(())
        }
    }
}

pub open spec fn emit_color(m: Vm, ops: Seq<u16>) -> Vm {
    emit(m, ScreenOpView::SetColor(ops[0], ops[1]))
}

pub open spec fn print_addr_spec(m: Vm, ops: Seq<u16>) -> Result<Vm, Error> {
    print_of(m, decode_string(m.mem, m.version, ops[0] as int))
}

pub open spec fn print_paddr_spec(m: Vm, ops: Seq<u16>) -> Result<Vm, Error> {
    print_of(m, decode_string(m.mem, m.version, unpack_string(m, ops[0])))
}

pub open spec fn branch_verify(m: Vm) -> Result<Vm, Error> {
    branch(m, checksum_ok(m))
}

pub open spec fn print_char_spec(m: Vm, ops: Seq<u16>) -> Vm {
    emit(m, ScreenOpView::PrintChar(zscii_char(ops[0])))
}

pub open spec fn print_num_spec(m: Vm, ops: Seq<u16>) -> Vm {
    emit(m, ScreenOpView::PrintNumber(signed16(ops[0]) as i16))
}

/// Split (0), select (1) or erase (2) a window.
pub open spec fn window_spec(m: Vm, ops: Seq<u16>, which: int) -> Vm {
    emit(
        m,
        if which == 0 {
            ScreenOpView::SplitWindow(ops[0])
        } else if which == 1 {
            ScreenOpView::SetWindow(ops[0])
        } else {
            ScreenOpView::EraseWindow(ops[0])
        },
    )
}

pub open spec fn cursor_spec(m: Vm, ops: Seq<u16>) -> Vm {
    emit(m, ScreenOpView::MoveCursor(ops[0], ops[1]))
}

/// What every instruction tells about itself.
pub trait Instruction {
    /// The mnemonic, such as `ADD`.
    fn name(&self) -> &'static str;

    /// What the instruction does, in one line.
    fn description(&self) -> &'static str;
}

impl Instruction for IllegalInstruction {
    fn name(&self) -> &'static str {
        "ILLEGAL"
    }

    fn description(&self) -> &'static str {
        "An illegal or unsupported opcode."
    }
}

impl Instruction for NopInstruction {
    fn name(&self) -> &'static str {
        "NOP"
    }

    fn description(&self) -> &'static str {
        "No operation."
    }
}

impl Instruction for Add {
    fn name(&self) -> &'static str {
        "ADD"
    }

    fn description(&self) -> &'static str {
        "Adds two signed 16-bit integers."
    }
}

impl Instruction for Sub {
    fn name(&self) -> &'static str {
        "SUB"
    }

    fn description(&self) -> &'static str {
        "Subtracts two signed 16-bit integers."
    }
}

impl Instruction for Mul {
    fn name(&self) -> &'static str {
        "MUL"
    }

    fn description(&self) -> &'static str {
        "Multiplies two signed 16-bit integers."
    }
}

impl Instruction for Div {
    fn name(&self) -> &'static str {
        "DIV"
    }

    fn description(&self) -> &'static str {
        "Divides two signed 16-bit integers."
    }
}

impl Instruction for Mod {
    fn name(&self) -> &'static str {
        "MOD"
    }

    fn description(&self) -> &'static str {
        "Remainder of division of two signed 16-bit integers."
    }
}

impl Instruction for Or {
    fn name(&self) -> &'static str {
        "OR"
    }

    fn description(&self) -> &'static str {
        "Bitwise OR."
    }
}

impl Instruction for And {
    fn name(&self) -> &'static str {
        "AND"
    }

    fn description(&self) -> &'static str {
        "Bitwise AND."
    }
}

impl Instruction for Not {
    fn name(&self) -> &'static str {
        "NOT"
    }

    fn description(&self) -> &'static str {
        "Bitwise NOT."
    }
}

impl Instruction for Store {
    fn name(&self) -> &'static str {
        "STORE"
    }

    fn description(&self) -> &'static str {
        "Stores the value in the given variable."
    }
}

impl Instruction for Load {
    fn name(&self) -> &'static str {
        "LOAD"
    }

    fn description(&self) -> &'static str {
        "Loads the value from the given variable and stores it in the result variable."
    }
}

impl Instruction for StoreW {
    fn name(&self) -> &'static str {
        "STOREW"
    }

    fn description(&self) -> &'static str {
        "Stores a 16-bit word at the given array address and index."
    }
}

impl Instruction for StoreB {
    fn name(&self) -> &'static str {
        "STOREB"
    }

    fn description(&self) -> &'static str {
        "Stores an 8-bit byte at the given array address and index."
    }
}

impl Instruction for LoadW {
    fn name(&self) -> &'static str {
        "LOADW"
    }

    fn description(&self) -> &'static str {
        "Loads a 16-bit word from the given array address and index."
    }
}

impl Instruction for LoadB {
    fn name(&self) -> &'static str {
        "LOADB"
    }

    fn description(&self) -> &'static str {
        "Loads an 8-bit byte from the given array address and index."
    }
}

impl Instruction for Push {
    fn name(&self) -> &'static str {
        "PUSH"
    }

    fn description(&self) -> &'static str {
        "Pushes a value onto the stack."
    }
}

impl Instruction for Pull {
    fn name(&self) -> &'static str {
        "PULL"
    }

    fn description(&self) -> &'static str {
        "Pulls a value from the stack and stores it in the given variable."
    }
}

impl Instruction for Inc {
    fn name(&self) -> &'static str {
        "INC"
    }

    fn description(&self) -> &'static str {
        "Increments the value in the given variable."
    }
}

impl Instruction for Dec {
    fn name(&self) -> &'static str {
        "DEC"
    }

    fn description(&self) -> &'static str {
        "Decrements the value in the given variable."
    }
}

impl Instruction for IncChk {
    fn name(&self) -> &'static str {
        "INC_CHK"
    }

    fn description(&self) -> &'static str {
        "Increments the variable and jumps if it is greater than the threshold."
    }
}

impl Instruction for DecChk {
    fn name(&self) -> &'static str {
        "DEC_CHK"
    }

    fn description(&self) -> &'static str {
        "Decrements the variable and jumps if it is less than the threshold."
    }
}

impl Instruction for SetAttr {
    fn name(&self) -> &'static str {
        "SET_ATTR"
    }

    fn description(&self) -> &'static str {
        "Sets the attribute of the object."
    }
}

impl Instruction for ClearAttr {
    fn name(&self) -> &'static str {
        "CLEAR_ATTR"
    }

    fn description(&self) -> &'static str {
        "Clears the attribute of the object."
    }
}

impl Instruction for TestAttr {
    fn name(&self) -> &'static str {
        "TEST_ATTR"
    }

    fn description(&self) -> &'static str {
        "Jumps if the object has the attribute set."
    }
}

impl Instruction for InsertObj {
    fn name(&self) -> &'static str {
        "INSERT_OBJ"
    }

    fn description(&self) -> &'static str {
        "Moves object to be the first child of the destination object."
    }
}

impl Instruction for RemoveObj {
    fn name(&self) -> &'static str {
        "REMOVE_OBJ"
    }

    fn description(&self) -> &'static str {
        "Detaches the object from its parent."
    }
}

impl Instruction for GetParent {
    fn name(&self) -> &'static str {
        "GET_PARENT"
    }

    fn description(&self) -> &'static str {
        "Stores the parent of the object."
    }
}

impl Instruction for GetChild {
    fn name(&self) -> &'static str {
        "GET_CHILD"
    }

    fn description(&self) -> &'static str {
        "Stores the first child of the object and jumps if it exists."
    }
}

impl Instruction for GetSibling {
    fn name(&self) -> &'static str {
        "GET_SIBLING"
    }

    fn description(&self) -> &'static str {
        "Stores the next sibling of the object and jumps if it exists."
    }
}

impl Instruction for GetProp {
    fn name(&self) -> &'static str {
        "GET_PROP"
    }

    fn description(&self) -> &'static str {
        "Stores the value of the property for the object."
    }
}

impl Instruction for GetPropAddr {
    fn name(&self) -> &'static str {
        "GET_PROP_ADDR"
    }

    fn description(&self) -> &'static str {
        "Stores the address of the property data for the object."
    }
}

impl Instruction for GetPropLen {
    fn name(&self) -> &'static str {
        "GET_PROP_LEN"
    }

    fn description(&self) -> &'static str {
        "Stores the length of the property data at the given address."
    }
}

impl Instruction for GetNextProp {
    fn name(&self) -> &'static str {
        "GET_NEXT_PROP"
    }

    fn description(&self) -> &'static str {
        "Stores the next property ID of the object."
    }
}

impl Instruction for PutProp {
    fn name(&self) -> &'static str {
        "PUT_PROP"
    }

    fn description(&self) -> &'static str {
        "Sets the value of the property for the object."
    }
}

impl Instruction for Call {
    fn name(&self) -> &'static str {
        "CALL"
    }

    fn description(&self) -> &'static str {
        "Calls a routine."
    }
}

impl Instruction for Ret {
    fn name(&self) -> &'static str {
        "RET"
    }

    fn description(&self) -> &'static str {
        "Returns from a routine with the given value."
    }
}

impl Instruction for RTrue {
    fn name(&self) -> &'static str {
        "RTRUE"
    }

    fn description(&self) -> &'static str {
        "Returns true (1) from a routine."
    }
}

impl Instruction for RFalse {
    fn name(&self) -> &'static str {
        "RFALSE"
    }

    fn description(&self) -> &'static str {
        "Returns false (0) from a routine."
    }
}

impl Instruction for RetPopped {
    fn name(&self) -> &'static str {
        "RET_POPPED"
    }

    fn description(&self) -> &'static str {
        "Pops a value from the stack and returns it."
    }
}

impl Instruction for Restart {
    fn name(&self) -> &'static str {
        "RESTART"
    }

    fn description(&self) -> &'static str {
        "Restarts the game."
    }
}

impl Instruction for Quit {
    fn name(&self) -> &'static str {
        "QUIT"
    }

    fn description(&self) -> &'static str {
        "Terminates the game."
    }
}

impl Instruction for Print {
    fn name(&self) -> &'static str {
        "PRINT"
    }

    fn description(&self) -> &'static str {
        "Prints a literal string from the instruction stream."
    }
}

impl Instruction for PrintRet {
    fn name(&self) -> &'static str {
        "PRINT_RET"
    }

    fn description(&self) -> &'static str {
        "Prints a literal string, a newline, and returns true."
    }
}

impl Instruction for PrintAddr {
    fn name(&self) -> &'static str {
        "PRINT_ADDR"
    }

    fn description(&self) -> &'static str {
        "Prints a string from the given byte address."
    }
}

impl Instruction for PrintPAddr {
    fn name(&self) -> &'static str {
        "PRINT_PADDR"
    }

    fn description(&self) -> &'static str {
        "Prints a string from the given packed address."
    }
}

impl Instruction for PrintObj {
    fn name(&self) -> &'static str {
        "PRINT_OBJ"
    }

    fn description(&self) -> &'static str {
        "Prints the name of the given object."
    }
}

impl Instruction for PrintChar {
    fn name(&self) -> &'static str {
        "PRINT_CHAR"
    }

    fn description(&self) -> &'static str {
        "Prints a single ZSCII character."
    }
}

impl Instruction for PrintNum {
    fn name(&self) -> &'static str {
        "PRINT_NUM"
    }

    fn description(&self) -> &'static str {
        "Prints a signed 16-bit integer."
    }
}

impl Instruction for NewLine {
    fn name(&self) -> &'static str {
        "NEW_LINE"
    }

    fn description(&self) -> &'static str {
        "Prints a newline."
    }
}

impl Instruction for Sread {
    fn name(&self) -> &'static str {
        "SREAD"
    }

    fn description(&self) -> &'static str {
        "Reads a line of input into the text buffer."
    }
}

impl Instruction for ReadChar {
    fn name(&self) -> &'static str {
        "READ_CHAR"
    }

    fn description(&self) -> &'static str {
        "Reads a single character from the input."
    }
}

impl Instruction for SplitWindow {
    fn name(&self) -> &'static str {
        "SPLIT_WINDOW"
    }

    fn description(&self) -> &'static str {
        "Splits the screen into two windows."
    }
}

impl Instruction for SetWindow {
    fn name(&self) -> &'static str {
        "SET_WINDOW"
    }

    fn description(&self) -> &'static str {
        "Sets the current window for output."
    }
}

impl Instruction for EraseWindow {
    fn name(&self) -> &'static str {
        "ERASE_WINDOW"
    }

    fn description(&self) -> &'static str {
        "Erases the specified window."
    }
}

impl Instruction for MoveCursor {
    fn name(&self) -> &'static str {
        "MOVE_CURSOR"
    }

    fn description(&self) -> &'static str {
        "Moves the cursor to the specified position."
    }
}

impl Instruction for SetColor {
    fn name(&self) -> &'static str {
        "SET_COLOR"
    }

    fn description(&self) -> &'static str {
        "Sets the foreground and background colors."
    }
}

impl Instruction for Random {
    fn name(&self) -> &'static str {
        "RANDOM"
    }

    fn description(&self) -> &'static str {
        "Generates a random number, or re-seeds the generator."
    }
}

impl Instruction for Save {
    fn name(&self) -> &'static str {
        "SAVE"
    }

    fn description(&self) -> &'static str {
        "Saves the game state; not offered here, so it reports failure."
    }
}

impl Instruction for Restore {
    fn name(&self) -> &'static str {
        "RESTORE"
    }

    fn description(&self) -> &'static str {
        "Restores the game state; not offered here, so it reports failure."
    }
}

impl Instruction for Verify {
    fn name(&self) -> &'static str {
        "VERIFY"
    }

    fn description(&self) -> &'static str {
        "Verifies the story file integrity."
    }
}

impl Instruction for ShowStatus {
    fn name(&self) -> &'static str {
        "SHOW_STATUS"
    }

    fn description(&self) -> &'static str {
        "Updates the status line (V3 only)."
    }
}

impl Instruction for Je {
    fn name(&self) -> &'static str {
        "JE"
    }

    fn description(&self) -> &'static str {
        "Jumps if the first operand is equal to any of the subsequent operands."
    }
}

impl Instruction for Jz {
    fn name(&self) -> &'static str {
        "JZ"
    }

    fn description(&self) -> &'static str {
        "Jumps if the operand is zero."
    }
}

impl Instruction for Jl {
    fn name(&self) -> &'static str {
        "JL"
    }

    fn description(&self) -> &'static str {
        "Jumps if the first operand is less than the second (signed)."
    }
}

impl Instruction for Jg {
    fn name(&self) -> &'static str {
        "JG"
    }

    fn description(&self) -> &'static str {
        "Jumps if the first operand is greater than the second (signed)."
    }
}

impl Instruction for Jump {
    fn name(&self) -> &'static str {
        "JUMP"
    }

    fn description(&self) -> &'static str {
        "Unconditional jump to the given label (offset)."
    }
}

impl Instruction for Test {
    fn name(&self) -> &'static str {
        "TEST"
    }

    fn description(&self) -> &'static str {
        "Jumps if all flags in the second operand are set in the first operand."
    }
}

impl Instruction for Jin {
    fn name(&self) -> &'static str {
        "JIN"
    }

    fn description(&self) -> &'static str {
        "Jumps if object a is inside object b (i.e. parent(a) == b)."
    }
}

} // verus!
