use vstd::prelude::*;
use crate::error::Error;
use crate::instruction::{
    branch_verify, cursor_spec, emit_color, print_addr_spec, print_char_spec, print_num_spec,
    print_paddr_spec, restarted, spec_add, spec_and, spec_call, spec_call_discard, spec_clear_attr, spec_dec,
    spec_dec_chk, spec_div, spec_get_child, spec_get_next_prop, spec_get_parent, spec_get_prop,
    spec_get_prop_addr, spec_get_prop_len, spec_get_sibling, spec_inc, spec_inc_chk,
    spec_insert_obj, spec_je, spec_jg, spec_jin, spec_jl, spec_jump, spec_jz, spec_load,
    spec_loadb, spec_loadw, spec_mod, spec_mul, spec_not, spec_or, spec_print, spec_print_obj,
    spec_print_ret, spec_pull, spec_push, spec_put_prop, spec_random, spec_read_char,
    spec_remove_obj, spec_ret_popped, spec_save_fails, spec_set_attr, spec_show_status,
    spec_sread, spec_store, spec_storeb, spec_storew, spec_sub, spec_test, spec_test_attr,
    window_spec, Add, And, Call, ClearAttr, Dec, DecChk, Div, EraseWindow, GetChild, GetNextProp,
    GetParent, GetProp, GetPropAddr, GetPropLen, GetSibling, Inc, IncChk, InsertObj, Je, Jg, Jin,
    Jl, Jump, Jz, Load, LoadB, LoadW, Mod, MoveCursor, Mul, NewLine, NopInstruction, Not, Or,
    Print, PrintAddr, PrintChar, PrintNum, PrintObj, PrintPAddr, PrintRet, Pull, Push, PutProp,
    Quit, RFalse, RTrue, Random, ReadChar, RemoveObj, Restart, Restore, Ret, RetPopped, Save,
    SetAttr, SetColor, SetWindow, ShowStatus, SplitWindow, Sread, Store, StoreB, StoreW, Sub,
    Test, TestAttr, Verify,
};
use crate::state::{fetch_byte, fetch_word, load, outcome, ret, State, Vm};

verus! {

/// Instruction forms, by operand count.
pub const TWO_OP: u8 = 0;
pub const ONE_OP: u8 = 1;
pub const ZERO_OP: u8 = 2;
pub const VAR_OP: u8 = 3;
pub const EXT_OP: u8 = 4;

/// Operand types: large constant, small constant, variable, omitted.
pub const LARGE: u8 = 0;
pub const SMALL: u8 = 1;
pub const VARIABLE: u8 = 2;
pub const OMITTED: u8 = 3;

/// One operand of type `t`: a word, a byte, or a variable to read.
pub open spec fn operand(m: Vm, t: u8) -> Result<(Vm, u16), Error> {
    if t == LARGE {
        fetch_word(m)
    } else if t == SMALL {
        match fetch_byte(m) {
            Ok((m1, b)) => Ok((m1, b as u16)),
            Err(e) => Err(e),
        }
    } else {
        match fetch_byte(m) {
            Ok((m1, id)) => load(m1, id),
            Err(e) => Err(e),
        }
    }
}

/// Field `k` (0..3, from the top) of a types byte.
pub open spec fn type_field(types: u8, k: int) -> u8 {
    if k == 0 {
        types / 64
    } else if k == 1 {
        (types / 16) % 4
    } else if k == 2 {
        (types / 4) % 4
    } else {
        types % 4
    }
}

/// The operands that a types byte announces, from field `k` on, up to the
/// first omitted one.
pub open spec fn var_operands(m: Vm, types: u8, k: int) -> Result<(Vm, Seq<u16>), Error>
    decreases 4 - k,
{
    if k >= 4 || type_field(types, k) == OMITTED {
        Ok((m, Seq::empty()))
    } else {
        match operand(m, type_field(types, k)) {
            Err(e) => Err(e),
            Ok((m1, v)) => match var_operands(m1, types, k + 1) {
                Ok((m2, vs)) => Ok((m2, seq![v] + vs)),
                Err(e) => Err(e),
            },
        }
    }
}

/// A decoded instruction: its first byte, form, opcode number and operands.
pub ghost struct Decoded {
    pub opcode: u8,
    pub form: u8,
    pub number: u8,
    pub operands: Seq<u16>,
}

pub open spec fn with_ops(m: Vm, r: Result<(Vm, Seq<u16>), Error>, d: Decoded) -> Result<(Vm, Decoded), Error> {
    match r {
        Ok((m1, ops)) => Ok((m1, Decoded { operands: ops, ..d })),
        Err(e) => Err(e),
    }
}

/// Reading one instruction at the program counter. Top bits `00`/`01`: long
/// form, two operands typed by bits 6 and 5. `10`: short form, one operand
/// typed by bits 5-4, none when they are `11`; 0xBE from V5 opens an extended
/// instruction. `11`: variable form, a types byte follows.
pub open spec fn decode(m: Vm) -> Result<(Vm, Decoded), Error> {
    match fetch_byte(m) {
        Err(e) => Err(e),
        Ok((m1, b)) => {
            let d = Decoded { opcode: b, form: TWO_OP, number: b % 32, operands: Seq::empty() };
            if b < 0x80 {
                let t1 = if (b / 64) % 2 == 1 { VARIABLE } else { SMALL };
                let t2 = if (b / 32) % 2 == 1 { VARIABLE } else { SMALL };
                match operand(m1, t1) {
                    Err(e) => Err(e),
                    Ok((m2, x)) => match operand(m2, t2) {
                        Err(e) => Err(e),
                        Ok((m3, y)) => Ok((m3, Decoded { operands: seq![x, y], ..d })),
                    },
                }
            } else if b == 0xBE && m.version >= 5 {
                match fetch_byte(m1) {
                    Err(e) => Err(e),
                    Ok((m2, n)) => match fetch_byte(m2) {
                        Err(e) => Err(e),
                        Ok((m3, types)) => with_ops(
                            m3,
                            var_operands(m3, types, 0),
                            Decoded { form: EXT_OP, number: n, ..d },
                        ),
                    },
                }
            } else if b < 0xC0 {
                let t = (b / 16) % 4;
                if t == OMITTED {
                    Ok((m1, Decoded { form: ZERO_OP, number: b % 16, ..d }))
                } else {
                    match operand(m1, t) {
                        Err(e) => Err(e),
                        Ok((m2, x)) => Ok(
                            (m2, Decoded { form: ONE_OP, number: b % 16, operands: seq![x], ..d }),
                        ),
                    }
                }
            } else {
                match fetch_byte(m1) {
                    Err(e) => Err(e),
                    Ok((m2, types)) => with_ops(
                        m2,
                        var_operands(m2, types, 0),
                        Decoded { form: if b < 0xE0 { TWO_OP } else { VAR_OP }, ..d },
                    ),
                }
            }
        },
    }
}

/// How many operands an opcode needs at least; `None` for opcodes that this
/// machine does not know.
pub open spec fn arity(version: u8, form: u8, n: u8) -> Option<int> {
    if form == TWO_OP {
        if 1 <= n <= 27 {
            Some(if n == 25 || n == 26 { 1 } else { 2 })
        } else {
            None
        }
    } else if form == ONE_OP {
        if n <= 15 {
            Some(1)
        } else {
            None
        }
    } else if form == ZERO_OP {
        if n <= 8 || (10 <= n <= 13) {
            Some(0)
        } else {
            None
        }
    } else if form == VAR_OP {
        if n == 0 || n == 8 || n == 9 || n == 5 || n == 6 || n == 7 || n == 10 || n == 11 || n == 13
            || n == 24 || n == 25 {
            Some(1)
        } else if n == 4 || n == 15 {
            Some(2)
        } else if n == 1 || n == 2 || n == 3 {
            Some(3)
        } else if n == 22 {
            Some(0)
        } else {
            None
        }
    } else {
        None
    }
}

/// What an instruction does, by form and opcode number.
pub open spec fn dispatch(m: Vm, d: Decoded) -> Result<Vm, Error> {
    let ops = d.operands;
    let n = d.number;
    match arity(m.version, d.form, n) {
        None => Err(Error::IllegalOpcode(d.opcode)),
        Some(k) => if ops.len() < k {
            Err(Error::IllegalOpcode(d.opcode))
        } else if d.form == TWO_OP {
            if n == 1 { spec_je(m, ops) }
            else if n == 2 { spec_jl(m, ops) }
            else if n == 3 { spec_jg(m, ops) }
            else if n == 4 { spec_dec_chk(m, ops) }
            else if n == 5 { spec_inc_chk(m, ops) }
            else if n == 6 { spec_jin(m, ops) }
            else if n == 7 { spec_test(m, ops) }
            else if n == 8 { spec_or(m, ops) }
            else if n == 9 { spec_and(m, ops) }
            else if n == 10 { spec_test_attr(m, ops) }
            else if n == 11 { spec_set_attr(m, ops) }
            else if n == 12 { spec_clear_attr(m, ops) }
            else if n == 13 { spec_store(m, ops) }
            else if n == 14 { spec_insert_obj(m, ops) }
            else if n == 15 { spec_loadw(m, ops) }
            else if n == 16 { spec_loadb(m, ops) }
            else if n == 17 { spec_get_prop(m, ops) }
            else if n == 18 { spec_get_prop_addr(m, ops) }
            else if n == 19 { spec_get_next_prop(m, ops) }
            else if n == 20 { spec_add(m, ops) }
            else if n == 21 { spec_sub(m, ops) }
            else if n == 22 { spec_mul(m, ops) }
            else if n == 23 { spec_div(m, ops) }
            else if n == 24 { spec_mod(m, ops) }
            else if n == 25 { spec_call(m, ops) }
            else if n == 26 { spec_call_discard(m, ops) }
            else { Ok(emit_color(m, ops)) }
        } else if d.form == ONE_OP {
            if n == 0 { spec_jz(m, ops) }
            else if n == 1 { spec_get_sibling(m, ops) }
            else if n == 2 { spec_get_child(m, ops) }
            else if n == 3 { spec_get_parent(m, ops) }
            else if n == 4 { spec_get_prop_len(m, ops) }
            else if n == 5 { spec_inc(m, ops) }
            else if n == 6 { spec_dec(m, ops) }
            else if n == 7 { print_addr_spec(m, ops) }
            else if n == 8 { spec_call(m, ops) }
            else if n == 9 { spec_remove_obj(m, ops) }
            else if n == 10 { spec_print_obj(m, ops) }
            else if n == 11 { ret(m, ops[0]) }
            else if n == 12 { spec_jump(m, ops) }
            else if n == 13 { print_paddr_spec(m, ops) }
            else if n == 14 { spec_load(m, ops) }
            else if m.version >= 5 { spec_call_discard(m, ops) }
            else { spec_not(m, ops) }
        } else if d.form == ZERO_OP {
            if n == 0 { ret(m, 1) }
            else if n == 1 { ret(m, 0) }
            else if n == 2 { spec_print(m) }
            else if n == 3 { spec_print_ret(m) }
            else if n == 4 { Ok(m) }
            else if n == 5 || n == 6 { spec_save_fails(m) }
            else if n == 7 { Ok(restarted(m)) }
            else if n == 8 { spec_ret_popped(m) }
            else if n == 10 { Ok(Vm { running: false, ..m }) }
            else if n == 11 { Ok(crate::state::emit(m, crate::state::ScreenOpView::NewLine)) }
            else if n == 12 { spec_show_status(m) }
            else { branch_verify(m) }
        } else {
            if n == 0 { spec_call(m, ops) }
            else if n == 1 { spec_storew(m, ops) }
            else if n == 2 { spec_storeb(m, ops) }
            else if n == 3 { spec_put_prop(m, ops) }
            else if n == 4 { spec_sread(m, ops) }
            else if n == 5 { Ok(print_char_spec(m, ops)) }
            else if n == 6 { Ok(print_num_spec(m, ops)) }
            else if n == 7 { spec_random(m, ops) }
            else if n == 8 { spec_push(m, ops) }
            else if n == 9 { spec_pull(m, ops) }
            else if n == 10 { Ok(window_spec(m, ops, 0)) }
            else if n == 11 { Ok(window_spec(m, ops, 1)) }
            else if n == 13 { Ok(window_spec(m, ops, 2)) }
            else if n == 15 { Ok(cursor_spec(m, ops)) }
            else if n == 24 { spec_not(m, ops) }
            else if n == 25 { spec_call_discard(m, ops) }
            else { spec_read_char(m) }
        },
    }
}

/// One tick: decode the instruction at the program counter and carry it out.
pub open spec fn tick(m: Vm) -> Result<Vm, Error> {
    match decode(m) {
        Ok((m1, d)) => dispatch(m1, d),
        Err(e) => Err(e),
    }
}

/// One step of a machine that is running and not waiting for input.
pub open spec fn step(m: Vm) -> Result<Vm, Error> {
    if !m.running || m.awaiting is Some {
        Ok(m)
    } else {
        tick(m)
    }
}

/// Running at most `fuel` ticks, stopping early once the machine stops or
/// waits for input; the first failing tick ends the run with its error.
pub open spec fn run(m: Vm, fuel: nat) -> Result<Vm, Error>
    decreases fuel,
{
    if fuel == 0 || !m.running || m.awaiting is Some {
        Ok(m)
    } else {
        match tick(m) {
            Ok(m1) => run(m1, (fuel - 1) as nat),
            Err(e) => Err(e),
        }
    }
}

pub open spec fn join(p: Seq<u16>, r: Result<(Vm, Seq<u16>), Error>) -> Result<(Vm, Seq<u16>), Error> {
    match r {
        Ok((m, vs)) => Ok((m, p + vs)),
        Err(e) => Err(e),
    }
}

fn type_field_of(types: u8, k: usize) -> (r: u8)
    requires
        k < 4,
    ensures
        r == type_field(types, k as int),
        r < 4,
{
    if k == 0 {
        types / 64
    } else if k == 1 {
        (types / 16) % 4
    } else if k == 2 {
        (types / 4) % 4
    } else {
        types % 4
    }
}

fn arity_of(version: u8, form: u8, n: u8) -> (r: Option<usize>)
    ensures
        match arity(version, form, n) {
            Some(k) => r == Some(k as usize),
            None => r is None,
        },
{
    if form == TWO_OP {
        if 1 <= n && n <= 27 {
            Some(if n == 25 || n == 26 { 1 } else { 2 })
        } else {
            None
        }
    } else if form == ONE_OP {
        if n <= 15 {
            Some(1)
        } else {
            None
        }
    } else if form == ZERO_OP {
        if n <= 8 || (10 <= n && n <= 13) {
            Some(0)
        } else {
            None
        }
    } else if form == VAR_OP {
        if n == 0 || n == 8 || n == 9 || n == 5 || n == 6 || n == 7 || n == 10 || n == 11 || n == 13
            || n == 24 || n == 25 {
            Some(1)
        } else if n == 4 || n == 15 {
            Some(2)
        } else if n == 1 || n == 2 || n == 3 {
            Some(3)
        } else if n == 22 {
            Some(0)
        } else {
            None
        }
    } else {
        None
    }
}

impl State {
    fn operand(&mut self, t: u8) -> (r: Result<u16, Error>)
        requires
            old(self).wf(),
        ensures
            final(self).wf(),
            match operand(old(self)@, t) {
                Ok((m, v)) => r == Ok::<u16, Error>(v) && final(self)@ == m,
                Err(e) => r == Err::<u16, Error>(e),
            },
    {
        if t == LARGE {
            self.next_u16()
        } else if t == SMALL {
            let b = self.next_u8()?;
            Ok(b as u16)
        } else {
            let id = self.next_u8()?;
            self.read_variable(id)
        }
    }

    fn var_operands(&mut self, types: u8) -> (r: Result<Vec<u16>, Error>)
        requires
            old(self).wf(),
        ensures
            final(self).wf(),
            match var_operands(old(self)@, types, 0) {
                Ok((m, vs)) => r matches Ok(v) && v@ == vs && final(self)@ == m,
                Err(e) => r matches Err(e2) && e2 == e,
            },
    {
        let mut out: Vec<u16> = Vec::new();
        let mut k: usize = 0;
        assert(Seq::<u16>::empty() + Seq::<u16>::empty() =~= Seq::<u16>::empty());
        loop
            invariant
                self.wf(),
                k <= 4,
                out@.len() == k,
                var_operands(old(self)@, types, 0) == join(out@, var_operands(self@, types, k as int)),
            ensures
                self.wf(),
                var_operands(old(self)@, types, 0) == Ok::<(Vm, Seq<u16>), Error>((self@, out@)),
            decreases 4 - k,
        {
            if k >= 4 {
                assert(out@ + Seq::<u16>::empty() =~= out@);
                break;
            }
            let t = type_field_of(types, k);
            if t == OMITTED {
                assert(out@ + Seq::<u16>::empty() =~= out@);
                break;
            }
            let ghost before = out@;
            let v = self.operand(t)?;
            out.push(v);
            proof {
                match var_operands(self@, types, k + 1) {
                    Ok((m2, vs)) => {
                        assert(before + (seq![v] + vs) =~= out@ + vs);
                    },
                    Err(_) => {},
                }
            }
            k += 1;
        }
        Ok(out)
    }

    /// Reads the instruction at the program counter: its first byte, form,
    /// opcode number and operands.
    pub fn decode(&mut self) -> (r: Result<(u8, u8, u8, Vec<u16>), Error>)
        requires
            old(self).wf(),
        ensures
            final(self).wf(),
            match decode(old(self)@) {
                Ok((m, d)) => r matches Ok((op, f, n, v)) && op == d.opcode && f == d.form && n
                    == d.number && v@ == d.operands && final(self)@ == m,
                Err(e) => r matches Err(e2) && e2 == e,
            },
    {
        let b = self.next_u8()?;
        if b < 0x80 {
            let t1 = if (b / 64) % 2 == 1 { VARIABLE } else { SMALL };
            let t2 = if (b / 32) % 2 == 1 { VARIABLE } else { SMALL };
            let x = self.operand(t1)?;
            let y = self.operand(t2)?;
            let v = vec![x, y];
            assert(v@ =~= seq![x, y]);
            Ok((b, TWO_OP, b % 32, v))
        } else if b == 0xBE && self.version >= 5 {
            let n = self.next_u8()?;
            let types = self.next_u8()?;
            let v = self.var_operands(types)?;
            Ok((b, EXT_OP, n, v))
        } else if b < 0xC0 {
            let t = (b / 16) % 4;
            if t == OMITTED {
                Ok((b, ZERO_OP, b % 16, Vec::new()))
            } else {
                let x = self.operand(t)?;
                let v = vec![x];
                assert(v@ =~= seq![x]);
                Ok((b, ONE_OP, b % 16, v))
            }
        } else {
            let types = self.next_u8()?;
            let v = self.var_operands(types)?;
            Ok((b, if b < 0xE0 { TWO_OP } else { VAR_OP }, b % 32, v))
        }
    }

    /// Carries out a decoded instruction.
    #[verifier::rlimit(100)]
    pub fn dispatch(&mut self, opcode: u8, form: u8, n: u8, ops: Vec<u16>) -> (r: Result<(), Error>)
        requires
            old(self).wf(),
        ensures
            final(self).wf(),
            outcome(
                r,
                final(self)@,
                dispatch(old(self)@, Decoded { opcode, form, number: n, operands: ops@ }),
            ),
    {
        let k = match arity_of(self.version, form, n) {
            None => {
                return Err(Error::IllegalOpcode(opcode));
            },
            Some(k) => k,
        };
        if ops.len() < k {
            return Err(Error::IllegalOpcode(opcode));
        }
        if form == TWO_OP {
            if n == 1 { Je.execute(self, ops) }
            else if n == 2 { Jl.execute(self, ops) }
            else if n == 3 { Jg.execute(self, ops) }
            else if n == 4 { DecChk.execute(self, ops) }
            else if n == 5 { IncChk.execute(self, ops) }
            else if n == 6 { Jin.execute(self, ops) }
            else if n == 7 { Test.execute(self, ops) }
            else if n == 8 { Or.execute(self, ops) }
            else if n == 9 { And.execute(self, ops) }
            else if n == 10 { TestAttr.execute(self, ops) }
            else if n == 11 { SetAttr.execute(self, ops) }
            else if n == 12 { ClearAttr.execute(self, ops) }
            else if n == 13 { Store.execute(self, ops) }
            else if n == 14 { InsertObj.execute(self, ops) }
            else if n == 15 { LoadW.execute(self, ops) }
            else if n == 16 { LoadB.execute(self, ops) }
            else if n == 17 { GetProp.execute(self, ops) }
            else if n == 18 { GetPropAddr.execute(self, ops) }
            else if n == 19 { GetNextProp.execute(self, ops) }
            else if n == 20 { Add.execute(self, ops) }
            else if n == 21 { Sub.execute(self, ops) }
            else if n == 22 { Mul.execute(self, ops) }
            else if n == 23 { Div.execute(self, ops) }
            else if n == 24 { Mod.execute(self, ops) }
            else if n == 25 { Call.execute(self, ops) }
            else if n == 26 { Call.execute_discarding(self, ops) }
            else { SetColor.execute(self, ops) }
        } else if form == ONE_OP {
            if n == 0 { Jz.execute(self, ops) }
            else if n == 1 { GetSibling.execute(self, ops) }
            else if n == 2 { GetChild.execute(self, ops) }
            else if n == 3 { GetParent.execute(self, ops) }
            else if n == 4 { GetPropLen.execute(self, ops) }
            else if n == 5 { Inc.execute(self, ops) }
            else if n == 6 { Dec.execute(self, ops) }
            else if n == 7 { PrintAddr.execute(self, ops) }
            else if n == 8 { Call.execute(self, ops) }
            else if n == 9 { RemoveObj.execute(self, ops) }
            else if n == 10 { PrintObj.execute(self, ops) }
            else if n == 11 { Ret.execute(self, ops) }
            else if n == 12 { Jump.execute(self, ops) }
            else if n == 13 { PrintPAddr.execute(self, ops) }
            else if n == 14 { Load.execute(self, ops) }
            else if self.version >= 5 { Call.execute_discarding(self, ops) }
            else { Not.execute(self, ops) }
        } else if form == ZERO_OP {
            if n == 0 { RTrue.execute(self, ops) }
            else if n == 1 { RFalse.execute(self, ops) }
            else if n == 2 { Print.execute(self, ops) }
            else if n == 3 { PrintRet.execute(self, ops) }
            else if n == 4 { NopInstruction.execute(self, ops) }
            else if n == 5 { Save.execute(self, ops) }
            else if n == 6 { Restore.execute(self, ops) }
            else if n == 7 { Restart.execute(self, ops) }
            else if n == 8 { RetPopped.execute(self, ops) }
            else if n == 10 { Quit.execute(self, ops) }
            else if n == 11 { NewLine.execute(self, ops) }
            else if n == 12 { ShowStatus.execute(self, ops) }
            else { Verify.execute(self, ops) }
        } else {
            if n == 0 { Call.execute(self, ops) }
            else if n == 1 { StoreW.execute(self, ops) }
            else if n == 2 { StoreB.execute(self, ops) }
            else if n == 3 { PutProp.execute(self, ops) }
            else if n == 4 { Sread.execute(self, ops) }
            else if n == 5 { PrintChar.execute(self, ops) }
            else if n == 6 { PrintNum.execute(self, ops) }
            else if n == 7 { Random.execute(self, ops) }
            else if n == 8 { Push.execute(self, ops) }
            else if n == 9 { Pull.execute(self, ops) }
            else if n == 10 { SplitWindow.execute(self, ops) }
            else if n == 11 { SetWindow.execute(self, ops) }
            else if n == 13 { EraseWindow.execute(self, ops) }
            else if n == 15 { MoveCursor.execute(self, ops) }
            else if n == 24 { Not.execute(self, ops) }
            else if n == 25 { Call.execute_discarding(self, ops) }
            else { ReadChar.execute(self, ops) }
        }
    }

    /// One fetch-decode-execute tick; nothing happens while the machine is
    /// stopped or waits for input.
    pub fn execute_instruction(&mut self) -> (r: Result<(), Error>)
        requires
            old(self).wf(),
        ensures
            final(self).wf(),
            outcome(r, final(self)@, step(old(self)@)),
    {
        if !self.running || self.awaiting.is_some() {
            return Ok(());
        }
        let (opcode, form, n, ops) = self.decode()?;
        self.dispatch(opcode, form, n, ops)
    }

    /// Runs up to `max_ticks` ticks, until the machine stops or waits for
    /// input.
    pub fn run(&mut self, max_ticks: u64) -> (r: Result<(), Error>)
        requires
            old(self).wf(),
        ensures
            final(self).wf(),
            outcome(r, final(self)@, run(old(self)@, max_ticks as nat)),
    {
        let mut left = max_ticks;
        while left > 0 && self.running && self.awaiting.is_none()
            invariant
                self.wf(),
                run(old(self)@, max_ticks as nat) == run(self@, left as nat),
            decreases left,
        {
            self.execute_instruction()?;
            left = left - 1;
        }
        Ok(())
    }
}

} // verus!
