use zmachine::error::Error;
use zmachine::instruction::{
    Add, And, Call, ClearAttr, Dec, DecChk, Div, GetChild, GetParent, GetSibling, Inc, IncChk,
    InsertObj, Je, Jg, Jin, Jl, Jump, Jz, Load, LoadB, LoadW, Mod, Mul, NewLine, Not, Or, Print,
    PrintNum, Pull, Push, Quit, Random, RemoveObj, Ret, SetAttr, SplitWindow, Store, StoreB,
    StoreW, Sub, Test, TestAttr, Verify,
};
use zmachine::state::{Await, ScreenOp, State};

/// Global variable 0x10 is the first global: it lives at the globals base.
const G10: u32 = 0x200;

fn create_test_state() -> State {
    let mut data = vec![0u8; 4096];

    // Initial PC = 0x100
    data[0x06] = 0x01;
    data[0x07] = 0x00;

    // Global variables at 0x200
    data[0x0C] = 0x02;
    data[0x0D] = 0x00;

    // Static memory starts past the whole image, so all of it is writable.
    data[0x0E] = 0x10;
    data[0x0F] = 0x00;

    State::new(&data)
}

/// The text that the machine handed to the screen so far.
fn printed(state: &mut State) -> String {
    let mut out = String::new();
    for op in state.take_output() {
        match op {
            ScreenOp::Print(t) => out.extend(t.iter()),
            ScreenOp::NewLine => out.push('\n'),
            ScreenOp::PrintChar(c) => out.push(c),
            ScreenOp::PrintNumber(n) => out.push_str(&n.to_string()),
            _ => {}
        }
    }
    out
}

fn set_byte(state: &mut State, addr: u32, v: u8) {
    state.mem.write_u8(addr, v).unwrap();
}

#[test]
fn test_print() {
    let mut state = create_test_state();

    // "hello" in Z-chars
    set_byte(&mut state, 0x100, 0x35);
    set_byte(&mut state, 0x101, 0x51);
    set_byte(&mut state, 0x102, 0xC6);
    set_byte(&mut state, 0x103, 0x85);

    let instr = Print;
    instr.execute(&mut state, vec![]).unwrap();

    assert_eq!(state.frame.pc, 0x104);
    assert_eq!(printed(&mut state), "hello");
}

#[test]
fn test_split_window() {
    let mut state = create_test_state();
    let instr = SplitWindow;
    instr.execute(&mut state, vec![10]).unwrap();
}

#[test]
fn test_verify() {
    let mut state = create_test_state();
    let pc = state.frame.pc as usize;
    set_byte(&mut state, pc as u32, 0xCA); // Branch true +10

    let instr = Verify;
    instr.execute(&mut state, vec![]).unwrap();
    // An empty checksummed range matches a zero checksum: the branch is taken.
    assert_eq!(state.frame.pc as usize, pc + 1 + 10 - 2);
}

#[test]
fn test_random() {
    let mut state = create_test_state();
    let pc = state.frame.pc as usize;
    set_byte(&mut state, pc as u32, 0x10);

    let instr = Random;
    instr.execute(&mut state, vec![10]).unwrap();
    assert_eq!(state.awaiting, Some(Await::Random { limit: 10, store: 0x10 }));

    // The host's generator answers 0.
    state.resume_random(0).unwrap();
    let result = state.mem.read_u16(G10).unwrap();
    assert_eq!(result, 0);
}

#[test]
fn test_print_num() {
    let mut state = create_test_state();
    let instr = PrintNum;
    instr.execute(&mut state, vec![1234]).unwrap();
    assert_eq!(printed(&mut state), "1234");
}

#[test]
fn test_new_line() {
    let mut state = create_test_state();
    let instr = NewLine;
    instr.execute(&mut state, vec![]).unwrap();
    assert_eq!(printed(&mut state), "\n");
}

#[test]
fn test_add() {
    let mut state = create_test_state();
    let op1 = 10;
    let op2 = 20;

    let pc = state.frame.pc as usize;
    set_byte(&mut state, pc as u32, 0x10); // Store to global 0x10

    let instr = Add;
    instr.execute(&mut state, vec![op1, op2]).unwrap();

    let result = state.mem.read_u16(G10).unwrap();
    assert_eq!(result, 30);
    assert_eq!(state.frame.pc as usize, pc + 1);
}

#[test]
fn test_add_overflow() {
    let mut state = create_test_state();
    let op1 = 32767;
    let op2 = 1;

    let pc = state.frame.pc as usize;
    set_byte(&mut state, pc as u32, 0x10);

    let instr = Add;
    instr.execute(&mut state, vec![op1, op2]).unwrap();

    let result = state.mem.read_u16(G10).unwrap();
    assert_eq!(result as i16, -32768);
    assert_eq!(result, 0x8000);
}

#[test]
fn test_sub() {
    let mut state = create_test_state();
    let pc = state.frame.pc as usize;
    set_byte(&mut state, pc as u32, 0x10);

    let instr = Sub;
    instr.execute(&mut state, vec![20, 5]).unwrap();

    assert_eq!(state.mem.read_u16(G10).unwrap(), 15);
}

#[test]
fn test_mul() {
    let mut state = create_test_state();
    let pc = state.frame.pc as usize;
    set_byte(&mut state, pc as u32, 0x10);

    let instr = Mul;
    instr.execute(&mut state, vec![10, -2i16 as u16]).unwrap();

    assert_eq!(state.mem.read_u16(G10).unwrap() as i16, -20);
}

#[test]
fn test_div() {
    let mut state = create_test_state();
    let pc = state.frame.pc as usize;
    set_byte(&mut state, pc as u32, 0x10);

    let instr = Div;
    instr.execute(&mut state, vec![-20i16 as u16, 5]).unwrap();

    assert_eq!(state.mem.read_u16(G10).unwrap() as i16, -4);
}

#[test]
fn test_mod() {
    let mut state = create_test_state();
    let pc = state.frame.pc as usize;
    set_byte(&mut state, pc as u32, 0x10);

    let instr = Mod;
    instr.execute(&mut state, vec![13, 5]).unwrap();

    assert_eq!(state.mem.read_u16(G10).unwrap(), 3);
}

#[test]
fn test_or() {
    let mut state = create_test_state();
    let pc = state.frame.pc as usize;
    set_byte(&mut state, pc as u32, 0x10);

    let instr = Or;
    instr.execute(&mut state, vec![0b1010, 0b0101]).unwrap();

    assert_eq!(state.mem.read_u16(G10).unwrap(), 0b1111);
}

#[test]
fn test_and() {
    let mut state = create_test_state();
    let pc = state.frame.pc as usize;
    set_byte(&mut state, pc as u32, 0x10);

    let instr = And;
    instr.execute(&mut state, vec![0b1100, 0b0101]).unwrap();

    assert_eq!(state.mem.read_u16(G10).unwrap(), 0b0100);
}

#[test]
fn test_not() {
    let mut state = create_test_state();
    let pc = state.frame.pc as usize;
    set_byte(&mut state, pc as u32, 0x10);

    let instr = Not;
    instr.execute(&mut state, vec![0x00FF]).unwrap();

    assert_eq!(state.mem.read_u16(G10).unwrap(), 0xFF00);
}

#[test]
fn test_div_zero() {
    let mut state = create_test_state();
    let instr = Div;
    let result = instr.execute(&mut state, vec![10, 0]);
    assert!(result.is_err());
    assert_eq!(result, Err(Error::ArithmeticTrap));
}

#[test]
fn test_je_match() {
    let mut state = create_test_state();
    let pc = state.frame.pc as usize;
    set_byte(&mut state, pc as u32, 0xCA);

    let instr = Je;
    instr.execute(&mut state, vec![5, 10, 5]).unwrap();

    assert_eq!(state.frame.pc, 0x109);
}

#[test]
fn test_jz() {
    let mut state = create_test_state();

    let pc = state.frame.pc as usize;
    set_byte(&mut state, pc as u32, 0xCA);
    let instr = Jz;
    instr.execute(&mut state, vec![0]).unwrap();
    assert_eq!(state.frame.pc as usize, pc + 1 + 10 - 2);

    let pc = state.frame.pc as usize;
    set_byte(&mut state, pc as u32, 0xCA);
    let instr = Jz;
    instr.execute(&mut state, vec![1]).unwrap();
    assert_eq!(state.frame.pc as usize, pc + 1);
}

#[test]
fn test_jl() {
    let mut state = create_test_state();

    let pc = state.frame.pc as usize;
    set_byte(&mut state, pc as u32, 0xCA);
    let instr = Jl;
    instr.execute(&mut state, vec![5, 10]).unwrap();
    assert_eq!(state.frame.pc as usize, pc + 1 + 10 - 2);

    let pc = state.frame.pc as usize;
    set_byte(&mut state, pc as u32, 0xCA);
    let instr = Jl;
    instr.execute(&mut state, vec![10, 5]).unwrap();
    assert_eq!(state.frame.pc as usize, pc + 1);
}

#[test]
fn test_jg() {
    let mut state = create_test_state();

    let pc = state.frame.pc as usize;
    set_byte(&mut state, pc as u32, 0xCA);
    let instr = Jg;
    instr.execute(&mut state, vec![10, 5]).unwrap();
    assert_eq!(state.frame.pc as usize, pc + 1 + 10 - 2);

    let pc = state.frame.pc as usize;
    set_byte(&mut state, pc as u32, 0xCA);
    let instr = Jg;
    instr.execute(&mut state, vec![5, 10]).unwrap();
    assert_eq!(state.frame.pc as usize, pc + 1);
}

#[test]
fn test_jump() {
    let mut state = create_test_state();
    let pc = state.frame.pc as usize;

    let instr = Jump;
    instr.execute(&mut state, vec![10]).unwrap();

    assert_eq!(state.frame.pc as usize, pc + 8);
}

#[test]
fn test_test() {
    let mut state = create_test_state();

    let pc = state.frame.pc as usize;
    set_byte(&mut state, pc as u32, 0xCA);
    let instr = Test;
    instr.execute(&mut state, vec![0b1111, 0b0101]).unwrap();
    assert_eq!(state.frame.pc as usize, pc + 1 + 10 - 2);

    let pc = state.frame.pc as usize;
    set_byte(&mut state, pc as u32, 0xCA);
    let instr = Test;
    instr.execute(&mut state, vec![0b0000, 0b0101]).unwrap();
    assert_eq!(state.frame.pc as usize, pc + 1);
}

#[test]
fn test_get_parent() {
    let mut state = create_test_state();
    state.version = 1;
    state.mem.write_u16(0x0A, 0x300).unwrap(); // Object table at 0x300.

    let objects_start = 0x300 + 62;
    // Object 1's parent (offset 4) is 2; object 2 has none.
    set_byte(&mut state, objects_start + 4, 2);
    set_byte(&mut state, objects_start + 9 + 4, 0);

    // JIN 1, 2 -> branch
    let pc = state.frame.pc as usize;
    set_byte(&mut state, pc as u32, 0xCA);
    let instr = Jin;
    instr.execute(&mut state, vec![1, 2]).unwrap();
    assert_eq!(state.frame.pc as usize, pc + 1 + 10 - 2);

    // JIN 2, 1 -> no branch
    let pc = state.frame.pc as usize;
    set_byte(&mut state, pc as u32, 0xCA);
    let instr = Jin;
    instr.execute(&mut state, vec![2, 1]).unwrap();
    assert_eq!(state.frame.pc as usize, pc + 1);
}

#[test]
fn test_call_ret() {
    let mut state = create_test_state();

    // Routine at 0x400: one local defaulting to 0x1234.
    set_byte(&mut state, 0x400, 1);
    state.mem.write_u16(0x401, 0x1234).unwrap();

    let pc = state.frame.pc as usize;
    set_byte(&mut state, pc as u32, 0x10);

    let instr_call = Call;
    instr_call.execute(&mut state, vec![0x200]).unwrap();

    assert_eq!(state.frame.pc, 0x403);

    let local1 = state.frame.read_local(state.mem.stack(), 1);
    assert_eq!(local1, 0x1234);

    let instr_ret = Ret;
    instr_ret.execute(&mut state, vec![0x5678]).unwrap();

    assert_eq!(state.frame.pc as usize, pc + 1);

    let result = state.mem.read_u16(G10).unwrap();
    assert_eq!(result, 0x5678);
}

#[test]
fn test_quit() {
    let mut state = create_test_state();
    assert!(state.running);
    let instr = Quit;
    instr.execute(&mut state, vec![]).unwrap();
    assert!(!state.running);
}

#[test]
fn test_store() {
    let mut state = create_test_state();
    let instr = Store;
    instr.execute(&mut state, vec![0x10, 42]).unwrap();
    assert_eq!(state.mem.read_u16(G10).unwrap(), 42);
}

#[test]
fn test_load() {
    let mut state = create_test_state();
    state.mem.write_u16(G10, 42).unwrap();

    let pc = state.frame.pc as usize;
    set_byte(&mut state, pc as u32, 0x11); // Result to global 0x11

    let instr = Load;
    instr.execute(&mut state, vec![0x10]).unwrap();

    assert_eq!(state.mem.read_u16(G10 + 2).unwrap(), 42);
}

#[test]
fn test_storew() {
    let mut state = create_test_state();
    let instr = StoreW;
    instr.execute(&mut state, vec![0x300, 2, 1234]).unwrap();
    assert_eq!(state.mem.read_u16(0x300 + 4).unwrap(), 1234);
}

#[test]
fn test_storeb() {
    let mut state = create_test_state();
    let instr = StoreB;
    instr.execute(&mut state, vec![0x300, 2, 123]).unwrap();
    assert_eq!(state.mem.read_u8(0x302).unwrap(), 123);
}

#[test]
fn test_loadw() {
    let mut state = create_test_state();
    state.mem.write_u16(0x304, 1234).unwrap();

    let pc = state.frame.pc as usize;
    set_byte(&mut state, pc as u32, 0x10);

    let instr = LoadW;
    instr.execute(&mut state, vec![0x300, 2]).unwrap();

    assert_eq!(state.mem.read_u16(G10).unwrap(), 1234);
}

#[test]
fn test_loadb() {
    let mut state = create_test_state();
    set_byte(&mut state, 0x302, 123);

    let pc = state.frame.pc as usize;
    set_byte(&mut state, pc as u32, 0x10);

    let instr = LoadB;
    instr.execute(&mut state, vec![0x300, 2]).unwrap();

    assert_eq!(state.mem.read_u16(G10).unwrap(), 123);
}

#[test]
fn test_push_pull() {
    let mut state = create_test_state();
    let sp = state.mem.stack().sp();

    let instr_push = Push;
    instr_push.execute(&mut state, vec![42]).unwrap();

    let instr_pull = Pull;
    instr_pull.execute(&mut state, vec![0x10]).unwrap();

    assert_eq!(state.mem.read_u16(G10).unwrap(), 42);
    assert_eq!(state.mem.stack().sp(), sp);
}

#[test]
fn test_inc_dec() {
    let mut state = create_test_state();
    state.mem.write_u16(G10, 42).unwrap();

    let instr_inc = Inc;
    instr_inc.execute(&mut state, vec![0x10]).unwrap();
    assert_eq!(state.mem.read_u16(G10).unwrap(), 43);

    let instr_dec = Dec;
    instr_dec.execute(&mut state, vec![0x10]).unwrap();
    assert_eq!(state.mem.read_u16(G10).unwrap(), 42);
}

#[test]
fn test_inc_chk() {
    let mut state = create_test_state();
    state.mem.write_u16(G10, 42).unwrap();

    let pc = state.frame.pc as usize;
    set_byte(&mut state, pc as u32, 0xCA);

    let instr = IncChk;
    instr.execute(&mut state, vec![0x10, 42]).unwrap();
    assert_eq!(state.frame.pc as usize, pc + 1 + 10 - 2);
}

#[test]
fn test_dec_chk() {
    let mut state = create_test_state();
    state.mem.write_u16(G10, 42).unwrap();

    let pc = state.frame.pc as usize;
    set_byte(&mut state, pc as u32, 0xCA);

    let instr = DecChk;
    instr.execute(&mut state, vec![0x10, 42]).unwrap();
    assert_eq!(state.frame.pc as usize, pc + 1 + 10 - 2);
}

#[test]
fn test_set_attr() {
    let mut state = create_test_state();
    state.version = 1;
    state.mem.write_u16(0x0A, 0x300).unwrap();

    let instr = SetAttr;
    instr.execute(&mut state, vec![1, 0]).unwrap();

    assert_eq!(state.mem.read_u8(0x300 + 62).unwrap(), 0x80);
}

#[test]
fn test_clear_attr() {
    let mut state = create_test_state();
    state.version = 1;
    state.mem.write_u16(0x0A, 0x300).unwrap();
    set_byte(&mut state, 0x300 + 62, 0x80);

    let instr = ClearAttr;
    instr.execute(&mut state, vec![1, 0]).unwrap();

    assert_eq!(state.mem.read_u8(0x300 + 62).unwrap(), 0x00);
}

#[test]
fn test_test_attr() {
    let mut state = create_test_state();
    state.version = 1;
    state.mem.write_u16(0x0A, 0x300).unwrap();
    set_byte(&mut state, 0x300 + 62, 0x80); // Attr 0 set

    let pc = state.frame.pc as usize;
    set_byte(&mut state, pc as u32, 0xCA);

    let instr = TestAttr;
    instr.execute(&mut state, vec![1, 0]).unwrap();
    assert_eq!(state.frame.pc as usize, pc + 1 + 10 - 2);

    let pc = state.frame.pc as usize;
    set_byte(&mut state, pc as u32, 0xCA);

    instr.execute(&mut state, vec![1, 1]).unwrap();
    assert_eq!(state.frame.pc as usize, pc + 1);
}

#[test]
fn test_insert_obj() {
    let mut state = create_test_state();
    state.version = 1;
    state.mem.write_u16(0x0A, 0x300).unwrap();

    let instr = InsertObj;
    instr.execute(&mut state, vec![2, 1]).unwrap();

    assert_eq!(state.mem.read_u8(0x300 + 62 + 9 + 4).unwrap(), 1);
    assert_eq!(state.mem.read_u8(0x300 + 62 + 6).unwrap(), 2);
}

#[test]
fn test_remove_obj() {
    let mut state = create_test_state();
    state.version = 1;
    state.mem.write_u16(0x0A, 0x300).unwrap();
    set_byte(&mut state, 0x300 + 62 + 9 + 4, 1); // Obj 2 parent = 1
    set_byte(&mut state, 0x300 + 62 + 6, 2); // Obj 1 child = 2

    let instr = RemoveObj;
    instr.execute(&mut state, vec![2]).unwrap();

    assert_eq!(state.mem.read_u8(0x300 + 62 + 9 + 4).unwrap(), 0);
    assert_eq!(state.mem.read_u8(0x300 + 62 + 6).unwrap(), 0);
}

#[test]
fn test_get_child() {
    let mut state = create_test_state();
    state.version = 1;
    state.mem.write_u16(0x0A, 0x300).unwrap();
    set_byte(&mut state, 0x300 + 62 + 6, 2); // Obj 1 child = 2

    let pc = state.frame.pc as usize;
    set_byte(&mut state, pc as u32, 0x10);
    set_byte(&mut state, pc as u32 + 1, 0xCA);

    let instr = GetChild;
    instr.execute(&mut state, vec![1]).unwrap();

    assert_eq!(state.mem.read_u16(G10).unwrap(), 2);
    assert_eq!(state.frame.pc as usize, pc + 2 + 10 - 2);
}

#[test]
fn test_get_sibling() {
    let mut state = create_test_state();
    state.version = 1;
    state.mem.write_u16(0x0A, 0x300).unwrap();
    set_byte(&mut state, 0x300 + 62 + 5, 2); // Obj 1 sibling = 2

    let pc = state.frame.pc as usize;
    set_byte(&mut state, pc as u32, 0x10);
    set_byte(&mut state, pc as u32 + 1, 0xCA);

    let instr = GetSibling;
    instr.execute(&mut state, vec![1]).unwrap();

    assert_eq!(state.mem.read_u16(G10).unwrap(), 2);
    assert_eq!(state.frame.pc as usize, pc + 2 + 10 - 2);
}

#[test]
fn it_works() {
    let result = 2 + 2;
    assert_eq!(result, 4);
}

#[test]
fn get_parent_after_insert_and_remove() {
    let mut state = create_test_state();
    state.version = 3;
    state.mem.write_u16(0x0A, 0x300).unwrap();

    InsertObj.execute(&mut state, vec![1, 2]).unwrap();
    let pc = state.frame.pc;
    set_byte(&mut state, pc, 0x10);
    GetParent.execute(&mut state, vec![1]).unwrap();
    assert_eq!(state.mem.read_u16(G10).unwrap(), 2);

    RemoveObj.execute(&mut state, vec![1]).unwrap();
    let pc = state.frame.pc;
    set_byte(&mut state, pc, 0x10);
    GetParent.execute(&mut state, vec![1]).unwrap();
    assert_eq!(state.mem.read_u16(G10).unwrap(), 0);

    let pc = state.frame.pc;
    set_byte(&mut state, pc, 0x11);
    set_byte(&mut state, pc + 1, 0xCA);
    GetChild.execute(&mut state, vec![2]).unwrap();
    assert_eq!(state.mem.read_u16(G10 + 2).unwrap(), 0);
    // No child: the branch is not taken.
    assert_eq!(state.frame.pc, pc + 2);
}

#[test]
fn jl_compares_signed() {
    let mut state = create_test_state();
    let pc = state.frame.pc as usize;
    set_byte(&mut state, pc as u32, 0xCA);
    Jl.execute(&mut state, vec![0xFFFF, 0x0001]).unwrap();
    assert_eq!(state.frame.pc as usize, pc + 1 + 10 - 2);
}
