use zmachine::error::Error;
use zmachine::instruction::{
    Add, Div, Instruction, Jin, Mod, Sread,
    EraseWindow, MoveCursor, PrintAddr, PrintChar, PrintObj, PrintPAddr, PrintRet, Random,
    Restore, RetPopped, Save, SetColor, SetWindow, ShowStatus,
};
use zmachine::object::Object;
use zmachine::state::{ScreenOp, State};
use zmachine::zscii::{zscii_of_key, zscii_of_line, zscii_to_char};

const G10: u32 = 0x200;

fn machine() -> State {
    let mut data = vec![0u8; 4096];
    data[0x00] = 3;
    data[0x06] = 0x01;
    data[0x0C] = 0x02;
    data[0x0E] = 0x10;
    State::new(&data)
}

fn put(state: &mut State, addr: u32, bytes: &[u8]) {
    for (i, b) in bytes.iter().enumerate() {
        state.mem.write_u8(addr + i as u32, *b).unwrap();
    }
}

fn text(ops: &[ScreenOp]) -> String {
    let mut out = String::new();
    for op in ops {
        match op {
            ScreenOp::Print(t) => out.extend(t.iter()),
            ScreenOp::NewLine => out.push('\n'),
            ScreenOp::PrintChar(c) => out.push(*c),
            _ => {}
        }
    }
    out
}

/// "cat" as one Z-string word.
const CAT: [u8; 2] = [0xA0, 0xD9];

fn with_room(state: &mut State) {
    state.mem.write_u16(0x0A, 0x300).unwrap();
    state.mem.write_u16(0x300 + 62 + 7, 0x500).unwrap();
    put(state, 0x500, &[1, CAT[0], CAT[1], 0]);
    // Location object 1, score 7, turns 12.
    state.mem.write_u16(G10, 1).unwrap();
    state.mem.write_u16(G10 + 2, 7).unwrap();
    state.mem.write_u16(G10 + 4, 12).unwrap();
}

#[test]
fn print_obj_prints_the_short_name() {
    let mut state = machine();
    with_room(&mut state);
    PrintObj.execute(&mut state, vec![1]).unwrap();
    assert_eq!(text(&state.take_output()), "cat");
}

#[test]
fn show_status_reports_location_score_and_turns() {
    let mut state = machine();
    with_room(&mut state);
    ShowStatus.execute(&mut state, vec![]).unwrap();
    let ops = state.take_output();
    assert_eq!(ops.len(), 1);
    match &ops[0] {
        ScreenOp::SetStatus(name, a, b) => {
            assert_eq!(name.iter().collect::<String>(), "cat");
            assert_eq!((*a, *b), (7, 12));
        }
        other => panic!("unexpected {:?}", other),
    }
}

#[test]
fn print_addr_and_paddr() {
    let mut state = machine();
    put(&mut state, 0x600, &CAT);
    PrintAddr.execute(&mut state, vec![0x600]).unwrap();
    PrintPAddr.execute(&mut state, vec![0x300]).unwrap();
    assert_eq!(text(&state.take_output()), "catcat");
}

#[test]
fn print_char_maps_zscii() {
    let mut state = machine();
    PrintChar.execute(&mut state, vec![65]).unwrap();
    PrintChar.execute(&mut state, vec![13]).unwrap();
    assert_eq!(text(&state.take_output()), "A\n");
}

#[test]
fn print_ret_prints_and_returns_true() {
    let mut state = machine();
    put(&mut state, 0x400, &[0, CAT[0], CAT[1]]);
    put(&mut state, 0x100, &[0x10]);
    state.call(0x200, &[], Some(0x10)).unwrap();
    PrintRet.execute(&mut state, vec![]).unwrap();
    assert_eq!(text(&state.take_output()), "cat\n");
    assert_eq!(state.mem.read_u16(G10), Ok(1));
    assert_eq!(state.frame.pc, 0x100);
}

#[test]
fn ret_popped_returns_the_stack_top() {
    let mut state = machine();
    put(&mut state, 0x400, &[0]);
    state.call(0x200, &[], Some(0x10)).unwrap();
    state.store_variable(0, 99).unwrap();
    RetPopped.execute(&mut state, vec![]).unwrap();
    assert_eq!(state.mem.read_u16(G10), Ok(99));
}

#[test]
fn save_and_restore_report_failure() {
    let mut state = machine();
    // Branch on false, short, offset 10: taken when the condition is false.
    put(&mut state, 0x100, &[0x4A, 0x4A]);
    Save.execute(&mut state, vec![]).unwrap();
    assert_eq!(state.frame.pc, 0x101 + 10 - 2);
    let mut state = machine();
    state.version = 5;
    put(&mut state, 0x100, &[0x10]);
    state.mem.write_u16(G10, 5).unwrap();
    Restore.execute(&mut state, vec![]).unwrap();
    assert_eq!(state.mem.read_u16(G10), Ok(0));
}

#[test]
fn random_with_negative_range_reseeds() {
    let mut state = machine();
    put(&mut state, 0x100, &[0x10]);
    state.mem.write_u16(G10, 5).unwrap();
    Random.execute(&mut state, vec![(-42i16) as u16]).unwrap();
    assert_eq!(state.awaiting, None);
    assert_eq!(state.mem.read_u16(G10), Ok(0));
    let ops = state.take_output();
    assert!(matches!(ops[0], ScreenOp::SeedRandom(42)));
}

#[test]
fn window_operations_are_queued() {
    let mut state = machine();
    SetWindow.execute(&mut state, vec![1]).unwrap();
    EraseWindow.execute(&mut state, vec![1]).unwrap();
    MoveCursor.execute(&mut state, vec![2, 5]).unwrap();
    SetColor.execute(&mut state, vec![3, 4]).unwrap();
    let ops = state.take_output();
    assert!(matches!(ops[0], ScreenOp::SetWindow(1)));
    assert!(matches!(ops[1], ScreenOp::EraseWindow(1)));
    assert!(matches!(ops[2], ScreenOp::MoveCursor(2, 5)));
    assert!(matches!(ops[3], ScreenOp::SetColor(3, 4)));
    assert!(state.take_output().is_empty());
}

#[test]
fn run_stops_at_quit() {
    let mut state = machine();
    // add 1 2 -> g10; print_num g10; new_line; quit
    put(&mut state, 0x100, &[0x14, 1, 2, 0x10, 0xE6, 0xBF, 0x10, 0xBB, 0xBA]);
    state.run(100).unwrap();
    assert!(!state.running);
    assert_eq!(state.frame.pc, 0x109);
    let ops = state.take_output();
    assert!(matches!(ops[0], ScreenOp::PrintNumber(3)));
    assert!(matches!(ops[1], ScreenOp::NewLine));
}

#[test]
fn run_stops_at_the_first_error() {
    let mut state = machine();
    // div 1 0 -> g10
    put(&mut state, 0x100, &[0x17, 1, 0, 0x10]);
    assert_eq!(state.run(100), Err(Error::ArithmeticTrap));
}

#[test]
fn run_respects_its_tick_budget() {
    let mut state = machine();
    // jump -1: the PC after the operand is 0x103, and 0x103 - 1 - 2 is the
    // jump itself, so the story loops forever.
    put(&mut state, 0x100, &[0x8C, 0xFF, 0xFF]);
    state.run(5).unwrap();
    assert!(state.running);
    assert_eq!(state.frame.pc, 0x100);
}

#[test]
fn zscii_output_uses_the_default_table() {
    assert_eq!(zscii_to_char(155), 'ä');
    assert_eq!(zscii_to_char(161), 'ß');
    assert_eq!(zscii_to_char(220), 'œ');
    assert_eq!(zscii_to_char(223), '¿');
    assert_eq!(zscii_to_char(224), '?');
    assert_eq!(zscii_to_char(13), '\n');
    assert_eq!(zscii_to_char(7), '?');
    assert_eq!(zscii_to_char(126), '~');
}

#[test]
fn ten_bit_escape_of_an_accented_letter() {
    let mut state = machine();
    // ZSCII 155 (ä) = 4 << 5 | 27: A2 escape, then the two halves.
    let w1: u16 = (5 << 10) | (6 << 5) | 4;
    let w2: u16 = 0x8000 | (27 << 10) | (5 << 5) | 5;
    put(&mut state, 0x600, &[(w1 >> 8) as u8, w1 as u8, (w2 >> 8) as u8, w2 as u8]);
    PrintAddr.execute(&mut state, vec![0x600]).unwrap();
    assert_eq!(text(&state.take_output()), "ä");
}

#[test]
fn keys_become_zscii_codes() {
    assert_eq!(zscii_of_key('\n'), 13);
    assert_eq!(zscii_of_key('a'), 97);
    assert_eq!(zscii_of_key('ö'), 156);
    assert_eq!(zscii_of_key('Œ'), 221);
    assert_eq!(zscii_of_key('€'), 63);
    assert_eq!(zscii_of_line(&"Zoë".chars().collect()), vec![90, 111, 164]);
}

#[test]
fn instructions_name_themselves() {
    assert_eq!(Add.name(), "ADD");
    assert_eq!(Jin.name(), "JIN");
    assert_eq!(Sread.name(), "SREAD");
    assert_eq!(Add.description(), "Adds two signed 16-bit integers.");
}

#[test]
fn division_by_zero_changes_nothing() {
    let mut state = machine();
    put(&mut state, 0x100, &[0x10]);
    assert_eq!(Mod.execute(&mut state, vec![7, 0]), Err(Error::ArithmeticTrap));
    assert_eq!(Div.execute(&mut state, vec![7, 0]), Err(Error::ArithmeticTrap));
    assert_eq!(state.frame.pc, 0x100);
    assert_eq!(state.mem.stack().sp(), 0);
}

#[test]
fn failed_put_prop_leaves_memory_alone() {
    let mut state = machine();
    with_room(&mut state);
    let before: Vec<u8> = (0..4096).map(|a| state.mem.read_u8(a).unwrap()).collect();
    let obj = Object::new(3);
    assert_eq!(obj.put_prop(&mut state.mem, 1, 9, 1), Err(Error::PropertyNotWordSized));
    let after: Vec<u8> = (0..4096).map(|a| state.mem.read_u8(a).unwrap()).collect();
    assert_eq!(before, after);
}
