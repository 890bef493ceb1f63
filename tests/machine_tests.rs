use zmachine::error::Error;
use zmachine::instruction::{
    ClearAttr, GetParent, Load, LoadW, Pull, Push, ReadChar, Restart, Ret, SetAttr, Sread,
    StoreW,
};
use zmachine::memory::{Memory, StackFrame};
use zmachine::object::Object;
use zmachine::state::{Await, ScreenOp, State};
use zmachine::zscii::Zscii;

const G10: u32 = 0x200;

fn story(static_base: u16) -> Vec<u8> {
    let mut data = vec![0u8; 4096];
    data[0x00] = 3;
    data[0x06] = 0x01;
    data[0x07] = 0x00;
    data[0x0C] = 0x02;
    data[0x0D] = 0x00;
    data[0x0E] = (static_base >> 8) as u8;
    data[0x0F] = (static_base & 0xFF) as u8;
    data
}

fn machine() -> State {
    State::new(&story(0x1000))
}

fn word(a: u8, b: u8, c: u8, last: bool) -> [u8; 2] {
    let w: u16 = ((a as u16) << 10) | ((b as u16) << 5) | c as u16 | if last { 0x8000 } else { 0 };
    [(w >> 8) as u8, (w & 0xFF) as u8]
}

fn put(state: &mut State, addr: u32, bytes: &[u8]) {
    for (i, b) in bytes.iter().enumerate() {
        state.mem.write_u8(addr + i as u32, *b).unwrap();
    }
}

fn decode(state: &State, addr: u32) -> Result<(String, u32), Error> {
    let mut z = Zscii::new();
    let s = z.get_string(&state.mem, state.version, addr)?;
    Ok((s.into_iter().collect(), z.get_ptr()))
}

#[test]
fn push_then_pop_restores_stack() {
    let mut mem = Memory::new(&story(0x1000));
    let frame = StackFrame::main(0x100);
    mem.push(7).unwrap();
    let sp = mem.stack().sp();
    mem.push(42).unwrap();
    assert_eq!(mem.pop(&frame), Ok(42));
    assert_eq!(mem.stack().sp(), sp);
    assert_eq!(mem.pop(&frame), Ok(7));
    assert_eq!(mem.pop(&frame), Err(Error::StackUnderflow));
}

#[test]
fn word_round_trip_is_big_endian() {
    let mut mem = Memory::new(&story(0x1000));
    mem.write_u16(0x300, 0xBEEF).unwrap();
    assert_eq!(mem.read_u16(0x300), Ok(0xBEEF));
    assert_eq!(mem.read_u8(0x300), Ok(0xBE));
    assert_eq!(mem.read_u8(0x301), Ok(0xEF));
    mem.write_u32(0x310, 0x0102_0304).unwrap();
    assert_eq!(mem.read_u32(0x310), Ok(0x0102_0304));
}

#[test]
fn reads_outside_the_image_fail() {
    let mem = Memory::new(&story(0x1000));
    assert_eq!(mem.read_u8(4096), Err(Error::MemoryOutOfBounds));
    assert_eq!(mem.read_u16(4095), Err(Error::MemoryOutOfBounds));
}

#[test]
fn header_accessors_read_their_fields() {
    let mut data = story(0x0800);
    data[0x04] = 0x09;
    data[0x0A] = 0x03;
    data[0x18] = 0x00;
    data[0x19] = 0x40;
    let mem = Memory::new(&data);
    assert_eq!(mem.zmachine_version(), 3);
    assert_eq!(mem.initial_pc(), 0x100);
    assert_eq!(mem.global_variables(), 0x200);
    assert_eq!(mem.static_memory(), 0x0800);
    assert_eq!(mem.high_memory(), 0x0900);
    assert_eq!(mem.object_table(), 0x0300);
    assert_eq!(mem.abbreviations_table(), 0x40);
    assert_eq!(mem.read_global(0x11), Ok(0));
}

#[test]
fn writes_to_static_memory_are_refused() {
    let mut state = State::new(&story(0x0800));
    assert_eq!(
        StoreW.execute(&mut state, vec![0x900, 0, 1]),
        Err(Error::MemoryWriteProtected)
    );
    // Flags 2 stays writable.
    state.mem.write_u8(0x10, 1).unwrap();
    assert_eq!(state.mem.write_u8(5000, 1), Err(Error::MemoryOutOfBounds));
}

#[test]
fn push_pull_restores_stack_pointer() {
    let mut state = machine();
    let sp = state.mem.stack().sp();
    Push.execute(&mut state, vec![42]).unwrap();
    assert_eq!(state.mem.stack().sp(), sp + 1);
    Pull.execute(&mut state, vec![0x10]).unwrap();
    assert_eq!(state.mem.read_u16(G10), Ok(42));
    assert_eq!(state.mem.stack().sp(), sp);
}

#[test]
fn pull_on_empty_stack_underflows() {
    let mut state = machine();
    assert_eq!(Pull.execute(&mut state, vec![0x10]), Err(Error::StackUnderflow));
}

#[test]
fn full_stack_overflows() {
    let mut state = machine();
    for _ in 0..4096 {
        Push.execute(&mut state, vec![1]).unwrap();
    }
    assert_eq!(Push.execute(&mut state, vec![1]), Err(Error::StackOverflow));
}

#[test]
fn return_from_main_fails() {
    let mut state = machine();
    assert_eq!(Ret.execute(&mut state, vec![1]), Err(Error::CallStackUnderflow));
}

#[test]
fn local_beyond_frame_is_invalid() {
    let mut state = machine();
    assert_eq!(Load.execute(&mut state, vec![1]), Err(Error::InvalidVariable(1)));
}

#[test]
fn loadw_outside_image_fails() {
    let mut state = machine();
    assert_eq!(LoadW.execute(&mut state, vec![0xFFF, 0]), Err(Error::MemoryOutOfBounds));
}

#[test]
fn call_passes_arguments_and_returns() {
    let mut state = machine();
    // Routine at 0x400 with two locals, defaults 0x1111 and 0x2222.
    put(&mut state, 0x400, &[2, 0x11, 0x11, 0x22, 0x22]);
    let sp = state.mem.stack().sp();
    state.call(0x200, &[0xAAAA], Some(0)).unwrap();
    assert_eq!(state.frame.pc, 0x405);
    assert_eq!(state.frame.read_local(state.mem.stack(), 1), 0xAAAA);
    assert_eq!(state.frame.read_local(state.mem.stack(), 2), 0x2222);
    assert_eq!(state.frames.len(), 1);
    state.ret(9).unwrap();
    assert_eq!(state.frames.len(), 0);
    assert_eq!(state.frame.pc, 0x100);
    // The value went to the stack of the caller.
    assert_eq!(state.mem.stack().sp(), sp + 1);
    assert_eq!(state.read_variable(0), Ok(9));
}

#[test]
fn call_to_zero_stores_false() {
    let mut state = machine();
    state.mem.write_u16(G10, 5).unwrap();
    state.call(0, &[], Some(0x10)).unwrap();
    assert_eq!(state.mem.read_u16(G10), Ok(0));
    assert_eq!(state.frames.len(), 0);
}

#[test]
fn routine_with_too_many_locals_fails() {
    let mut state = machine();
    put(&mut state, 0x400, &[16]);
    assert_eq!(state.call(0x200, &[], Some(0x10)), Err(Error::TooManyLocals));
}

#[test]
fn long_branch_goes_backwards() {
    let mut state = machine();
    // Branch on true, long form, offset -4 (14-bit 0x3FFC).
    put(&mut state, 0x100, &[0xBF, 0xFC]);
    state.branch(true).unwrap();
    assert_eq!(state.frame.pc, 0x102 - 4 - 2);
}

#[test]
fn branch_offset_one_returns_true() {
    let mut state = machine();
    put(&mut state, 0x400, &[0]);
    state.call(0x200, &[], Some(0x10)).unwrap();
    put(&mut state, 0x401, &[0xC1]);
    state.branch(true).unwrap();
    assert_eq!(state.mem.read_u16(G10), Ok(1));
    assert_eq!(state.frame.pc, 0x100);
}

#[test]
fn execute_instruction_decodes_long_form_add() {
    let mut state = machine();
    // add 5 7 -> g10
    put(&mut state, 0x100, &[0x14, 5, 7, 0x10]);
    state.execute_instruction().unwrap();
    assert_eq!(state.mem.read_u16(G10), Ok(12));
    assert_eq!(state.frame.pc, 0x104);
}

#[test]
fn execute_instruction_decodes_variable_form() {
    let mut state = machine();
    state.mem.write_u16(G10, 3).unwrap();
    // je g10, 1, 2, 3 ?(true, +10): types: var, small, small, small
    put(&mut state, 0x100, &[0xC1, 0b1001_0101, 0x10, 1, 2, 3, 0xCA]);
    state.execute_instruction().unwrap();
    assert_eq!(state.frame.pc, 0x107 + 10 - 2);
}

#[test]
fn execute_instruction_decodes_short_form() {
    let mut state = machine();
    // inc g10 (1OP:5, the variable named by a small constant)
    put(&mut state, 0x100, &[0x95, 0x10]);
    state.execute_instruction().unwrap();
    assert_eq!(state.mem.read_u16(G10), Ok(1));
    // jump with a large constant: 1OP:12, offset 0x0010
    put(&mut state, 0x102, &[0x8C, 0x00, 0x10]);
    state.execute_instruction().unwrap();
    assert_eq!(state.frame.pc, 0x105 + 0x10 - 2);
}

#[test]
fn unknown_opcode_is_illegal() {
    let mut state = machine();
    put(&mut state, 0x100, &[0xB9]);
    assert_eq!(state.execute_instruction(), Err(Error::IllegalOpcode(0xB9)));
}

#[test]
fn quit_stops_the_machine() {
    let mut state = machine();
    put(&mut state, 0x100, &[0xBA, 0x14, 1, 1, 0x10]);
    state.execute_instruction().unwrap();
    assert!(!state.running);
    // A stopped machine does nothing.
    state.execute_instruction().unwrap();
    assert_eq!(state.frame.pc, 0x101);
}

#[test]
fn restart_reloads_dynamic_memory() {
    let mut state = machine();
    state.mem.write_u16(G10, 77).unwrap();
    state.mem.write_u8(0x10, 1).unwrap();
    Push.execute(&mut state, vec![5]).unwrap();
    state.frame.pc = 0x180;
    Restart.execute(&mut state, vec![]).unwrap();
    assert_eq!(state.mem.read_u16(G10), Ok(0));
    assert_eq!(state.mem.read_u8(0x10), Ok(1));
    assert_eq!(state.mem.stack().sp(), 0);
    assert_eq!(state.frame.pc, 0x100);
}

#[test]
fn read_char_waits_for_a_key() {
    let mut state = machine();
    put(&mut state, 0x100, &[0x10]);
    ReadChar.execute(&mut state, vec![1]).unwrap();
    assert_eq!(state.awaiting, Some(Await::Char { store: 0x10 }));
    // Nothing runs while the machine waits.
    state.execute_instruction().unwrap();
    assert_eq!(state.frame.pc, 0x101);
    state.resume_char(b'y' as u16).unwrap();
    assert_eq!(state.mem.read_u16(G10), Ok(b'y' as u16));
    assert_eq!(state.awaiting, None);
}

#[test]
fn input_without_a_request_is_refused() {
    let mut state = machine();
    assert_eq!(state.resume_char(1), Err(Error::UnexpectedInput));
    assert_eq!(state.resume_random(1), Err(Error::UnexpectedInput));
    assert_eq!(state.resume_line(&vec![b'a']), Err(Error::UnexpectedInput));
}

#[test]
fn sread_fills_the_text_buffer() {
    let mut state = machine();
    state.version = 4;
    put(&mut state, 0x600, &[4]);
    Sread.execute(&mut state, vec![0x600, 0x700]).unwrap();
    assert_eq!(state.awaiting, Some(Await::Line { text: 0x600, parse: 0x700 }));
    state.resume_line(&b"LOOK AROUND".to_vec()).unwrap();
    assert_eq!(state.mem.read_u8(0x601), Ok(b'l'));
    assert_eq!(state.mem.read_u8(0x602), Ok(b'o'));
    assert_eq!(state.mem.read_u8(0x603), Ok(b'o'));
    assert_eq!(state.mem.read_u8(0x604), Ok(0));
    assert_eq!(state.mem.read_u8(0x701), Ok(0));
}

#[test]
fn zscii_hello_advances_four_bytes() {
    let mut state = machine();
    put(&mut state, 0x100, &[0x35, 0x51, 0xC6, 0x85]);
    assert_eq!(decode(&state, 0x100), Ok(("hello".to_string(), 0x104)));
}

#[test]
fn zscii_shifts_and_punctuation() {
    let mut state = machine();
    // "Hi, 9" : 4 H(13) i(14) | 5 ,(19) 0(space) | 5 9(17) 5(pad)
    let mut bytes = Vec::new();
    bytes.extend_from_slice(&word(4, 13, 14, false));
    bytes.extend_from_slice(&word(5, 19, 0, false));
    bytes.extend_from_slice(&word(5, 17, 5, true));
    put(&mut state, 0x500, &bytes);
    assert_eq!(decode(&state, 0x500), Ok(("Hi, 9".to_string(), 0x506)));
}

#[test]
fn zscii_ten_bit_escape() {
    let mut state = machine();
    // '@' is ZSCII 64 = 2 << 5 | 0
    let mut bytes = Vec::new();
    bytes.extend_from_slice(&word(5, 6, 2, false));
    bytes.extend_from_slice(&word(0, 5, 5, true));
    put(&mut state, 0x500, &bytes);
    assert_eq!(decode(&state, 0x500), Ok(("@".to_string(), 0x504)));
}

#[test]
fn zscii_abbreviation_expands() {
    let mut state = machine();
    state.mem.write_u16(0x18, 0x40).unwrap();
    // Abbreviation 0 is the string at word address 0x30 (byte 0x60): "the".
    state.mem.write_u16(0x40, 0x30).unwrap();
    put(&mut state, 0x60, &word(25, 13, 10, true));
    // "the cat": abbreviation 0, space, then "cat".
    let mut bytes = Vec::new();
    bytes.extend_from_slice(&word(1, 0, 0, false));
    bytes.extend_from_slice(&word(8, 6, 25, true));
    put(&mut state, 0x500, &bytes);
    assert_eq!(decode(&state, 0x500), Ok(("the cat".to_string(), 0x504)));
}

#[test]
fn zscii_nested_abbreviation_is_malformed() {
    let mut state = machine();
    state.mem.write_u16(0x18, 0x40).unwrap();
    state.mem.write_u16(0x40, 0x30).unwrap();
    put(&mut state, 0x60, &word(1, 0, 5, true));
    put(&mut state, 0x500, &word(1, 0, 5, true));
    assert_eq!(decode(&state, 0x500), Err(Error::MalformedString));
}

#[test]
fn zscii_version_one_alphabet() {
    let mut state = machine();
    state.version = 1;
    // A2 in V1: z 7 is '0', z 27 is '<'; z 1 is a newline.
    put(&mut state, 0x500, &word(5, 27, 1, true));
    assert_eq!(decode(&state, 0x500), Ok(("<\n".to_string(), 0x502)));
}

fn object_table(state: &mut State) {
    state.mem.write_u16(0x0A, 0x300).unwrap();
    // Default for property 4.
    state.mem.write_u16(0x300 + 6, 0xABCD).unwrap();
    // Object 1's property table at 0x500.
    state.mem.write_u16(0x300 + 62 + 7, 0x500).unwrap();
}

fn property_story() -> State {
    let mut state = machine();
    object_table(&mut state);
    // Name of one word ("cat"), then properties 5 (2 bytes), 3 (1), 2 (3).
    let name = word(8, 6, 25, true);
    put(
        &mut state,
        0x500,
        &[1, name[0], name[1], 0x25, 0x12, 0x34, 0x03, 0x56, 0x42, 1, 2, 3, 0],
    );
    state
}

#[test]
fn properties_of_a_narrow_object() {
    let state = property_story();
    let obj = Object::new(3);
    assert_eq!(obj.get_prop(&state.mem, 1, 5), Ok(0x1234));
    assert_eq!(obj.get_prop(&state.mem, 1, 3), Ok(0x56));
    assert_eq!(obj.get_prop(&state.mem, 1, 4), Ok(0xABCD));
    assert_eq!(obj.get_prop(&state.mem, 1, 2), Err(Error::PropertyNotWordSized));
    assert_eq!(obj.get_prop(&state.mem, 1, 0), Err(Error::InvalidProperty(0)));
    let p = obj.get_prop_addr(&state.mem, 1, 5).unwrap();
    assert_eq!(p.addr, 0x504);
    assert_eq!(p.data_length, 2);
    assert_eq!(obj.get_prop_addr(&state.mem, 1, 4).unwrap().addr, 0);
    assert_eq!(obj.get_prop_len(&state.mem, 0x504), Ok(2));
    assert_eq!(obj.get_prop_len(&state.mem, 0x507), Ok(1));
    assert_eq!(obj.get_prop_len(&state.mem, 0), Ok(0));
    assert_eq!(obj.get_prop_next(&state.mem, 1, 0), Ok(5));
    assert_eq!(obj.get_prop_next(&state.mem, 1, 5), Ok(3));
    assert_eq!(obj.get_prop_next(&state.mem, 1, 3), Ok(2));
    assert_eq!(obj.get_prop_next(&state.mem, 1, 2), Ok(0));
    let name: String = obj.name(&state.mem, 3, 1).unwrap().into_iter().collect();
    assert_eq!(name, "cat");
}

#[test]
fn put_prop_overwrites_in_place() {
    let mut state = property_story();
    let obj = Object::new(3);
    obj.put_prop(&mut state.mem, 1, 3, 0x199).unwrap();
    assert_eq!(obj.get_prop(&state.mem, 1, 3), Ok(0x99));
    obj.put_prop(&mut state.mem, 1, 5, 0xCAFE).unwrap();
    assert_eq!(obj.get_prop(&state.mem, 1, 5), Ok(0xCAFE));
    assert_eq!(obj.put_prop(&mut state.mem, 1, 4, 1), Err(Error::PropertyNotWordSized));
    assert_eq!(obj.put_prop(&mut state.mem, 1, 2, 1), Err(Error::PropertyNotWordSized));
}

#[test]
fn wide_property_headers() {
    let mut state = machine();
    state.mem.write_u16(0x0A, 0x300).unwrap();
    // Object 1 of a wide table: record after 63 default words, props at 12.
    state.mem.write_u16(0x300 + 126 + 12, 0x500).unwrap();
    // No name; property 10 with 2 bytes (bit 6), property 7 with a two-byte
    // header and 3 bytes, property 6 with one byte.
    put(&mut state, 0x500, &[0, 0x4A, 0xAB, 0xCD, 0x87, 0x83, 1, 2, 3, 0x06, 0x44, 0]);
    let obj = Object::new(5);
    assert_eq!(obj.get_prop(&state.mem, 1, 10), Ok(0xABCD));
    assert_eq!(obj.get_prop(&state.mem, 1, 6), Ok(0x44));
    let p = obj.get_prop_addr(&state.mem, 1, 7).unwrap();
    assert_eq!((p.addr, p.size_bytes, p.data_length), (0x506, 2, 3));
    assert_eq!(obj.get_prop_len(&state.mem, 0x506), Ok(3));
    assert_eq!(obj.get_prop_next(&state.mem, 1, 10), Ok(7));
    assert_eq!(obj.get_prop_next(&state.mem, 1, 7), Ok(6));
}

#[test]
fn attributes_set_and_clear_independently() {
    let mut state = machine();
    object_table(&mut state);
    let obj = Object::new(3);
    obj.attr_set(&mut state.mem, 1, 3).unwrap();
    obj.attr_set(&mut state.mem, 1, 31).unwrap();
    assert_eq!(obj.attr_test(&state.mem, 1, 3), Ok(true));
    assert_eq!(obj.attr_test(&state.mem, 1, 31), Ok(true));
    assert_eq!(obj.attr_test(&state.mem, 1, 4), Ok(false));
    assert_eq!(state.mem.read_u8(0x300 + 62), Ok(0x10));
    assert_eq!(state.mem.read_u8(0x300 + 62 + 3), Ok(0x01));
    obj.attr_clear(&mut state.mem, 1, 3).unwrap();
    assert_eq!(obj.attr_test(&state.mem, 1, 3), Ok(false));
    assert_eq!(obj.attr_test(&state.mem, 1, 31), Ok(true));
    assert_eq!(obj.attr_set(&mut state.mem, 1, 32), Err(Error::InvalidAttribute(32)));
    assert_eq!(
        SetAttr.execute(&mut state, vec![0, 1]),
        Err(Error::InvalidObject(0))
    );
    ClearAttr.execute(&mut state, vec![1, 31]).unwrap();
    assert_eq!(obj.attr_test(&state.mem, 1, 31), Ok(false));
}

#[test]
fn insert_heads_the_child_chain() {
    let mut state = machine();
    object_table(&mut state);
    let obj = Object::new(3);
    obj.insert(&mut state.mem, 2, 1).unwrap();
    obj.insert(&mut state.mem, 3, 1).unwrap();
    assert_eq!(obj.parent(&state.mem, 3), Ok(1));
    assert_eq!(obj.child(&state.mem, 1), Ok(3));
    assert_eq!(obj.sibling(&state.mem, 3), Ok(2));
    assert_eq!(obj.sibling(&state.mem, 2), Ok(0));
    // Moving 2 under 3 detaches it from 1 first.
    obj.insert(&mut state.mem, 2, 3).unwrap();
    assert_eq!(obj.sibling(&state.mem, 3), Ok(0));
    assert_eq!(obj.child(&state.mem, 3), Ok(2));
    assert_eq!(obj.parent(&state.mem, 2), Ok(3));
}

#[test]
fn remove_relinks_a_middle_sibling() {
    let mut state = machine();
    object_table(&mut state);
    let obj = Object::new(3);
    obj.insert(&mut state.mem, 2, 1).unwrap();
    obj.insert(&mut state.mem, 3, 1).unwrap();
    obj.insert(&mut state.mem, 4, 1).unwrap();
    // Chain under 1: 4, 3, 2.
    obj.remove(&mut state.mem, 3).unwrap();
    assert_eq!(obj.parent(&state.mem, 3), Ok(0));
    assert_eq!(obj.sibling(&state.mem, 3), Ok(0));
    assert_eq!(obj.child(&state.mem, 1), Ok(4));
    assert_eq!(obj.sibling(&state.mem, 4), Ok(2));
    assert_eq!(obj.parent(&state.mem, 2), Ok(1));
    assert_eq!(obj.parent(&state.mem, 4), Ok(1));
}

#[test]
fn remove_from_a_parent_that_lacks_it_is_corrupt() {
    let mut state = machine();
    object_table(&mut state);
    let obj = Object::new(3);
    put(&mut state, 0x300 + 62 + 9 + 4, &[1]); // object 2 claims parent 1
    assert_eq!(obj.remove(&mut state.mem, 2), Err(Error::CorruptTree));
    assert_eq!(
        GetParent.execute(&mut state, vec![0]),
        Err(Error::InvalidObject(0))
    );
}

#[test]
fn sread_from_version_five_counts_the_letters() {
    let mut state = machine();
    state.version = 5;
    put(&mut state, 0x600, &[10]);
    put(&mut state, 0x100, &[0x10]);
    Sread.execute(&mut state, vec![0x600, 0x700]).unwrap();
    state.resume_line(&b"Go N".to_vec()).unwrap();
    assert_eq!(state.mem.read_u8(0x601), Ok(4));
    assert_eq!(state.mem.read_u8(0x602), Ok(b'g'));
    assert_eq!(state.mem.read_u8(0x605), Ok(b'n'));
    assert_eq!(state.mem.read_u8(0x606), Ok(0));
    // The terminating character is stored.
    assert_eq!(state.mem.read_u16(G10), Ok(13));
}
