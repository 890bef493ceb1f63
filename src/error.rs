use vstd::prelude::*;

verus! {

/// Every way an instruction can fail; the interpreter stops at the first one.
#[derive(Debug, Clone, Copy, PartialEq, Eq, Structural)]
pub enum Error {
    /// The opcode byte names no instruction, or came with too few operands.
    IllegalOpcode(u8),
    /// Division or remainder by zero.
    ArithmeticTrap,
    /// A pop with the stack pointer at the frame's base.
    StackUnderflow,
    /// A push onto a full word stack.
    StackOverflow,
    /// A routine header that declares more than fifteen locals.
    TooManyLocals,
    /// A return from the main routine.
    CallStackUnderflow,
    /// A local variable beyond the current routine's locals.
    InvalidVariable(u8),
    /// A read or write outside the story image.
    MemoryOutOfBounds,
    /// A write to static or high memory.
    MemoryWriteProtected,
    /// A nested abbreviation, or a string that does not end.
    MalformedString,
    /// Object 0, or a number beyond the table's width.
    InvalidObject(u16),
    /// An attribute number beyond the object's attributes.
    InvalidAttribute(u16),
    /// Property 0, or a number beyond the table of defaults.
    InvalidProperty(u16),
    /// An object missing from its parent's child chain.
    CorruptTree,
    /// Input handed to a machine that is not waiting for that kind of input.
    UnexpectedInput,
    /// A word access to a property that is absent or longer than two bytes.
    PropertyNotWordSized,
}

} // verus!
