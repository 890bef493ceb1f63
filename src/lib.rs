//! A Z-Machine: the virtual machine of Infocom's interactive fiction.
//!
//! `memory` holds the story image, the word stack and the variables;
//! `object` the object tree and its properties; `zscii` the text decoder;
//! `instruction` the opcodes and `decode` the fetch-decode-execute tick that
//! runs them on a `state::State`. Screen output is queued as
//! `state::ScreenOp`s and input is asked for through `state::Await`, so a host
//! drives the machine and performs all I/O.

use vstd::prelude::*;

pub mod error;
pub mod memory;
pub mod state;
pub mod object;
pub mod zscii;
pub mod instruction;
pub mod decode;

verus! {

} // verus!
