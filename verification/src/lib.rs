//! The opcode-handler core of an x86 instruction decoder.
//!
//! Decoding one instruction means finding the handler that is responsible for
//! it and letting that handler fill in an instruction record:
//!
//! - [`state`] holds what is known of the instruction before a handler runs:
//!   its encoding kind, its operand size and the fields of its addressing byte.
//! - [`table`] maps each instruction, by its selector, to its handler.
//! - [`handlers`] holds the handlers and what each of them writes.
//! - [`instruction`] holds the record that they write into, with its packed
//!   fields.
//! - [`register`], [`op_kind`], [`code`] and [`memory`] hold the values that a
//!   record is made of, and [`constants`] their counts and widths.
//!
//! No handler reads the byte stream. A handler whose operand lies in memory
//! leaves the description of that operand to be read by its caller, which
//! [`table::DispatchTable::decode_with`] does with a function that it is given.

pub mod code;
pub mod constants;
pub mod handlers;
pub mod instruction;
pub mod memory;
pub mod op_kind;
pub mod register;
pub mod state;
pub mod table;
