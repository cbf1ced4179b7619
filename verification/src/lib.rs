//! An 8-bit processor core with a text-encoded, byte-addressable memory.
//!
//! - [`isa`]: the instruction set and its decoder.
//! - [`cpu`]: registers, flags, the adder, and the fetch-decode-execute cycle.
//! - [`hex`] and [`ram`]: the memory as hexadecimal text in a key-value store.
//! - [`machine`]: core and memory together, one reply of the store at a time.
//! - [`loader`]: the text format of programs.
//!
//! The library does no input or output. It computes what to ask of the store
//! and what to make of the answer; talking to the store, reading program
//! files and printing traces belong to the program that uses it.

pub mod cpu;
pub mod hex;
pub mod isa;
pub mod loader;
pub mod machine;
pub mod ram;
