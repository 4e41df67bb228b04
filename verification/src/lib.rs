//! A CHIP-8 virtual machine whose interpreter is verified against a
//! mathematical model of the instruction set.
//!
//! * [`machine`] holds the model: the architectural state as plain
//!   sequences and integers, what each instruction does to it, and when
//!   an instruction faults.
//! * [`opcode`] decodes a 16-bit instruction word.
//! * [`ram`] and [`font`] are the memory and the built-in glyph table.
//! * [`chip8`] is the executable machine; every method states which
//!   transition of the model it performs.
//! * [`random`] is the random source of the `Cxkk` instruction.
//! * [`laws`] proves properties of the instruction set from the model.
pub mod ram;
pub mod font;
pub mod opcode;
pub mod machine;
pub mod random;
pub mod chip8;
pub mod laws;
