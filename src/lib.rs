//! Bit-exact codec for 32-bit instruction words: condition field, instruction
//! class, data-processing sub-form and mnemonic, each with a decoder and an
//! overlaying encoder, over a common bit-field primitive.
pub mod bitfield;
pub mod class;
pub mod cond;
pub mod mnemonic;
pub mod registers;
pub mod subform;

pub use bitfield::{read_bits, set_bits, BitFieldError};
pub use class::InstructionClasses;
pub use cond::Condition;
pub use mnemonic::InstructionSet;
pub use registers::CpuRegisters;
pub use subform::DataProcessing;
