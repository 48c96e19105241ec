//! Decode stage of a small instruction-set emulator: raw 32-bit words become
//! validated, typed instructions.

pub mod decode;
pub mod machine;

pub use decode::{decode, Error, Instruction, Operation, RegisterID, Word};
pub use machine::{render_state, Machine, Registers};
