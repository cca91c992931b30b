//! A small teaching CPU (the "Vole machine"): 255 memory cells holding hex
//! text, sixteen byte registers, a program counter, a countdown timer, a
//! run/stop flag and an append-only log.

pub mod cell;
pub mod instruction;
pub mod lemmas;
pub mod machine;
pub mod step;

pub use cell::{byte_text, parse_byte_text};
pub use machine::{solve, DisassemblyMachine, DisassemblyMachineState, MachineView, MEMORY_SIZE, TIMER_MAX, TIMER_START};
pub use instruction::{decode_instruction, rotate_right, Instruction};
