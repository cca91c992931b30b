//! Decoding an opcode byte and its operand byte into one of the twelve
//! operations, and the rotate used by one of them.
use vstd::prelude::*;

verus! {

/// One decoded instruction. `reg` is the low nibble of the opcode byte; the
/// other fields come from the operand byte, whole or split into its high
/// and low nibbles.
#[derive(Debug, Clone, Copy, PartialEq, Eq, Structural)]
pub enum Instruction {
    /// `reg := decode(memory[addr])`
    Load { reg: u8, addr: u8 },
    /// `reg := value`
    LoadImmediate { reg: u8, value: u8 },
    /// `memory[addr] := text of reg`
    Store { reg: u8, addr: u8 },
    /// `register[to] := register[from]`, legal only when `reg` is 0
    Move { reg: u8, from: u8, to: u8 },
    /// `reg := register[left] + register[right]`, failing on overflow
    Add { reg: u8, left: u8, right: u8 },
    /// Not implemented: always stops the machine.
    Reserved,
    /// `reg := register[right] | register[left]`
    Or { reg: u8, left: u8, right: u8 },
    /// `reg := register[right] & register[left]`
    And { reg: u8, left: u8, right: u8 },
    /// `reg := register[right] ^ register[left]`
    Xor { reg: u8, left: u8, right: u8 },
    /// `reg := rotate_right(reg, amount)`, legal only when `guard` is 0
    RotateRight { reg: u8, guard: u8, amount: u8 },
    /// Jump to `target` when `register[reg] == register[0]`.
    BranchEq { reg: u8, target: u8 },
    /// Stop; the encoding is clean when both `reg` and `operand` are 0.
    Halt { reg: u8, operand: u8 },
    /// Any other high nibble.
    Unrecognized { opcode: u8 },
}

/// The instruction that an opcode byte and its operand byte encode.
pub open spec fn instruction_of(op: u8, arg: u8) -> Instruction {
    let reg = op % 16;
    let hi = arg / 16;
    let lo = arg % 16;
    let kind = op / 16;
    if kind == 1 {
        Instruction::Load { reg, addr: arg }
    } else if kind == 2 {
        Instruction::LoadImmediate { reg, value: arg }
    } else if kind == 3 {
        Instruction::Store { reg, addr: arg }
    } else if kind == 4 {
        Instruction::Move { reg, from: hi, to: lo }
    } else if kind == 5 {
        Instruction::Add { reg, left: hi, right: lo }
    } else if kind == 6 {
        Instruction::Reserved
    } else if kind == 7 {
        Instruction::Or { reg, left: hi, right: lo }
    } else if kind == 8 {
        Instruction::And { reg, left: hi, right: lo }
    } else if kind == 9 {
        Instruction::Xor { reg, left: hi, right: lo }
    } else if kind == 10 {
        Instruction::RotateRight { reg, guard: hi, amount: lo }
    } else if kind == 11 {
        Instruction::BranchEq { reg, target: arg }
    } else if kind == 12 {
        Instruction::Halt { reg, operand: arg }
    } else {
        Instruction::Unrecognized { opcode: op }
    }
}

/// Decodes an opcode byte and the operand byte that follows it.
pub fn decode_instruction(op: u8, arg: u8) -> (r: Instruction)
    ensures
        r == instruction_of(op, arg),
{
    let reg = op % 16;
    let hi = arg / 16;
    let lo = arg % 16;
    match op / 16 {
        1 => Instruction::Load { reg, addr: arg },
        2 => Instruction::LoadImmediate { reg, value: arg },
        3 => Instruction::Store { reg, addr: arg },
        4 => Instruction::Move { reg, from: hi, to: lo },
        5 => Instruction::Add { reg, left: hi, right: lo },
        6 => Instruction::Reserved,
        7 => Instruction::Or { reg, left: hi, right: lo },
        8 => Instruction::And { reg, left: hi, right: lo },
        9 => Instruction::Xor { reg, left: hi, right: lo },
        10 => Instruction::RotateRight { reg, guard: hi, amount: lo },
        11 => Instruction::BranchEq { reg, target: arg },
        12 => Instruction::Halt { reg, operand: arg },
        _ => Instruction::Unrecognized { opcode: op },
    }
}

/// `v` rotated right by `s` bits within a byte; `s` counts modulo 8.
pub open spec fn rotr8(v: u8, s: u8) -> u8 {
    let s = s % 8;
    if s == 0 {
        v
    } else {
        ((v >> s) | (v << (8 - s) as u8)) as u8
    }
}

/// Rotates a byte right by `shift` bits, taken modulo 8.
pub fn rotate_right(value: u8, shift: u8) -> (r: u8)
    ensures
        r == rotr8(value, shift),
{
    let shift = shift % 8;
    if shift == 0 {
        value
    } else {
        (value >> shift) | (value << (8 - shift))
    }
}

} // verus!
