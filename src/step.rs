//! What one fetch-decode-execute step does to the machine.
use vstd::prelude::*;
use crate::cell::{hex2, text_of_byte};
use crate::instruction::{instruction_of, rotr8, Instruction};
use crate::machine::{invalid_at, DisassemblyMachineState, MachineView};

verus! {

/// Where the operand byte is fetched from; past the top of the address
/// space it stays at 255, which lies outside memory.
pub open spec fn operand_addr(pc: u8) -> u8 {
    if pc < 255 {
        (pc + 1) as u8
    } else {
        255
    }
}

/// The counter after an instruction pair, held at 255 at the top.
pub open spec fn after_pair(pc: u8) -> u8 {
    if pc < 254 {
        (pc + 2) as u8
    } else {
        255
    }
}

impl MachineView {
    /// Past the instruction pair, one timer tick spent.
    pub open spec fn advanced(self) -> MachineView {
        MachineView { counter: after_pair(self.counter), ..self }.timer_ticked()
    }
}

/// The effect of one decoded instruction on a machine whose counter still
/// points at it.
pub open spec fn execute(m: MachineView, instr: Instruction) -> MachineView {
    let here = invalid_at(m.counter);
    match instr {
        Instruction::Load { reg, addr } => {
            let (m1, v) = m.read_cell(addr);
            m1.with_reg(reg, v).advanced()
        },
        Instruction::LoadImmediate { reg, value } => m.with_reg(reg, value).advanced(),
        Instruction::Store { reg, addr } => {
            if (addr as int) < m.memory.len() {
                MachineView {
                    memory: m.memory.update(addr as int, text_of_byte(m.cpu[reg as int])),
                    ..m
                }.advanced()
            } else {
                m.fail(here + ": store address 0x"@ + hex2(addr) + " is outside memory"@)
            }
        },
        Instruction::Move { reg, from, to } => {
            if reg == 0 {
                m.with_reg(to, m.cpu[from as int]).advanced()
            } else {
                m.fail(here + ": opcode 0x4 must be followed by 0"@)
            }
        },
        Instruction::Add { reg, left, right } => {
            if m.cpu[left as int] + m.cpu[right as int] <= 255 {
                m.with_reg(reg, (m.cpu[left as int] + m.cpu[right as int]) as u8).advanced()
            } else {
                m.fail(here + ": overflow in opcode 0x5"@)
            }
        },
        Instruction::Reserved => m.fail(here + ": Developing opcode 0x6"@),
        Instruction::Or { reg, left, right } => m.with_reg(
            reg,
            m.cpu[right as int] | m.cpu[left as int],
        ).advanced(),
        Instruction::And { reg, left, right } => m.with_reg(
            reg,
            m.cpu[right as int] & m.cpu[left as int],
        ).advanced(),
        Instruction::Xor { reg, left, right } => m.with_reg(
            reg,
            m.cpu[right as int] ^ m.cpu[left as int],
        ).advanced(),
        Instruction::RotateRight { reg, guard, amount } => {
            if guard == 0 {
                m.with_reg(reg, rotr8(m.cpu[reg as int], amount)).advanced()
            } else {
                m.fail(here + ": opcode 0xA must be followed by 0"@)
            }
        },
        Instruction::BranchEq { reg, target } => {
            if m.cpu[reg as int] == m.cpu[0] {
                MachineView { counter: target, ..m }.timer_ticked()
            } else {
                m.advanced()
            }
        },
        Instruction::Halt { reg, operand } => {
            if reg == 0 && operand == 0 {
                MachineView { state: DisassemblyMachineState::Stopped, ..m }
            } else {
                m.fail(here + ": opcode 0xC must be followed by 0"@)
            }
        },
        Instruction::Unrecognized { opcode } => m.fail(
            here + ": opcode 0x"@ + hex2(opcode) + " not recognized"@,
        ),
    }
}

/// One step: fetch the opcode byte at the counter and the operand byte
/// after it, then execute the instruction they encode.
pub open spec fn step(m: MachineView) -> MachineView {
    let (m1, op) = m.read_cell(m.counter);
    let (m2, arg) = m1.read_cell(operand_addr(m.counter));
    execute(m2, instruction_of(op, arg))
}

} // verus!
