//! Facts about reading cells, stepping and resetting, proved over the
//! machine's view.
use vstd::prelude::*;
use crate::cell::{byte_of_text, lemma_byte_text_round_trip, text_of_byte};
use crate::instruction::{instruction_of, Instruction};
use crate::machine::{
    error_entry, invalid_at, lemma_sixteen_registers, DisassemblyMachine, DisassemblyMachineState,
    MachineView,
};
use crate::step::{after_pair, execute, operand_addr, step};

verus! {

/// The cell at `addr` exists and its text reads as `v`.
pub open spec fn holds_byte(m: MachineView, addr: u8, v: u8) -> bool {
    (addr as int) < m.memory.len() && byte_of_text(m.memory[addr as int]) == Some(v)
}

/// A cell that holds the stored text of a byte, such as `0xAB`, reads as
/// that byte and leaves the machine as it was.
pub proof fn lemma_read_stored_byte(m: MachineView, addr: u8, v: u8)
    requires
        (addr as int) < m.memory.len(),
        m.memory[addr as int] == text_of_byte(v),
    ensures
        m.read_cell(addr) == (m, v),
{
    lemma_byte_text_round_trip(v);
}

/// A cell outside memory, or one whose text is no byte, reads as 0,
/// appends exactly one error entry naming the address and changes nothing
/// else.
pub proof fn lemma_read_malformed(m: MachineView, addr: u8)
    requires
        !((addr as int) < m.memory.len() && byte_of_text(m.memory[addr as int]) is Some),
    ensures
        ({
            let (m1, v) = m.read_cell(addr);
            &&& v == 0
            &&& m1.logs == m.logs.push(error_entry(invalid_at(addr)))
            &&& m1.logs.len() == m.logs.len() + 1
            &&& m1 == (MachineView { logs: m1.logs, log_update: true, ..m })
        }),
{
}

/// When both bytes of the pair at the counter read cleanly, a step is the
/// instruction they encode, executed on the machine as it was.
pub proof fn lemma_step_decodes(m: MachineView, op: u8, arg: u8)
    requires
        holds_byte(m, m.counter, op),
        holds_byte(m, operand_addr(m.counter), arg),
    ensures
        step(m) == execute(m, instruction_of(op, arg)),
{
}

/// Storing a register to a cell and then loading that cell back yields the
/// register's value, when both instructions are read cleanly and the load
/// addresses the cell the store wrote.
pub proof fn lemma_store_then_load(m: MachineView, store_op: u8, load_op: u8, cell: u8)
    requires
        m.cpu.len() == 16,
        store_op / 16 == 3,
        load_op / 16 == 1,
        holds_byte(m, m.counter, store_op),
        holds_byte(m, operand_addr(m.counter), cell),
        (cell as int) < m.memory.len(),
        holds_byte(step(m), step(m).counter, load_op),
        holds_byte(step(m), operand_addr(step(m).counter), cell),
    ensures
        step(step(m)).cpu[(load_op % 16) as int] == m.cpu[(store_op % 16) as int],
{
    let m1 = step(m);
    lemma_step_decodes(m, store_op, cell);
    lemma_step_decodes(m1, load_op, cell);
    assert(m1.memory[cell as int] == text_of_byte(m.cpu[(store_op % 16) as int]));
    assert(m1.cpu == m.cpu);
    lemma_byte_text_round_trip(m.cpu[(store_op % 16) as int]);
}

/// Storing a register of a machine to a cell and then loading that cell
/// back yields the register's value, under the conditions above.
pub proof fn lemma_machine_store_then_load(
    m: &DisassemblyMachine,
    store_op: u8,
    load_op: u8,
    cell: u8,
)
    requires
        store_op / 16 == 3,
        load_op / 16 == 1,
        holds_byte(m@, m@.counter, store_op),
        holds_byte(m@, operand_addr(m@.counter), cell),
        (cell as int) < m@.memory.len(),
        holds_byte(step(m@), step(m@).counter, load_op),
        holds_byte(step(m@), operand_addr(step(m@).counter), cell),
    ensures
        step(step(m@)).cpu[(load_op % 16) as int] == m@.cpu[(store_op % 16) as int],
{
    lemma_sixteen_registers(m);
    lemma_store_then_load(m@, store_op, load_op, cell);
}

/// The operand byte with its two nibbles swapped.
pub open spec fn swap_nibbles(arg: u8) -> u8 {
    ((arg % 16) * 16 + arg / 16) as u8
}

/// Addition gives the same machine whichever order its operand byte names
/// the two registers in.
pub proof fn lemma_add_commutes(m: MachineView, op: u8, arg: u8)
    requires
        op / 16 == 5,
    ensures
        execute(m, instruction_of(op, arg)) == execute(m, instruction_of(op, swap_nibbles(arg))),
{
    assert(swap_nibbles(arg) / 16 == arg % 16);
    assert(swap_nibbles(arg) % 16 == arg / 16);
}

/// An addition that does not fit a byte logs one error, stops the machine
/// and leaves every register as it was.
pub proof fn lemma_add_overflow(m: MachineView, reg: u8, left: u8, right: u8)
    requires
        m.cpu[left as int] + m.cpu[right as int] > 255,
    ensures
        ({
            let r = execute(m, Instruction::Add { reg, left, right });
            &&& r.cpu == m.cpu
            &&& r.state == DisassemblyMachineState::Stopped
            &&& r.logs == m.logs.push(
                error_entry(invalid_at(m.counter) + ": overflow in opcode 0x5"@),
            )
        }),
{
}

/// A taken branch sets the counter to its target and ticks the timer once;
/// one not taken moves past the pair as any other instruction does.
pub proof fn lemma_branch(m: MachineView, reg: u8, target: u8)
    ensures
        ({
            let r = execute(m, Instruction::BranchEq { reg, target });
            &&& r.counter == if m.cpu[reg as int] == m.cpu[0] {
                target
            } else {
                after_pair(m.counter)
            }
            &&& m.timer > 0 ==> r.timer == m.timer - 1
            &&& m.timer == 0 ==> r.timer == 0
            &&& r.cpu == m.cpu
            &&& r.memory == m.memory
            &&& r.state == m.state
            &&& r.logs == m.logs
        }),
{
}

/// A rotate whose operand's high nibble is not 0 changes no register and
/// stops the machine.
pub proof fn lemma_rotate_guard(m: MachineView, reg: u8, guard: u8, amount: u8)
    requires
        guard != 0,
    ensures
        ({
            let r = execute(m, Instruction::RotateRight { reg, guard, amount });
            &&& r.cpu == m.cpu
            &&& r.state == DisassemblyMachineState::Stopped
        }),
{
}

/// A full reset twice is a full reset once, and both give the state a new
/// machine starts in.
pub proof fn lemma_full_reset_idempotent(m: MachineView)
    ensures
        m.full_reset().full_reset() == m.full_reset(),
        m.full_reset() == MachineView::initial(),
{
}

} // verus!
