//! The machine's state, its lifecycle operations and its log.
use vstd::prelude::*;
use crate::cell::{byte_of_text, byte_text, hex2, hex2_text, parse_byte_text, text_of_byte};
use crate::instruction::{decode_instruction, rotate_right, Instruction};
use crate::step::step;

verus! {

/// Number of memory cells.
pub const MEMORY_SIZE: usize = 255;

/// Timer value after creation and after every reset.
pub const TIMER_START: u16 = 500;

/// Largest timer value a host may set.
pub const TIMER_MAX: u16 = 1500;

/// Whether the host keeps stepping the machine on its own.
#[derive(Debug, Clone, Copy, PartialEq, Eq, Structural)]
pub enum DisassemblyMachineState {
    Running,
    Stopped,
}

/// The whole machine as mathematical values: each memory cell and log entry
/// as its characters.
pub struct MachineView {
    pub memory: Seq<Seq<char>>,
    pub cpu: Seq<u8>,
    pub counter: u8,
    pub timer: u16,
    pub state: DisassemblyMachineState,
    pub logs: Seq<Seq<char>>,
    pub log_update: bool,
}

/// `Error: ` and the message, as one log entry.
pub open spec fn error_entry(msg: Seq<char>) -> Seq<char> {
    "Error: "@ + msg
}

/// The start of every message about the instruction or cell at `addr`.
pub open spec fn invalid_at(addr: u8) -> Seq<char> {
    "Invalid vole code at 0x"@ + hex2(addr)
}

impl MachineView {
    /// Registers zero, timer back at its start, log empty.
    pub open spec fn soft_reset(self) -> MachineView {
        MachineView {
            cpu: Seq::new(16, |i: int| 0u8),
            timer: TIMER_START,
            logs: Seq::empty(),
            log_update: false,
            ..self
        }
    }

    /// A soft reset that also blanks memory, rewinds the counter and stops.
    pub open spec fn full_reset(self) -> MachineView {
        MachineView {
            memory: Seq::new(MEMORY_SIZE as nat, |i: int| Seq::<char>::empty()),
            counter: 0,
            state: DisassemblyMachineState::Stopped,
            ..self.soft_reset()
        }
    }

    /// The one entry appended to the log, with the update flag raised.
    pub open spec fn log(self, entry: Seq<char>) -> MachineView {
        MachineView { logs: self.logs.push(entry), log_update: true, ..self }
    }

    /// A fatal error: logged, and the machine stopped.
    pub open spec fn fail(self, msg: Seq<char>) -> MachineView {
        MachineView { state: DisassemblyMachineState::Stopped, ..self.log(error_entry(msg)) }
    }

    /// The timer one lower, but never below zero.
    pub open spec fn timer_ticked(self) -> MachineView {
        MachineView { timer: if self.timer > 0 { (self.timer - 1) as u16 } else { 0 }, ..self }
    }

    /// The byte in the cell at `addr` and the machine after reading it: an
    /// address outside memory or text that is no byte reads as 0, with one
    /// error logged.
    pub open spec fn read_cell(self, addr: u8) -> (MachineView, u8) {
        if (addr as int) < self.memory.len() && byte_of_text(self.memory[addr as int]) is Some {
            (self, byte_of_text(self.memory[addr as int])->0)
        } else {
            (self.log(error_entry(invalid_at(addr))), 0)
        }
    }

    /// The state a machine is created in.
    pub open spec fn initial() -> MachineView {
        MachineView {
            memory: Seq::new(MEMORY_SIZE as nat, |i: int| Seq::<char>::empty()),
            cpu: Seq::new(16, |i: int| 0u8),
            counter: 0,
            timer: TIMER_START,
            state: DisassemblyMachineState::Stopped,
            logs: Seq::empty(),
            log_update: false,
        }
    }

    pub open spec fn with_reg(self, reg: u8, v: u8) -> MachineView {
        MachineView { cpu: self.cpu.update(reg as int, v), ..self }
    }
}

/// The characters of each string.
pub open spec fn texts(v: Seq<String>) -> Seq<Seq<char>> {
    v.map_values(|s: String| s@)
}

/// The machine: memory cells as text, sixteen byte registers, the counter
/// of the next opcode cell, a countdown timer, the run/stop flag and a log.
pub struct DisassemblyMachine {
    pub memory: Vec<String>,
    pub cpu: [u8; 16],
    counter: u8,
    timer: u16,
    log_update: bool,
    logs: Vec<String>,
    state: DisassemblyMachineState,
}

impl View for DisassemblyMachine {
    type V = MachineView;

    closed spec fn view(&self) -> MachineView {
        MachineView {
            memory: texts(self.memory@),
            cpu: self.cpu@,
            counter: self.counter,
            timer: self.timer,
            state: self.state,
            logs: texts(self.logs@),
            log_update: self.log_update,
        }
    }
}

/// Every machine has sixteen registers.
pub proof fn lemma_sixteen_registers(m: &DisassemblyMachine)
    ensures
        m@.cpu.len() == 16,
{
}

/// `MEMORY_SIZE` blank cells.
fn blank_memory() -> (r: Vec<String>)
    ensures
        texts(r@) == Seq::new(MEMORY_SIZE as nat, |i: int| Seq::<char>::empty()),
{
    let mut memory: Vec<String> = Vec::new();
    let mut i: usize = 0;
    while i < MEMORY_SIZE
        invariant
            i <= MEMORY_SIZE,
            memory@.len() == i,
            forall|k: int| 0 <= k < i ==> (#[trigger] memory@[k])@ == Seq::<char>::empty(),
        decreases MEMORY_SIZE - i,
    {
        memory.push(String::new());
        i = i + 1;
    }
    assert(texts(memory@) =~= Seq::new(MEMORY_SIZE as nat, |i: int| Seq::<char>::empty()));
    memory
}

/// The text `Invalid vole code at 0x` and the address in hex.
pub(crate) fn invalid_at_text(addr: u8) -> (r: String)
    ensures
        r@ == invalid_at(addr),
{
    let mut r = String::from_str("Invalid vole code at 0x");
    let digits = hex2_text(addr);
    r.append(digits.as_str());
    r
}

impl DisassemblyMachine {
    /// A machine with blank memory, zero registers and counter, the timer at
    /// its start value, stopped, with an empty log.
    pub fn new() -> (r: Self)
        ensures
            r@ == MachineView::initial(),
    {
        let r = DisassemblyMachine {
            memory: blank_memory(),
            cpu: [0u8; 16],
            counter: 0,
            timer: TIMER_START,
            log_update: false,
            logs: Vec::new(),
            state: DisassemblyMachineState::Stopped,
        };
        assert(r.cpu@ =~= Seq::new(16, |i: int| 0u8));
        assert(texts(r.logs@) =~= Seq::<Seq<char>>::empty());
        r
    }

    pub fn update_state(&mut self, state: DisassemblyMachineState)
        ensures
            final(self)@ == (MachineView { state, ..old(self)@ }),
    {
        self.state = state;
    }

    pub fn get_state(&self) -> (r: DisassemblyMachineState)
        ensures
            r == self@.state,
    {
        self.state
    }

    /// Soft reset: registers, timer and log are cleared; memory, counter and
    /// run state are kept.
    pub fn reset(&mut self)
        ensures
            final(self)@ == old(self)@.soft_reset(),
    {
        self.cpu = [0u8; 16];
        self.timer = TIMER_START;
        self.log_update = false;
        self.logs = Vec::new();
        assert(self.cpu@ =~= Seq::new(16, |i: int| 0u8));
        assert(texts(self.logs@) =~= Seq::<Seq<char>>::empty());
    }

    /// Full reset: a soft reset, blank memory, counter 0, stopped.
    pub fn reset_all(&mut self)
        ensures
            final(self)@ == old(self)@.full_reset(),
    {
        self.reset();
        self.memory = blank_memory();
        self.counter = 0;
        self.state = DisassemblyMachineState::Stopped;
    }

    pub fn get_counter(&self) -> (r: u8)
        ensures
            r == self@.counter,
    {
        self.counter
    }

    pub fn set_counter(&mut self, counter: u8)
        ensures
            final(self)@ == (MachineView { counter, ..old(self)@ }),
    {
        self.counter = counter;
    }

    /// Replaces the text of one memory cell.
    pub fn set_cell(&mut self, addr: usize, text: String)
        requires
            addr < old(self)@.memory.len(),
        ensures
            final(self)@ == (MachineView {
                memory: old(self)@.memory.update(addr as int, text@),
                ..old(self)@
            }),
    {
        let ghost before = self@;
        let ghost t = text@;
        self.memory[addr] = text;
        assert(texts(self.memory@) =~= before.memory.update(addr as int, t));
    }

    pub fn get_register(&self, reg: usize) -> (r: u8)
        requires
            reg < 16,
        ensures
            r == self@.cpu[reg as int],
    {
        self.cpu[reg]
    }

    pub fn set_register(&mut self, reg: usize, value: u8)
        requires
            reg < 16,
        ensures
            final(self)@ == (MachineView {
                cpu: old(self)@.cpu.update(reg as int, value),
                ..old(self)@
            }),
    {
        self.cpu[reg] = value;
    }

    pub fn get_timer(&self) -> (r: u16)
        ensures
            r == self@.timer,
    {
        self.timer
    }

    /// Sets the timer; a host may choose any value up to `TIMER_MAX`.
    pub fn set_timer(&mut self, timer: u16)
        requires
            timer <= TIMER_MAX,
        ensures
            final(self)@ == (MachineView { timer, ..old(self)@ }),
    {
        self.timer = timer;
    }

    /// Counts the timer down by one, stopping at zero.
    pub fn timer_dec(&mut self)
        ensures
            final(self)@ == old(self)@.timer_ticked(),
    {
        if self.timer > 0 {
            self.timer -= 1;
        }
    }

    /// Reads the byte in the cell at `index`. Text that is no byte, or an
    /// index outside memory, reads as 0 and logs one error naming the
    /// address.
    pub fn get_vole_code(&mut self, index: u8) -> (r: u8)
        ensures
            (final(self)@, r) == old(self)@.read_cell(index),
    {
        if (index as usize) < self.memory.len() {
            let parsed = parse_byte_text(self.memory[index as usize].as_str());
            if let Some(v) = parsed {
                return v;
            }
        }
        let msg = invalid_at_text(index);
        self.log_error(msg.as_str());
        0
    }

    /// The log entries, oldest first.
    pub fn get_logs(&self) -> (r: &Vec<String>)
        ensures
            texts(r@) == self@.logs,
    {
        &self.logs
    }

    /// Whether entries were appended since the flag was last cleared.
    pub fn log_updated(&self) -> (r: bool)
        ensures
            r == self@.log_update,
    {
        self.log_update
    }

    /// Clears the update flag once the new entries have been seen.
    pub fn clear_log_update(&mut self)
        ensures
            final(self)@ == (MachineView { log_update: false, ..old(self)@ }),
    {
        self.log_update = false;
    }

    /// Starts a run: a soft reset, then the running state and an info entry
    /// that names the starting address.
    pub fn run(&mut self)
        ensures
            final(self)@ == (MachineView {
                state: DisassemblyMachineState::Running,
                ..old(self)@.soft_reset()
            }).log("Info: "@ + ("Disassembler is running from "@ + hex2(old(self)@.counter))),
    {
        self.reset();
        self.update_state(DisassemblyMachineState::Running);
        let mut msg = String::from_str("Disassembler is running from ");
        let digits = hex2_text(self.counter);
        msg.append(digits.as_str());
        self.log_info(msg.as_str());
    }

    /// One step, whatever the run state: single-stepping while stopped.
    pub fn debug_step(&mut self)
        ensures
            final(self)@ == step(old(self)@),
    {
        solve(self);
    }

    /// What the host does on each tick: one step while running, nothing
    /// while stopped.
    pub fn auto_step(&mut self)
        ensures
            final(self)@ == if old(self)@.state == DisassemblyMachineState::Running {
                step(old(self)@)
            } else {
                old(self)@
            },
    {
        if self.state == DisassemblyMachineState::Running {
            solve(self);
        }
    }

    fn push_log(&mut self, severity: &str, msg: &str)
        ensures
            final(self)@ == old(self)@.log(severity@ + msg@),
    {
        let ghost before = self@;
        let mut entry = String::from_str(severity);
        entry.append(msg);
        self.logs.push(entry);
        self.log_update = true;
        assert(texts(self.logs@) =~= before.logs.push(severity@ + msg@));
    }

    pub fn log_info(&mut self, info: &str)
        ensures
            final(self)@ == old(self)@.log("Info: "@ + info@),
    {
        self.push_log("Info: ", info);
    }

    pub fn log_error(&mut self, error: &str)
        ensures
            final(self)@ == old(self)@.log(error_entry(error@)),
    {
        self.push_log("Error: ", error);
    }

    pub fn log_warning(&mut self, warning: &str)
        ensures
            final(self)@ == old(self)@.log("Warning: "@ + warning@),
    {
        self.push_log("Warning: ", warning);
    }
}

/// Runs one fetch-decode-execute step.
pub fn solve(machine: &mut DisassemblyMachine)
    ensures
        final(machine)@ == step(old(machine)@),
{
    let counter = machine.get_counter();
    let vole_code = machine.get_vole_code(counter);
    let operand = if counter < 255 {
        counter + 1
    } else {
        255
    };
    let next_vole_code = machine.get_vole_code(operand);
    match decode_instruction(vole_code, next_vole_code) {
        Instruction::Load { reg, addr } => {
            let v = machine.get_vole_code(addr);
            machine.cpu[reg as usize] = v;
        },
        Instruction::LoadImmediate { reg, value } => {
            machine.cpu[reg as usize] = value;
        },
        Instruction::Store { reg, addr } => {
            if (addr as usize) < machine.memory.len() {
                let ghost before = machine@;
                let text = byte_text(machine.cpu[reg as usize]);
                machine.memory[addr as usize] = text;
                assert(texts(machine.memory@) =~= before.memory.update(
                    addr as int,
                    text_of_byte(before.cpu[reg as int]),
                ));
            } else {
                let mut msg = invalid_at_text(counter);
                msg.append(": store address 0x");
                let digits = hex2_text(addr);
                msg.append(digits.as_str());
                msg.append(" is outside memory");
                machine.log_error(msg.as_str());
                machine.update_state(DisassemblyMachineState::Stopped);
                return;
            }
        },
        Instruction::Move { reg, from, to } => {
            if reg == 0 {
                machine.cpu[to as usize] = machine.cpu[from as usize];
            } else {
                let mut msg = invalid_at_text(counter);
                msg.append(": opcode 0x4 must be followed by 0");
                machine.log_error(msg.as_str());
                machine.update_state(DisassemblyMachineState::Stopped);
                return;
            }
        },
        Instruction::Add { reg, left, right } => {
            match machine.cpu[left as usize].checked_add(machine.cpu[right as usize]) {
                Some(v) => {
                    machine.cpu[reg as usize] = v;
                },
                None => {
                    let mut msg = invalid_at_text(counter);
                    msg.append(": overflow in opcode 0x5");
                    machine.log_error(msg.as_str());
                    machine.update_state(DisassemblyMachineState::Stopped);
                    return;
                },
            }
        },
        Instruction::Reserved => {
            let mut msg = invalid_at_text(counter);
            msg.append(": Developing opcode 0x6");
            machine.log_error(msg.as_str());
            machine.update_state(DisassemblyMachineState::Stopped);
            return;
        },
        Instruction::Or { reg, left, right } => {
            machine.cpu[reg as usize] = machine.cpu[right as usize] | machine.cpu[left as usize];
        },
        Instruction::And { reg, left, right } => {
            machine.cpu[reg as usize] = machine.cpu[right as usize] & machine.cpu[left as usize];
        },
        Instruction::Xor { reg, left, right } => {
            machine.cpu[reg as usize] = machine.cpu[right as usize] ^ machine.cpu[left as usize];
        },
        Instruction::RotateRight { reg, guard, amount } => {
            if guard == 0 {
                machine.cpu[reg as usize] = rotate_right(machine.cpu[reg as usize], amount);
            } else {
                let mut msg = invalid_at_text(counter);
                msg.append(": opcode 0xA must be followed by 0");
                machine.log_error(msg.as_str());
                machine.update_state(DisassemblyMachineState::Stopped);
                return;
            }
        },
        Instruction::BranchEq { reg, target } => {
            if machine.cpu[reg as usize] == machine.cpu[0] {
                machine.set_counter(target);
                machine.timer_dec();
                return;
            }
        },
        Instruction::Halt { reg, operand } => {
            if reg == 0 && operand == 0 {
                machine.update_state(DisassemblyMachineState::Stopped);
            } else {
                let mut msg = invalid_at_text(counter);
                msg.append(": opcode 0xC must be followed by 0");
                machine.log_error(msg.as_str());
                machine.update_state(DisassemblyMachineState::Stopped);
            }
            return;
        },
        Instruction::Unrecognized { opcode } => {
            let mut msg = invalid_at_text(counter);
            msg.append(": opcode 0x");
            let digits = hex2_text(opcode);
            msg.append(digits.as_str());
            msg.append(" not recognized");
            machine.log_error(msg.as_str());
            machine.update_state(DisassemblyMachineState::Stopped);
            return;
        },
    }
    let next = if counter < 254 {
        counter + 2
    } else {
        255
    };
    machine.set_counter(next);
    machine.timer_dec();
}

} // verus!
