use vole_disassembly::{
    byte_text, decode_instruction, parse_byte_text, rotate_right, solve, DisassemblyMachine,
    DisassemblyMachineState, Instruction, MEMORY_SIZE, TIMER_START,
};

fn machine_with(cells: &[(usize, &str)]) -> DisassemblyMachine {
    let mut m = DisassemblyMachine::new();
    for (addr, text) in cells {
        m.memory[*addr] = text.to_string();
    }
    m
}

fn error_count(m: &DisassemblyMachine) -> usize {
    m.get_logs().iter().filter(|e| e.starts_with("Error: ")).count()
}

#[test]
fn new_machine_is_blank_and_stopped() {
    let m = DisassemblyMachine::new();
    assert_eq!(m.memory.len(), MEMORY_SIZE);
    assert!(m.memory.iter().all(|c| c.is_empty()));
    assert_eq!(m.cpu, [0u8; 16]);
    assert_eq!(m.get_counter(), 0);
    assert_eq!(m.get_timer(), 500);
    assert_eq!(m.get_state(), DisassemblyMachineState::Stopped);
    assert!(m.get_logs().is_empty());
    assert!(!m.log_updated());
}

#[test]
fn parse_accepts_hex_bytes() {
    assert_eq!(parse_byte_text("0xAB"), Some(0xAB));
    assert_eq!(parse_byte_text("0xab"), Some(0xAB));
    assert_eq!(parse_byte_text("0X0a"), Some(0x0A));
    assert_eq!(parse_byte_text("  0x1F \t"), Some(0x1F));
    assert_eq!(parse_byte_text("ff"), Some(0xFF));
    assert_eq!(parse_byte_text("5"), Some(5));
    assert_eq!(parse_byte_text("0x00"), Some(0));
}

#[test]
fn parse_rejects_malformed_text() {
    assert_eq!(parse_byte_text(""), None);
    assert_eq!(parse_byte_text("   "), None);
    assert_eq!(parse_byte_text("0x"), None);
    assert_eq!(parse_byte_text("0x100"), None);
    assert_eq!(parse_byte_text("zz"), None);
    assert_eq!(parse_byte_text("0xG1"), None);
    assert_eq!(parse_byte_text("+5"), None);
    assert_eq!(parse_byte_text("0x0x05"), None);
    assert_eq!(parse_byte_text("1 2"), None);
    assert_eq!(parse_byte_text("0x005"), None);
    assert_eq!(parse_byte_text("000"), None);
}

#[test]
fn every_stored_text_reads_back() {
    for v in 0..=255u8 {
        assert_eq!(parse_byte_text(&byte_text(v)), Some(v));
    }
}

#[test]
fn stored_text_is_two_upper_case_digits() {
    assert_eq!(byte_text(0x1F), "0x1F");
    assert_eq!(byte_text(5), "0x05");
    assert_eq!(byte_text(0), "0x00");
    assert_eq!(byte_text(0xAB), "0xAB");
}

#[test]
fn valid_cell_decodes_without_logging() {
    let mut m = machine_with(&[(3, "0xAB")]);
    assert_eq!(m.get_vole_code(3), 0xAB);
    assert!(m.get_logs().is_empty());
    assert!(!m.log_updated());
}

#[test]
fn malformed_cell_decodes_to_zero_with_one_error() {
    let mut m = machine_with(&[(0x1A, "hello")]);
    assert_eq!(m.get_vole_code(0x1A), 0);
    assert_eq!(m.get_logs().len(), 1);
    assert_eq!(m.get_logs()[0], "Error: Invalid vole code at 0x1A");
    assert!(m.log_updated());
}

#[test]
fn cell_outside_memory_decodes_to_zero_with_one_error() {
    let mut m = DisassemblyMachine::new();
    assert_eq!(m.get_vole_code(255), 0);
    assert_eq!(m.get_logs().len(), 1);
    assert_eq!(m.get_logs()[0], "Error: Invalid vole code at 0xFF");
}

#[test]
fn load_immediate_step() {
    let mut m = machine_with(&[(0, "0x21"), (1, "0x05")]);
    m.update_state(DisassemblyMachineState::Running);
    solve(&mut m);
    assert_eq!(m.cpu[1], 5);
    assert_eq!(m.get_counter(), 2);
    assert_eq!(m.get_timer(), 499);
    assert_eq!(m.get_state(), DisassemblyMachineState::Running);
    assert!(m.get_logs().is_empty());
}

#[test]
fn clean_halt_stops_without_error() {
    let mut m = machine_with(&[(4, "0xC0"), (5, "0x00")]);
    m.set_counter(4);
    m.update_state(DisassemblyMachineState::Running);
    solve(&mut m);
    assert_eq!(m.get_state(), DisassemblyMachineState::Stopped);
    assert_eq!(error_count(&m), 0);
    assert!(m.get_logs().is_empty());
    assert_eq!(m.get_counter(), 4);
}

#[test]
fn malformed_halt_stops_with_one_error() {
    let mut m = machine_with(&[(0, "0xC1"), (1, "0x01")]);
    m.update_state(DisassemblyMachineState::Running);
    solve(&mut m);
    assert_eq!(m.get_state(), DisassemblyMachineState::Stopped);
    assert_eq!(m.get_logs().len(), 1);
    assert_eq!(
        m.get_logs()[0],
        "Error: Invalid vole code at 0x00: opcode 0xC must be followed by 0"
    );
}

#[test]
fn halt_with_only_operand_set_is_malformed() {
    let mut m = machine_with(&[(0, "0xC0"), (1, "0x01")]);
    m.update_state(DisassemblyMachineState::Running);
    solve(&mut m);
    assert_eq!(m.get_state(), DisassemblyMachineState::Stopped);
    assert_eq!(error_count(&m), 1);
}

#[test]
fn full_reset_twice_equals_once() {
    let mut m = machine_with(&[(0, "0x21"), (1, "0x05"), (9, "junk")]);
    m.run();
    solve(&mut m);
    m.set_timer(1200);
    m.reset_all();
    let memory = m.memory.clone();
    let cpu = m.cpu;
    let logs = m.get_logs().clone();
    let (counter, timer, state, upd) = (m.get_counter(), m.get_timer(), m.get_state(), m.log_updated());
    m.reset_all();
    assert_eq!(m.memory, memory);
    assert_eq!(m.cpu, cpu);
    assert_eq!(m.get_logs(), &logs);
    assert_eq!((m.get_counter(), m.get_timer(), m.get_state(), m.log_updated()), (counter, timer, state, upd));
    assert!(m.memory.iter().all(|c| c.is_empty()));
    assert_eq!(m.memory.len(), 255);
    assert_eq!(m.cpu, [0u8; 16]);
    assert_eq!(counter, 0);
    assert_eq!(timer, TIMER_START);
    assert!(logs.is_empty());
    assert_eq!(state, DisassemblyMachineState::Stopped);
}

#[test]
fn soft_reset_keeps_memory_counter_and_state() {
    let mut m = machine_with(&[(7, "0x33")]);
    m.cpu[3] = 9;
    m.set_counter(6);
    m.set_timer(12);
    m.update_state(DisassemblyMachineState::Running);
    m.log_warning("careful");
    m.reset();
    assert_eq!(m.memory[7], "0x33");
    assert_eq!(m.get_counter(), 6);
    assert_eq!(m.get_state(), DisassemblyMachineState::Running);
    assert_eq!(m.cpu, [0u8; 16]);
    assert_eq!(m.get_timer(), 500);
    assert!(m.get_logs().is_empty());
    assert!(!m.log_updated());
}

#[test]
fn store_then_load_round_trip() {
    // R3 := 0x5A, store R3 to cell 0x40, load cell 0x40 into R7
    let mut m = machine_with(&[(0, "0x33"), (1, "0x40"), (2, "0x17"), (3, "0x40")]);
    m.cpu[3] = 0x5A;
    solve(&mut m);
    assert_eq!(m.memory[0x40], "0x5A");
    assert_eq!(m.get_counter(), 2);
    solve(&mut m);
    assert_eq!(m.cpu[7], 0x5A);
    assert_eq!(m.get_counter(), 4);
    assert!(m.get_logs().is_empty());
}

#[test]
fn load_reads_through_the_addressed_cell() {
    let mut m = machine_with(&[(0, "0x12"), (1, "0x20"), (0x20, " 0x7e ")]);
    solve(&mut m);
    assert_eq!(m.cpu[2], 0x7E);
}

#[test]
fn store_outside_memory_stops() {
    let mut m = machine_with(&[(0, "0x31"), (1, "0xFF")]);
    m.update_state(DisassemblyMachineState::Running);
    solve(&mut m);
    assert_eq!(m.get_state(), DisassemblyMachineState::Stopped);
    assert_eq!(
        m.get_logs()[0],
        "Error: Invalid vole code at 0x00: store address 0xFF is outside memory"
    );
    assert_eq!(m.get_counter(), 0);
}

#[test]
fn add_is_commutative_in_operand_order() {
    let mut a = machine_with(&[(0, "0x50"), (1, "0x12")]);
    let mut b = machine_with(&[(0, "0x50"), (1, "0x21")]);
    for m in [&mut a, &mut b] {
        m.cpu[1] = 100;
        m.cpu[2] = 55;
        solve(m);
    }
    assert_eq!(a.cpu[0], 155);
    assert_eq!(a.cpu, b.cpu);
    assert_eq!(a.get_counter(), b.get_counter());
}

#[test]
fn add_overflow_stops_and_keeps_registers() {
    let mut m = machine_with(&[(0, "0x53"), (1, "0x12")]);
    m.cpu[1] = 255;
    m.cpu[2] = 1;
    m.cpu[3] = 42;
    m.update_state(DisassemblyMachineState::Running);
    let before = m.cpu;
    solve(&mut m);
    assert_eq!(m.cpu, before);
    assert_eq!(m.get_state(), DisassemblyMachineState::Stopped);
    assert_eq!(m.get_logs().len(), 1);
    assert_eq!(
        m.get_logs()[0],
        "Error: Invalid vole code at 0x00: overflow in opcode 0x5"
    );
    assert_eq!(m.get_counter(), 0);
    assert_eq!(m.get_timer(), 500);
}

#[test]
fn branch_taken_jumps_and_ticks_timer_once() {
    let mut m = machine_with(&[(0, "0xB4"), (1, "0x30")]);
    m.cpu[0] = 7;
    m.cpu[4] = 7;
    solve(&mut m);
    assert_eq!(m.get_counter(), 0x30);
    assert_eq!(m.get_timer(), 499);
}

#[test]
fn branch_not_taken_advances_by_two() {
    let mut m = machine_with(&[(0, "0xB4"), (1, "0x30")]);
    m.cpu[0] = 7;
    m.cpu[4] = 8;
    solve(&mut m);
    assert_eq!(m.get_counter(), 2);
    assert_eq!(m.get_timer(), 499);
}

#[test]
fn timer_stays_at_zero() {
    let mut m = machine_with(&[(0, "0x21"), (1, "0x05")]);
    m.set_timer(0);
    solve(&mut m);
    assert_eq!(m.get_timer(), 0);
    m.set_timer(1);
    m.timer_dec();
    assert_eq!(m.get_timer(), 0);
    m.timer_dec();
    assert_eq!(m.get_timer(), 0);
}

#[test]
fn rotate_with_nonzero_high_nibble_stops() {
    let mut m = machine_with(&[(0, "0xA2"), (1, "0x13")]);
    m.cpu[2] = 0b1000_0001;
    m.update_state(DisassemblyMachineState::Running);
    let before = m.cpu;
    solve(&mut m);
    assert_eq!(m.cpu, before);
    assert_eq!(m.get_state(), DisassemblyMachineState::Stopped);
    assert_eq!(error_count(&m), 1);
}

#[test]
fn rotate_step() {
    let mut m = machine_with(&[(0, "0xA2"), (1, "0x03")]);
    m.cpu[2] = 0b0000_1111;
    solve(&mut m);
    assert_eq!(m.cpu[2], 0b1110_0001);
    assert_eq!(m.get_counter(), 2);
}

#[test]
fn rotate_right_values() {
    assert_eq!(rotate_right(0x01, 1), 0x80);
    assert_eq!(rotate_right(0xAB, 0), 0xAB);
    assert_eq!(rotate_right(0xAB, 8), 0xAB);
    assert_eq!(rotate_right(0x01, 9), 0x80);
    assert_eq!(rotate_right(0x0F, 4), 0xF0);
    assert_eq!(rotate_right(0b1000_0000, 7), 0b0000_0001);
}

#[test]
fn move_copies_register() {
    let mut m = machine_with(&[(0, "0x40"), (1, "0x3A")]);
    m.cpu[3] = 0x99;
    solve(&mut m);
    assert_eq!(m.cpu[0xA], 0x99);
    assert_eq!(m.get_counter(), 2);
}

#[test]
fn move_with_nonzero_register_stops() {
    let mut m = machine_with(&[(0, "0x41"), (1, "0x3A")]);
    m.update_state(DisassemblyMachineState::Running);
    solve(&mut m);
    assert_eq!(m.get_state(), DisassemblyMachineState::Stopped);
    assert_eq!(
        m.get_logs()[0],
        "Error: Invalid vole code at 0x00: opcode 0x4 must be followed by 0"
    );
}

#[test]
fn reserved_opcode_stops() {
    let mut m = machine_with(&[(0, "0x60"), (1, "0x00")]);
    m.update_state(DisassemblyMachineState::Running);
    solve(&mut m);
    assert_eq!(m.get_state(), DisassemblyMachineState::Stopped);
    assert_eq!(
        m.get_logs()[0],
        "Error: Invalid vole code at 0x00: Developing opcode 0x6"
    );
}

#[test]
fn bitwise_ops() {
    let mut m = machine_with(&[
        (0, "0x70"),
        (1, "0x12"),
        (2, "0x83"),
        (3, "0x12"),
        (4, "0x94"),
        (5, "0x12"),
    ]);
    m.cpu[1] = 0b1100_1010;
    m.cpu[2] = 0b1010_0110;
    solve(&mut m);
    solve(&mut m);
    solve(&mut m);
    assert_eq!(m.cpu[0], 0b1110_1110);
    assert_eq!(m.cpu[3], 0b1000_0010);
    assert_eq!(m.cpu[4], 0b0110_1100);
    assert_eq!(m.get_counter(), 6);
    assert_eq!(m.get_timer(), 497);
}

#[test]
fn unrecognized_opcode_stops() {
    let mut m = machine_with(&[(2, "0xD3"), (3, "0x00")]);
    m.set_counter(2);
    m.update_state(DisassemblyMachineState::Running);
    solve(&mut m);
    assert_eq!(m.get_state(), DisassemblyMachineState::Stopped);
    assert_eq!(
        m.get_logs()[0],
        "Error: Invalid vole code at 0x02: opcode 0xD3 not recognized"
    );
    assert_eq!(m.get_counter(), 2);
}

#[test]
fn blank_cells_log_and_stop() {
    let mut m = DisassemblyMachine::new();
    m.update_state(DisassemblyMachineState::Running);
    solve(&mut m);
    assert_eq!(m.get_state(), DisassemblyMachineState::Stopped);
    assert_eq!(m.get_logs().len(), 3);
    assert_eq!(m.get_logs()[0], "Error: Invalid vole code at 0x00");
    assert_eq!(m.get_logs()[1], "Error: Invalid vole code at 0x01");
    assert_eq!(
        m.get_logs()[2],
        "Error: Invalid vole code at 0x00: opcode 0x00 not recognized"
    );
}

#[test]
fn counter_near_the_top_saturates() {
    let mut m = machine_with(&[(253, "0x21"), (254, "0x05")]);
    m.set_counter(253);
    solve(&mut m);
    assert_eq!(m.cpu[1], 5);
    assert_eq!(m.get_counter(), 255);
    let mut m = machine_with(&[(254, "0x21")]);
    m.set_counter(254);
    solve(&mut m);
    assert_eq!(m.get_logs()[0], "Error: Invalid vole code at 0xFF");
    assert_eq!(m.cpu[1], 0);
    assert_eq!(m.get_counter(), 255);
}

#[test]
fn run_resets_and_starts() {
    let mut m = machine_with(&[(0, "0x21")]);
    m.cpu[5] = 3;
    m.set_counter(0x10);
    m.log_error("old");
    m.run();
    assert_eq!(m.get_state(), DisassemblyMachineState::Running);
    assert_eq!(m.cpu, [0u8; 16]);
    assert_eq!(m.get_counter(), 0x10);
    assert_eq!(m.get_logs().len(), 1);
    assert_eq!(m.get_logs()[0], "Info: Disassembler is running from 10");
    assert!(m.log_updated());
    m.clear_log_update();
    assert!(!m.log_updated());
}

#[test]
fn auto_step_only_while_running() {
    let mut m = machine_with(&[(0, "0x21"), (1, "0x05")]);
    m.auto_step();
    assert_eq!(m.cpu[1], 0);
    assert_eq!(m.get_counter(), 0);
    m.debug_step();
    assert_eq!(m.cpu[1], 5);
    m.set_counter(0);
    m.cpu[1] = 0;
    m.update_state(DisassemblyMachineState::Running);
    m.auto_step();
    assert_eq!(m.cpu[1], 5);
    assert_eq!(m.get_counter(), 2);
}

#[test]
fn log_entries_carry_severity() {
    let mut m = DisassemblyMachine::new();
    m.log_info("a");
    m.log_warning("b");
    m.log_error("c");
    assert_eq!(m.get_logs().as_slice(), ["Info: a", "Warning: b", "Error: c"]);
    assert!(m.log_updated());
}

#[test]
fn decode_splits_nibbles() {
    assert_eq!(decode_instruction(0x21, 0x05), Instruction::LoadImmediate { reg: 1, value: 5 });
    assert_eq!(decode_instruction(0x4F, 0x3A), Instruction::Move { reg: 0xF, from: 3, to: 0xA });
    assert_eq!(decode_instruction(0x53, 0x12), Instruction::Add { reg: 3, left: 1, right: 2 });
    assert_eq!(decode_instruction(0xA2, 0x13), Instruction::RotateRight { reg: 2, guard: 1, amount: 3 });
    assert_eq!(decode_instruction(0xB4, 0x30), Instruction::BranchEq { reg: 4, target: 0x30 });
    assert_eq!(decode_instruction(0x05, 0x00), Instruction::Unrecognized { opcode: 0x05 });
    assert_eq!(decode_instruction(0xF0, 0x00), Instruction::Unrecognized { opcode: 0xF0 });
}

#[test]
fn cell_with_three_digits_decodes_to_zero_with_one_error() {
    let mut m = machine_with(&[(4, "0x005")]);
    assert_eq!(m.get_vole_code(4), 0);
    assert_eq!(m.get_logs().len(), 1);
    assert_eq!(m.get_logs()[0], "Error: Invalid vole code at 0x04");
}

#[test]
fn setters_write_one_cell_and_one_register() {
    let mut m = DisassemblyMachine::new();
    m.set_cell(7, "0x2A".to_string());
    m.set_register(9, 0x2A);
    assert_eq!(m.memory[7], "0x2A");
    assert!(m.memory.iter().enumerate().all(|(i, c)| i == 7 || c.is_empty()));
    assert_eq!(m.get_register(9), 0x2A);
    assert_eq!(m.cpu.iter().filter(|&&r| r != 0).count(), 1);
}
