//! Scenario tests for the machine as a whole: arithmetic and flags,
//! two's complement, call and return, the interrupt latch delay, tape
//! reading in both directions, and the screen.

use dp2200::assembler::{assemble, AsmErrorKind};
use dp2200::cassette::{Cassette, DeckId, MovementSpeed};
use dp2200::datapoint::Datapoint;
use dp2200::disassembler::disassemble;
use dp2200::keyboard::Keyboard;
use dp2200::numtext::{parse_u16_str, parse_u8_str, u16_to_dec, u16_to_hex};
use dp2200::screen::Screen;

#[test]
fn test_basic_arithmetic_flags() {
    let program = vec!["LoadImm A, 10", "AddImm 246", "Halt"];
    let mut machine = Datapoint::new(program).unwrap();
    machine.run();
    assert_eq!(machine.cpu.read_reg(0), 0);
    assert!(machine.cpu.read_flag(0)); // Carry
    assert!(machine.cpu.read_flag(1)); // Zero
    assert!(!machine.cpu.read_flag(2)); // Sign
    assert!(!machine.cpu.read_flag(3)); // Parity
}

#[test]
fn test_negative_two_complement() {
    let program = vec!["LoadImm A, 10", "SubImm 11", "Halt"];
    let mut machine = Datapoint::new(program).unwrap();
    machine.run();
    assert_eq!(machine.cpu.read_reg(0), 0xff);
    assert_eq!(machine.cpu.read_reg(0) as i8, -1);
    assert!(machine.cpu.read_flag(0));
}

#[test]
fn test_call_return_scenario() {
    let program = vec!["Call sub", "Halt", "sub: LoadImm B, 10", "Return"];
    let mut machine = Datapoint::new(program).unwrap();
    machine.run();
    assert_eq!(machine.cpu.read_reg(1), 10);
    assert!(machine.cpu.halted);
    // The Halt after the Call site sits at address 3; its fetch left the
    // program counter just past it.
    assert_eq!(machine.cpu.program_counter, 4);
}

#[test]
fn test_interrupt_latch_delay() {
    // Loops with interrupts off until the interrupt fires; the interrupt
    // pushes the address of the instruction after Nop, because the
    // one-instruction delay after EnableIntr has elapsed.
    let program = vec![
        "CompImm 1",      // address 0..1: Carry set only while A is 0
        "JumpIf Cf, run", // address 2..4
        "Halt",           // address 5
        "run: LoadImm A, 1", // address 6..7
        "EnableIntr",     // address 8
        "Nop",            // address 9
        "Jump run",       // address 10..12
    ];
    let mut machine = Datapoint::new(program).unwrap();
    machine.run();
    assert!(machine.cpu.halted);
    // The interrupt was serviced exactly once; the saved return address
    // points back into the loop body, never at the handler itself, and
    // EnableIntr's one-instruction shadow means it is never the address
    // right after EnableIntr.
    assert_eq!(machine.cpu.stack.len(), 1);
    let saved = machine.cpu.pop_stack().unwrap();
    assert_eq!(saved, 6);
}

#[test]
fn test_tape_read_scenario() {
    let tap_file = vec![2, 0, 0, 0, 0xbe, 0xef, 2, 0, 0, 0];
    let mut cassette = Cassette::new();
    cassette.load(DeckId::Deck1, tap_file);
    cassette.ex_rbk();
    let mut seen = Vec::new();
    while cassette.get_status() & (1 << 4) == 0 {
        cassette.clock();
        if cassette.get_status() & (1 << 2) != 0 {
            seen.push(cassette.get_data());
            cassette.strobe();
        }
    }
    assert_eq!(seen, vec![0xbe, 0xef]);
    assert_eq!(cassette.deck1.speed, MovementSpeed::Stopped);
}

#[test]
fn test_tape_reverse_scenario() {
    let tap_file = vec![2, 0, 0, 0, 0xbe, 0xef, 2, 0, 0, 0];
    let mut cassette = Cassette::new();
    cassette.load(DeckId::Deck1, tap_file);
    cassette.ex_rbk();
    while cassette.get_status() & (1 << 4) == 0 {
        cassette.clock();
        cassette.strobe();
    }
    cassette.ex_bsp();
    let mut seen = Vec::new();
    while cassette.get_status() & (1 << 4) == 0 {
        cassette.clock();
        if cassette.get_status() & (1 << 2) != 0 {
            seen.push(cassette.get_data());
            cassette.strobe();
        }
    }
    assert_eq!(seen, vec![0xef, 0xbe]);
}

#[test]
fn test_screen_write_scenario() {
    let program = vec!["LoadImm A, 0xe1", "Adr", "LoadImm A, 'Z'", "Write", "Halt"];
    let mut machine = Datapoint::new(program).unwrap();
    machine.run();
    assert_eq!(machine.databus.screen.buffer[0][0], 'Z');
}

#[test]
fn test_seventeen_pushes_drop_oldest() {
    let mut cpu = dp2200::cpu::Cpu::build();
    for v in 1..=17u16 {
        cpu.push_stack(v);
    }
    assert_eq!(cpu.stack.len(), 16);
    // The first value pushed was dropped; the seventeenth pops first.
    assert_eq!(cpu.pop_stack().unwrap(), 17);
    assert_eq!(cpu.stack[0], 2);
}

#[test]
fn test_screen_control_word_erase_and_roll() {
    let mut screen = Screen::new();
    screen.set_vertical(1);
    screen.set_horizontal(2);
    screen.write(b'X');
    assert_eq!(screen.buffer[1][2], 'X');
    // Erase to end of line removes it.
    screen.control_word(2);
    assert_eq!(screen.buffer[1][2], ' ');
    // Roll up moves line 1 into line 0.
    screen.set_horizontal(0);
    screen.write(b'Y');
    screen.control_word(16);
    assert_eq!(screen.buffer[0][0], 'Y');
    assert!(screen.cursor_enabled);
}

#[test]
fn test_screen_text_layout() {
    let mut screen = Screen::new();
    screen.write(b'H');
    let text = screen.get_screen();
    let lines: Vec<&str> = text.split('\n').collect();
    assert_eq!(lines.len(), 13);
    assert!(lines[0].starts_with('H'));
    assert_eq!(lines[0].len(), 80);
}

#[test]
fn test_keyboard_latch_and_status() {
    let mut keyboard = Keyboard::new();
    keyboard.keydown(String::from("a"));
    assert_eq!(keyboard.get_data(), b'a');
    assert_eq!(keyboard.get_status() & 2, 2);
    keyboard.strobe();
    assert_eq!(keyboard.get_status() & 2, 0);
    keyboard.keydown(String::from("Enter"));
    assert_eq!(keyboard.get_data(), 13);
    keyboard.keyup(String::from("Enter"));
    assert_eq!(keyboard.get_status() & 2, 0);
    keyboard.keydown(String::from("Tab"));
    assert_eq!(keyboard.get_status() & 8, 8);
    keyboard.keyup(String::from("Tab"));
    assert_eq!(keyboard.get_status() & 8, 0);
}

#[test]
fn test_number_parsing() {
    assert_eq!(parse_u16_str("0x0f0f"), Some(0x0f0f));
    assert_eq!(parse_u16_str("0o121"), Some(0o121));
    assert_eq!(parse_u16_str("0b1010"), Some(10));
    assert_eq!(parse_u16_str("1_000"), Some(1000));
    assert_eq!(parse_u16_str("65535"), Some(65535));
    assert_eq!(parse_u16_str("65536"), None);
    assert_eq!(parse_u16_str(""), None);
    assert_eq!(parse_u16_str("12x"), None);
    assert_eq!(parse_u8_str("255"), Some(255));
    assert_eq!(parse_u8_str("256"), None);
}

#[test]
fn test_number_formatting() {
    assert_eq!(u16_to_dec(0), "0");
    assert_eq!(u16_to_dec(246), "246");
    assert_eq!(u16_to_dec(65535), "65535");
    assert_eq!(u16_to_hex(0x0f0f, 2), "0xf0f");
    assert_eq!(u16_to_hex(0, 4), "0x0000");
    assert_eq!(u16_to_hex(0x44, 2), "0x44");
}

#[test]
fn test_assembler_error_variants() {
    // Unknown mnemonic.
    assert_eq!(
        assemble(vec!["Frobnicate"]).unwrap_err().kind,
        AsmErrorKind::UnknownInstruction
    );
    // A backwards address directive.
    assert_eq!(
        assemble(vec!["10: Nop", "5: Nop"]).unwrap_err().kind,
        AsmErrorKind::InvalidAddress
    );
    // A missing operand.
    assert_eq!(
        assemble(vec!["Add"]).unwrap_err().kind,
        AsmErrorKind::BadOperand
    );
    // An operand that is no number.
    assert_eq!(
        assemble(vec!["AddImm what"]).unwrap_err().kind,
        AsmErrorKind::BadOperand
    );
    // A DATA element that is no byte.
    assert_eq!(
        assemble(vec!["DATA 900"]).unwrap_err().kind,
        AsmErrorKind::BadData
    );
}

#[test]
fn test_assemble_data_line() {
    let image = assemble(vec!["DATA 1,2,3", "DATA \"AB\""]).unwrap();
    assert_eq!(image, vec![1, 2, 3, b'A', b'B']);
}

#[test]
fn test_assemble_disassemble_round_trip() {
    // A byte image of canonically encoded instructions survives the trip
    // through the disassembler and back through the assembler.
    let program = vec![
        "LoadImm A, 10",
        "AddImm 246",
        "Load B, A",
        "ShiftLeft",
        "Jump 0x0f0f",
        "Call 0x44",
        "ReturnIf Cf",
        "Push",
        "Pop",
        "EnableIntr",
        "Adr",
        "Rbk",
        "Halt",
    ];
    let image = assemble(program).unwrap();
    let listing = disassemble(&image);
    let lines: Vec<String> = listing.iter().map(|(_, l)| l.clone()).collect();
    let line_refs: Vec<&str> = lines.iter().map(|l| l.as_str()).collect();
    let reassembled = assemble(line_refs).unwrap();
    assert_eq!(reassembled, image);
}

#[test]
fn test_breakpoint_toggle_and_hit() {
    let program = vec!["Nop", "Nop", "Halt"];
    let mut machine = Datapoint::new(program).unwrap();
    machine.toggle_breakpoint(1);
    let status = machine.update(10);
    assert_eq!(status, dp2200::datapoint::DataPointRunStatus::BreakpointHit);
    assert_eq!(machine.cpu.program_counter, 1);
    machine.toggle_breakpoint(1);
    assert!(machine.breakpoints.is_empty());
}

#[test]
fn test_cassette_status_bits() {
    let mut cassette = Cassette::new();
    cassette.load(DeckId::Deck1, vec![1, 0, 0, 0, 0xaa, 1, 0, 0, 0]);
    let status = cassette.get_status();
    assert_eq!(status & 1, 1); // loaded and stopped
    assert_eq!(status & 2, 2); // head at the start
    assert_eq!(status & 64, 64); // loaded
    assert_eq!(status & 4, 0); // nothing buffered yet
}

#[test]
fn test_load_program_keeps_registers() {
    let mut machine = Datapoint::new(vec!["LoadImm A, 7", "Halt"]).unwrap();
    machine.run();
    assert_eq!(machine.cpu.read_reg(0), 7);
    machine.load_program(&[0x00]);
    assert_eq!(machine.cpu.read_reg(0), 7);
    assert_eq!(machine.cpu.memory[0], 0);
    assert!(machine.breakpoints.is_empty());
}

#[test]
fn test_bsp_stops_at_gap_after_scan() {
    // Backspace is the backward read-block variant: even after a forward
    // scan (which does not stop on gaps), Bsp stops at the first gap it
    // reaches instead of running to the start of the tape.
    let tap_file = vec![
        2, 0, 0, 0, 0xbe, 0xef, 2, 0, 0, 0, 5, 0, 0, 0, 1, 2, 3, 4, 5, 5, 0, 0, 0,
    ];
    let mut cassette = Cassette::new();
    cassette.load(DeckId::Deck1, tap_file);
    cassette.ex_sf();
    while cassette.get_status() & (1 << 4) == 0 {
        cassette.clock();
    }
    assert_eq!(cassette.deck1.head_pos, 12);
    cassette.ex_bsp();
    while cassette.get_status() & (1 << 4) == 0 {
        cassette.clock();
    }
    assert_eq!(cassette.deck1.head_pos, 9);
    assert_eq!(cassette.deck1.speed, MovementSpeed::Stopped);
}

#[test]
fn test_erase_frame_covers_whole_lines_below() {
    // Bit 2 of the control word erases from the cursor to the end of the
    // frame: the rest of the cursor line, and the whole of every line
    // below it -- including cells left of the cursor column.
    let mut screen = Screen::new();
    screen.set_vertical(2);
    screen.set_horizontal(1);
    screen.write(b'B');
    screen.set_vertical(1);
    screen.set_horizontal(2);
    screen.write(b'C');
    screen.set_horizontal(5);
    screen.write(b'D');
    screen.set_vertical(0);
    screen.set_horizontal(9);
    screen.write(b'A');
    screen.set_vertical(1);
    screen.set_horizontal(5);
    screen.control_word(4);
    assert_eq!(screen.buffer[2][1], ' ');
    assert_eq!(screen.buffer[1][5], ' ');
    assert_eq!(screen.buffer[1][2], 'C');
    assert_eq!(screen.buffer[0][9], 'A');
}
