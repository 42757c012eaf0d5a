use dp2200::datapoint::Datapoint;
use dp2200::disassembler::{disassemble, Disassembler};

#[test]
fn disassembler_test_basics() {
    let program = vec!["LoadImm A, 10", "AddImm 246", "Halt"];
    let machine = Datapoint::new(program).unwrap();
    let output = disassemble(&machine.cpu.memory);
    assert_eq!(
        output[0..3],
        vec![
            (0x0000, "LoadImm A, 10".to_string()),
            (0x0002, "AddImm 246".to_string()),
            (0x0004, "Halt".to_string())
        ]
    );
}

#[test]
fn test_lines_before() {
    let program = vec!["LoadImm A, 10", "AddImm 246", "Halt"];
    let machine = Datapoint::new(program).unwrap();
    let disassembler = Disassembler::new(machine.cpu);
    let output = disassembler.get_lines(2, 3, 1);
    assert_eq!(
        output,
        vec![
            "0x0000: LoadImm A, 10",
            "0x0002> AddImm 246",
            "0x0004: Halt"
        ]
    );
}

#[test]
fn test_lines_before_neg() {
    let program = vec!["LoadImm A, 10", "AddImm 246", "Halt"];
    let machine = Datapoint::new(program).unwrap();
    let disassembler = Disassembler::new(machine.cpu);
    let output = disassembler.get_lines(2, 3, 3);
    assert_eq!(
        output,
        vec![
            "0x0000: LoadImm A, 10",
            "0x0002> AddImm 246",
            "0x0004: Halt"
        ]
    );
}

#[test]
fn test_disassembler_window_start() {
    let program = vec!["LoadImm A, 10", "AddImm 246", "Halt"];
    let machine = Datapoint::new(program).unwrap();
    let disassembler = Disassembler::new(machine.cpu);
    let output = disassembler.get_lines(0, 3, 0);
    assert_eq!(
        output,
        vec![
            "0x0000> LoadImm A, 10",
            "0x0002: AddImm 246",
            "0x0004: Halt"
        ]
    );
}
