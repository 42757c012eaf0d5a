use dp2200::assembler::assemble;
use dp2200::cpu::{run_to_halt, Cpu};
use dp2200::databus::Databus;
use dp2200::datapoint::{DataPointRunStatus, Datapoint};
use dp2200::instruction::InstructionType;

#[test]
fn cpu_test_fetch_add_inst() {
    let program = assemble(vec!["Add 2"]).unwrap();
    let mut cpu = Cpu::new(program);
    let inst = cpu.fetch_instruction().unwrap();
    assert_eq!(inst.instruction_type, InstructionType::Add);
    assert_eq!(inst.operand, None);
    assert_eq!(inst.get_source(), 2);
}

#[test]
fn cpu_test_load_imm_inst() {
    let program = assemble(vec!["LoadImm A, 10"]).unwrap();
    let mut cpu = Cpu::new(program);
    let mut databus = Databus::build();
    run_to_halt(&mut cpu, &mut databus);
    assert_eq!(cpu.alpha_registers[0], 10);
}

#[test]
fn test_load_imm_neg() {
    let mut machine = Datapoint::new(vec!["LoadImm A, -10"]).unwrap();
    machine.run();
    assert_eq!(machine.cpu.alpha_registers[0] as i8, -10);
}

#[test]
fn test_load_imm_max() {
    let mut machine = Datapoint::new(vec!["LoadImm A, 255"]).unwrap();
    machine.run();
    assert_eq!(machine.cpu.alpha_registers[0], 255);
}

#[test]
fn test_load_imm_min() {
    let mut machine = Datapoint::new(vec!["LoadImm A, -128"]).unwrap();
    machine.run();
    assert_eq!(machine.cpu.alpha_registers[0] as i8, -128);
}

#[test]
fn test_load_imm_zero() {
    let mut machine = Datapoint::new(vec!["LoadImm A, 0"]).unwrap();
    machine.run();
    assert_eq!(machine.cpu.alpha_registers[0], 0);
}

#[test]
fn cpu_test_load_reg_to_reg_inst() {
    let mut machine = Datapoint::new(vec!["Load B, A", "Halt"]).unwrap();
    machine.cpu.alpha_registers[0] = 10;
    machine.run();

    assert_eq!(machine.cpu.alpha_registers[1], 10);
    assert_eq!(machine.cpu.alpha_registers[0], 10);
}

#[test]
fn test_load_reg_to_reg_inst_neg() {
    let mut machine = Datapoint::new(vec!["Load B, A", "Halt"]).unwrap();
    machine.cpu.alpha_registers[0] = -10_i8 as u8;
    machine.run();

    assert_eq!(machine.cpu.alpha_registers[1] as i8, -10);
    assert_eq!(machine.cpu.alpha_registers[0] as i8, -10);
}

#[test]
fn test_load_mem_to_reg() {
    let mut machine = Datapoint::new(vec!["Load A, M", "Halt"]).unwrap();
    let addr: u16 = 0x1eef;
    machine.cpu.alpha_registers[5] = (addr >> 8) as u8;
    machine.cpu.alpha_registers[6] = (addr & 0xff) as u8;
    machine.cpu.memory[addr as usize] = 10;
    machine.run();

    assert_eq!(machine.cpu.alpha_registers[0], 10);
    assert_eq!(machine.cpu.memory[addr as usize], 10);
}

#[test]
fn test_load_reg_to_mem() {
    let mut machine = Datapoint::new(vec!["Load M, A", "Halt"]).unwrap();
    let addr: u16 = 0x1eef;
    machine.cpu.alpha_registers[5] = (addr >> 8) as u8;
    machine.cpu.alpha_registers[6] = (addr & 0xff) as u8;
    machine.cpu.alpha_registers[0] = 10;
    machine.run();

    assert_eq!(machine.cpu.alpha_registers[0], 10);
    assert_eq!(machine.cpu.memory[addr as usize], 10);
}

#[test]
fn test_load_mem_to_mem() {
    let mut machine = Datapoint::new(vec!["Load M, M"]).unwrap();
    let status = machine.single_step();
    assert_eq!(status, DataPointRunStatus::Halted)
}

#[test]
fn cpu_test_add_inst() {
    let program = assemble(vec!["LoadImm A, 10", "AddImm 10", "Halt"]).unwrap();
    let mut cpu = Cpu::new(program);
    let mut databus = Databus::build();
    run_to_halt(&mut cpu, &mut databus);

    assert_eq!(cpu.read_reg(0), 20);
    assert_eq!(cpu.read_flag(0), false);
    assert_eq!(cpu.read_flag(1), false);
    assert_eq!(cpu.read_flag(2), false);
    assert_eq!(cpu.read_flag(3), false);
}

#[test]
fn cpu_test_add_odd_parity_inst() {
    let program = assemble(vec!["LoadImm A, 10", "AddImm 11", "Halt"]).unwrap();
    let mut cpu = Cpu::new(program);
    let mut databus = Databus::build();
    run_to_halt(&mut cpu, &mut databus);

    assert_eq!(cpu.read_reg(0), 21);
    assert_eq!(cpu.read_flag(0), false);
    assert_eq!(cpu.read_flag(1), false);
    assert_eq!(cpu.read_flag(2), false);
    assert_eq!(cpu.read_flag(3), true);
}

#[test]
fn cpu_test_add_sign_flag_inst() {
    let program = assemble(vec!["LoadImm A, 10", "AddImm 138", "Halt"]).unwrap();
    let mut cpu = Cpu::new(program);
    let mut databus = Databus::build();
    run_to_halt(&mut cpu, &mut databus);

    assert_eq!(cpu.read_flag(0), false);
    assert_eq!(cpu.read_flag(1), false);
    assert_eq!(cpu.read_flag(2), true);
    assert_eq!(cpu.read_flag(3), true);
}

#[test]
fn cpu_test_add_zero_and_overflow_inst() {
    let program = assemble(vec!["LoadImm A, 10", "AddImm 246", "Halt"]).unwrap();
    let mut cpu = Cpu::new(program);
    let mut databus = Databus::build();
    run_to_halt(&mut cpu, &mut databus);

    assert_eq!(cpu.read_flag(0), true);
    assert_eq!(cpu.read_flag(1), true);
    assert_eq!(cpu.read_flag(2), false);
    assert_eq!(cpu.read_flag(3), false);
}

#[test]
fn cpu_test_sub_underflow() {
    let program = assemble(vec!["LoadImm A, 10", "SubImm 11", "Halt"]).unwrap();
    let mut cpu = Cpu::new(program);
    let mut databus = Databus::build();
    run_to_halt(&mut cpu, &mut databus);

    assert_eq!(cpu.read_flag(0), true);
    assert_eq!(cpu.read_reg(0) as i8, -1);
}

#[test]
fn test_jump_if_not() {
    let program = assemble(vec![
        //                                     Number of times instruction is run
        "LoadImm A, 10",     // 10                       =  1
        "loop: SubImm 1",    // 9, 8,7,6,5,4,3,2,1,0,-1  = 11
        "JumpIfNot 0, loop", //9,8,7,6,5,4,3,2,1,0,-1    = 11
        "Halt",              // -1                       =  1
    ])
    .unwrap(); //                                          24 total
    let mut cpu = Cpu::new(program);
    let mut databus = Databus::build();
    let insts_cnt = run_to_halt(&mut cpu, &mut databus);
    assert_eq!(insts_cnt, 24);
}

#[test]
fn cpu_test_call() {
    let program = assemble(vec![
        "Nop",        //addr 0
        "Call test",  // addr 1, 2, 3
        "Halt",       // addr 4
        "test: Halt", // addr 5
    ])
    .unwrap();
    let mut cpu = Cpu::new(program);
    let mut databus = Databus::build();
    run_to_halt(&mut cpu, &mut databus);

    assert_eq!(cpu.pop_stack().unwrap(), 4);
    assert_eq!(cpu.program_counter, 6);
}

#[test]
fn cpu_test_return() {
    let program = assemble(vec!["Call test", "Halt", "test: LoadImm B, 10", "Return"]).unwrap();
    let mut cpu = Cpu::new(program);
    let mut databus = Databus::build();
    run_to_halt(&mut cpu, &mut databus);

    assert_eq!(cpu.read_reg(1), 10);
    assert_eq!(cpu.program_counter, 4);
}

#[test]
fn cpu_test_push_stack() {
    let program = assemble(vec!["LoadImm H, 0x88", "LoadImm L, 0x77", "Push", "Halt"]).unwrap();
    let mut cpu = Cpu::new(program);
    let mut databus = Databus::build();
    run_to_halt(&mut cpu, &mut databus);

    assert_eq!(cpu.pop_stack().unwrap(), 0x8877);
}

#[test]
fn cpu_test_pop_stack() {
    let program = assemble(vec!["Call test", "Nop", "Nop", "Nop", "test: Pop", "Halt"]).unwrap();
    let mut cpu = Cpu::new(program);
    let mut databus = Databus::build();
    run_to_halt(&mut cpu, &mut databus);

    assert_eq!(cpu.get_hl_address(), 0x3);
}

#[test]
fn cpu_test_select_beta() {
    let program = assemble(vec![
        "SelectBeta",
        "LoadImm A, 10",
        "SelectAlpha",
        "LoadImm A, 20",
        "SelectBeta",
        "Halt",
    ])
    .unwrap();
    let mut cpu = Cpu::new(program);
    let mut databus = Databus::build();
    run_to_halt(&mut cpu, &mut databus);

    assert_eq!(cpu.read_reg(0), 10);
    assert_eq!(cpu.alpha_mode, false);
}

#[test]
fn cpu_test_intr() {
    let program = vec![
        "CompImm 1",      // Carry flag gets set if A is 0 (First time)
        "JumpIf Cf, run", // Jump if A was 0
        "Halt",           // Only halt, only get here if the interrupts actually works
        "run: LoadImm A, 1",
        "EnableIntr",
        "Nop",
        "Jump run",
    ];

    let mut machine = Datapoint::new(program).unwrap();
    let counter = machine.run();
    println!("{}", counter);
    assert!(machine.cpu.halted);
}

#[test]
fn test_comp_zero() {
    let program = vec!["LoadImm A, 10", "LoadImm B, 10", "Comp B", "Halt"];
    let mut machine = Datapoint::new(program).unwrap();
    machine.run();
    assert!(!machine.cpu.read_flag(0));
    assert!(machine.cpu.read_flag(1));
}
