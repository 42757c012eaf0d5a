//! The laws of the machine, stated and proved over the same specification
//! functions the executable contracts use: the stack bound, the cursor
//! bounds, address masking on control transfers, the stack discipline,
//! flag re-derivation after arithmetic, the behaviour of short programs,
//! and the instruction codec round trip.

use vstd::prelude::*;

use crate::cpu::{
    spec_add8, spec_execute_core, spec_fetch, spec_parity, spec_pop_stack, spec_push_stack,
    spec_read_flag, spec_read_reg, spec_sub8, spec_update_flags, spec_write_flag, spec_write_reg,
    CpuState, MEMORY_SIZE, STACK_CAPACITY,
};
use crate::databus::{spec_fresh_bus, DatabusState};
use crate::datapoint::{spec_single_step, DataPointRunStatus, MachineState};
use crate::screen::{spec_control_word, ScreenState, SCREEN_COLS, SCREEN_LINES};
use crate::instruction::{
    spec_decode, spec_has_address, spec_has_operand, spec_inst_len, spec_op_dest, Instruction,
    InstructionType,
};

verus! {

/// The hardware stack never exceeds its capacity: a push onto any stack
/// within capacity stays within capacity, dropping the oldest entry when
/// the stack is full.
pub proof fn lemma_stack_never_overflows(c: CpuState, value: u16)
    requires
        c.stack.len() <= STACK_CAPACITY,
    ensures
        spec_push_stack(c, value).stack.len() <= STACK_CAPACITY,
        spec_pop_stack(c).0.stack.len() <= STACK_CAPACITY,
{
}

/// A pop straight after a push observes the pushed value, whatever the
/// stack held before.
pub proof fn lemma_push_then_pop(c: CpuState, value: u16)
    ensures
        spec_pop_stack(spec_push_stack(c, value)).1 == Some(value),
{
}

/// The stack after a sequence of pushes, one after the other.
pub open spec fn spec_push_all(c: CpuState, values: Seq<u16>) -> CpuState
    decreases values.len(),
{
    if values.len() == 0 {
        c
    } else {
        spec_push_stack(spec_push_all(c, values.drop_last()), values.last())
    }
}

/// After any sequence of pushes the stack holds exactly the newest
/// `STACK_CAPACITY` of the old entries followed by the pushed values.
pub proof fn lemma_push_all_keeps_newest(c: CpuState, values: Seq<u16>)
    requires
        c.stack.len() <= STACK_CAPACITY,
    ensures
        ({
            let whole = c.stack + values;
            let start = if whole.len() > STACK_CAPACITY {
                whole.len() - STACK_CAPACITY
            } else {
                0
            };
            spec_push_all(c, values).stack == whole.subrange(start as int, whole.len() as int)
        }),
    decreases values.len(),
{
    if values.len() == 0 {
        assert((c.stack + values).subrange(
            if c.stack.len() > STACK_CAPACITY {
                c.stack.len() - STACK_CAPACITY
            } else {
                0
            } as int,
            (c.stack + values).len() as int,
        ) =~= c.stack);
    } else {
        lemma_push_all_keeps_newest(c, values.drop_last());
        let prev = spec_push_all(c, values.drop_last());
        let whole = c.stack + values;
        let start = if whole.len() > STACK_CAPACITY {
            whole.len() - STACK_CAPACITY
        } else {
            0
        };
        assert(spec_push_stack(prev, values.last()).stack =~= whole.subrange(
            start as int,
            whole.len() as int,
        ));
    }
}

/// Pushing seventeen values onto an empty stack drops exactly the first:
/// the stack holds the sixteen newest, and one pop observes the
/// seventeenth value pushed.
pub proof fn lemma_seventeen_pushes(c: CpuState, values: Seq<u16>)
    requires
        c.stack.len() == 0,
        values.len() == 17,
    ensures
        spec_push_all(c, values).stack == values.drop_first(),
        spec_pop_stack(spec_push_all(c, values)).1 == Some(values.last()),
{
    lemma_push_all_keeps_newest(c, values);
    assert((c.stack + values).subrange(1, 17) =~= values.drop_first());
}

/// The cursor never leaves the screen: every screen command keeps a
/// well-formed screen well formed, with the cursor line and column in
/// bounds.  Writes never move the cursor, and the explicit positioning
/// commands refuse out-of-range positions, so this holds after every
/// command.
pub proof fn lemma_cursor_in_bounds(s: ScreenState, data: u8)
    requires
        s.wf(),
    ensures
        spec_control_word(s, data).wf(),
        spec_control_word(s, data).line < SCREEN_LINES,
        spec_control_word(s, data).character < SCREEN_COLS,
{
}

/// After a Jump or a Call to address A, the program counter is A with
/// its high bits masked to the 13-bit address space.  The statement is
/// about the instruction itself, before any pending interrupt is then
/// serviced.
pub proof fn lemma_jump_call_masks_pc(c: CpuState, b: DatabusState, addr: u16)
    requires
        c.wf(),
        c.instruction_register.address == Some(addr),
        (c.instruction_register.instruction_type == InstructionType::Jump
            || c.instruction_register.instruction_type == InstructionType::Call),
    ensures
        spec_execute_core(c, b).0.program_counter == addr & 0x1fff,
{
}

/// A conditional jump or call whose flag test succeeds also masks the
/// program counter to the 13-bit address space, like the unconditional
/// forms; one whose test fails leaves the program counter alone.
pub proof fn lemma_conditional_jump_call(c: CpuState, b: DatabusState, addr: u16)
    requires
        c.wf(),
        c.instruction_register.address == Some(addr),
        ({
            let it = c.instruction_register.instruction_type;
            ||| it == InstructionType::JumpIf
            ||| it == InstructionType::JumpIfNot
            ||| it == InstructionType::CallIf
            ||| it == InstructionType::CallIfNot
        }),
    ensures
        ({
            let it = c.instruction_register.instruction_type;
            let d = spec_op_dest(c.instruction_register.opcode);
            let cc = if d >= 4 {
                (d - 4) as u8
            } else {
                d
            };
            let taken = if it == InstructionType::JumpIf || it == InstructionType::CallIf {
                spec_read_flag(c, cc as int)
            } else {
                !spec_read_flag(c, cc as int)
            };
            if taken {
                spec_execute_core(c, b).0.program_counter == addr & 0x1fff
            } else {
                spec_execute_core(c, b).0.program_counter == c.program_counter
            }
        }),
{
}

/// Whether this instruction type leaves the accumulator holding the ALU
/// result: the add, subtract and bitwise families.  Comp and CompImm are
/// left out: they restore the accumulator after deriving the flags, so
/// their flags describe the discarded difference, not the accumulator.
pub open spec fn spec_is_acc_alu(it: InstructionType) -> bool {
    ||| it == InstructionType::AddImm
    ||| it == InstructionType::Add
    ||| it == InstructionType::AddImmCarry
    ||| it == InstructionType::AddCarry
    ||| it == InstructionType::SubImm
    ||| it == InstructionType::Sub
    ||| it == InstructionType::SubImmBorrow
    ||| it == InstructionType::SubBorrow
    ||| it == InstructionType::AndImm
    ||| it == InstructionType::And
    ||| it == InstructionType::OrImm
    ||| it == InstructionType::Or
    ||| it == InstructionType::XorImm
    ||| it == InstructionType::Xor
}

/// After any ALU operation that leaves its result in the accumulator,
/// the Zero, Sign and Parity flags are re-derived from the accumulator
/// as a unit: Zero iff it is 0, Sign iff its bit 7 is set, Parity iff it
/// holds an odd number of one bits.
/// Re-deriving the flags leaves the accumulator alone and makes Zero,
/// Sign and Parity describe it.
pub proof fn lemma_flags_after_update(s: CpuState)
    requires
        s.wf(),
    ensures
        ({
            let after = spec_update_flags(s);
            let a = spec_read_reg(after, 0);
            &&& a == spec_read_reg(s, 0)
            &&& spec_read_flag(after, 1) == (a == 0)
            &&& spec_read_flag(after, 2) == (a & 0x80 != 0)
            &&& spec_read_flag(after, 3) == spec_parity(a)
        }),
{
}

/// After any ALU operation that leaves its result in the accumulator,
/// the Zero, Sign and Parity flags are re-derived from the accumulator
/// as a unit: Zero iff it is 0, Sign iff its bit 7 is set, Parity iff it
/// holds an odd number of one bits.
#[verifier::rlimit(100)]
#[verifier::spinoff_prover]
pub proof fn lemma_alu_rederives_flags(c: CpuState, b: DatabusState)
    requires
        c.wf(),
        spec_is_acc_alu(c.instruction_register.instruction_type),
        spec_has_operand(c.instruction_register.instruction_type)
            ==> c.instruction_register.operand is Some,
    ensures
        ({
            let after = spec_execute_core(c, b).0;
            let a = spec_read_reg(after, 0);
            &&& spec_read_flag(after, 1) == (a == 0)
            &&& spec_read_flag(after, 2) == (a & 0x80 != 0)
            &&& spec_read_flag(after, 3) == spec_parity(a)
        }),
{
    let inst = c.instruction_register;
    let it = inst.instruction_type;
    let a0 = spec_read_reg(c, 0);
    let s = crate::instruction::spec_op_src(inst.opcode) as int;
    let cin = if spec_read_flag(c, 0) {
        1int
    } else {
        0int
    };
    if it == InstructionType::AddImm {
        lemma_flags_after_update(spec_write_reg(spec_write_flag(c, 0, spec_add8(a0, inst.operand->0, 0).1), 0, spec_add8(a0, inst.operand->0, 0).0));
    } else if it == InstructionType::Add {
        lemma_flags_after_update(spec_write_reg(spec_write_flag(c, 0, spec_add8(a0, spec_read_reg(c, s), 0).1), 0, spec_add8(a0, spec_read_reg(c, s), 0).0));
    } else if it == InstructionType::AddImmCarry {
        lemma_flags_after_update(spec_write_reg(spec_write_flag(c, 0, spec_add8(a0, inst.operand->0, cin).1), 0, spec_add8(a0, inst.operand->0, cin).0));
    } else if it == InstructionType::AddCarry {
        lemma_flags_after_update(spec_write_reg(spec_write_flag(c, 0, spec_add8(a0, spec_read_reg(c, s), cin).1), 0, spec_add8(a0, spec_read_reg(c, s), cin).0));
    } else if it == InstructionType::SubImm {
        lemma_flags_after_update(spec_write_reg(spec_write_flag(c, 0, spec_sub8(a0, inst.operand->0, 0).1), 0, spec_sub8(a0, inst.operand->0, 0).0));
    } else if it == InstructionType::Sub {
        lemma_flags_after_update(spec_write_reg(spec_write_flag(c, 0, spec_sub8(a0, spec_read_reg(c, s), 0).1), 0, spec_sub8(a0, spec_read_reg(c, s), 0).0));
    } else if it == InstructionType::SubImmBorrow {
        lemma_flags_after_update(spec_write_reg(spec_write_flag(c, 0, spec_sub8(a0, inst.operand->0, cin).1), 0, spec_sub8(a0, inst.operand->0, cin).0));
    } else if it == InstructionType::SubBorrow {
        lemma_flags_after_update(spec_write_reg(spec_write_flag(c, 0, spec_sub8(a0, spec_read_reg(c, s), cin).1), 0, spec_sub8(a0, spec_read_reg(c, s), cin).0));
    } else if it == InstructionType::AndImm {
        lemma_flags_after_update(spec_write_flag(spec_write_reg(c, 0, a0 & inst.operand->0), 0, false));
    } else if it == InstructionType::And {
        lemma_flags_after_update(spec_write_flag(spec_write_reg(c, 0, a0 & spec_read_reg(c, s)), 0, false));
    } else if it == InstructionType::OrImm {
        lemma_flags_after_update(spec_write_flag(spec_write_reg(c, 0, a0 | inst.operand->0), 0, false));
    } else if it == InstructionType::Or {
        lemma_flags_after_update(spec_write_flag(spec_write_reg(c, 0, a0 | spec_read_reg(c, s)), 0, false));
    } else if it == InstructionType::XorImm {
        lemma_flags_after_update(spec_write_flag(spec_write_reg(c, 0, a0 ^ inst.operand->0), 0, false));
    } else {
        lemma_flags_after_update(spec_write_flag(spec_write_reg(c, 0, a0 ^ spec_read_reg(c, s)), 0, false));
    }
}

/// The canonical byte encoding of a decoded instruction: the opcode
/// byte, then the immediate operand or the address (low byte first)
/// where its family carries one.
pub open spec fn spec_encode_inst(i: Instruction) -> Seq<u8> {
    if spec_has_operand(i.instruction_type) {
        seq![i.opcode, i.operand->0]
    } else if spec_has_address(i.instruction_type) {
        seq![i.opcode, (i.address->0 % 256) as u8, (i.address->0 / 256) as u8]
    } else {
        seq![i.opcode]
    }
}

/// Whether an instruction value is exactly what decoding produces: its
/// type is what its opcode decodes to, and it carries an operand or an
/// address exactly when its family does.
pub open spec fn spec_canonical_inst(i: Instruction) -> bool {
    &&& i.instruction_type == spec_decode(i.opcode)
    &&& i.instruction_type != InstructionType::Unknown
    &&& (spec_has_operand(i.instruction_type) <==> i.operand is Some)
    &&& (spec_has_address(i.instruction_type) <==> i.address is Some)
    &&& !(spec_has_operand(i.instruction_type) || spec_has_address(i.instruction_type))
        ==> (i.operand is None && i.address is None)
}

/// The codec round trip: fetching from memory that holds the canonical
/// encoding of an instruction yields that instruction back, with the
/// program counter advanced exactly past its bytes.
pub proof fn lemma_decode_of_encoding(c: CpuState, i: Instruction)
    requires
        c.wf(),
        spec_canonical_inst(i),
        c.program_counter + spec_inst_len(i.instruction_type) <= MEMORY_SIZE,
        ({
            let enc = spec_encode_inst(i);
            forall|k: int|
                0 <= k < enc.len() ==> c.memory[c.program_counter + k] == enc[k]
        }),
    ensures
        spec_fetch(c).1 == Some(i),
        spec_fetch(c).0.program_counter == c.program_counter + spec_inst_len(
            i.instruction_type,
        ),
        (spec_fetch(c).0 == CpuState {
            program_counter: spec_fetch(c).0.program_counter,
            ..c
        }),
{
    let enc = spec_encode_inst(i);
    assert(c.memory[c.program_counter + 0] == enc[0]);
    assert(enc[0] == i.opcode);
    if spec_has_operand(i.instruction_type) {
        assert(c.memory[c.program_counter + 1] == enc[1]);
        assert(spec_fetch(c).0 =~= CpuState {
            program_counter: spec_fetch(c).0.program_counter,
            ..c
        });
    } else if spec_has_address(i.instruction_type) {
        let a = i.address->0;
        assert(c.memory[c.program_counter + 1] == enc[1]);
        assert(c.memory[c.program_counter + 2] == enc[2]);
        assert(enc[1] == (a % 256) as u8);
        assert(enc[2] == (a / 256) as u8);
        assert((a % 256) + (a / 256) * 256 == a) by (nonlinear_arith);
        assert(spec_fetch(c).1 == Some(i));
        assert(spec_fetch(c).0 =~= CpuState {
            program_counter: spec_fetch(c).0.program_counter,
            ..c
        });
    } else {
        assert(spec_fetch(c).0 =~= CpuState {
            program_counter: spec_fetch(c).0.program_counter,
            ..c
        });
    }
}


/// The machine as `Datapoint::build` makes it from a program image:
/// fresh CPU with the image from address 0, clock at zero, fresh bus, no
/// breakpoints.
pub open spec fn spec_loaded_machine(program: Seq<u8>) -> MachineState {
    MachineState {
        cpu: CpuState {
            memory: Seq::new(
                MEMORY_SIZE as nat,
                |i: int|
                    if i < program.len() {
                        program[i]
                    } else {
                        0u8
                    },
            ),
            ..crate::cpu::Cpu::build_state()
        },
        emulated_time_ns: 0,
        databus: spec_fresh_bus(),
        breakpoints: Seq::empty(),
    }
}

/// For every byte b, the two-instruction program "load b immediate, then
/// halt" halts with the accumulator holding exactly b.
#[verifier::rlimit(100)]
#[verifier::spinoff_prover]
pub proof fn lemma_load_imm_halt(b: u8)
    ensures
        ({
            let m0 = spec_loaded_machine(seq![0x06u8, b, 0x00u8]);
            let s1 = spec_single_step(m0);
            let s2 = spec_single_step(s1.0);
            &&& s1.1 == DataPointRunStatus::Running
            &&& s2.1 == DataPointRunStatus::Halted
            &&& s2.0.cpu.halted
            &&& spec_read_reg(s2.0.cpu, 0) == b
        }),
{
    assert((0x06u8 & 0xc0) >> 6 == 0 && (0x06u8 & 0x38) >> 3 == 0 && 0x06u8 & 0x07 == 6)
        by (bit_vector);
    assert((0x00u8 & 0xc0) >> 6 == 0 && (0x00u8 & 0x38) >> 3 == 0 && 0x00u8 & 0x07 == 0)
        by (bit_vector);
    let m0 = spec_loaded_machine(seq![0x06u8, b, 0x00u8]);
    assert(m0.cpu.memory[0] == 0x06u8 && m0.cpu.memory[1] == b && m0.cpu.memory[2] == 0x00u8);
    assert(spec_decode(0x06u8) == InstructionType::LoadImm);
    assert(spec_decode(0x00u8) == InstructionType::Halt);
    let s1 = spec_single_step(m0);
    assert(spec_read_reg(s1.0.cpu, 0) == b);
    assert(!s1.0.cpu.halted);
    let s2 = spec_single_step(s1.0);
    assert(s2.0.cpu.halted);
    assert(spec_read_reg(s2.0.cpu, 0) == b);
}

/// After the first two instructions of "load x immediate, add y
/// immediate, halt", the machine is still running with the sum's low
/// byte in the accumulator and the Carry flag telling whether the sum
/// fit one byte; memory is untouched.
#[verifier::rlimit(100)]
#[verifier::spinoff_prover]
proof fn lemma_add_imm_prefix(x: u8, y: u8)
    ensures
        ({
            let m0 = spec_loaded_machine(seq![0x06u8, x, 0x04u8, y, 0x00u8]);
            let s2 = spec_single_step(spec_single_step(m0).0);
            &&& s2.0.cpu.wf()
            &&& !s2.0.cpu.halted
            &&& !s2.0.cpu.intr_saved
            &&& s2.0.cpu.program_counter == 4
            &&& s2.0.cpu.memory == m0.cpu.memory
            &&& spec_read_reg(s2.0.cpu, 0) == ((x + y) % 256) as u8
            &&& spec_read_flag(s2.0.cpu, 0) == (x + y > 255)
        }),
{
    assert((0x06u8 & 0xc0) >> 6 == 0 && (0x06u8 & 0x38) >> 3 == 0 && 0x06u8 & 0x07 == 6)
        by (bit_vector);
    assert((0x04u8 & 0xc0) >> 6 == 0 && (0x04u8 & 0x38) >> 3 == 0 && 0x04u8 & 0x07 == 4)
        by (bit_vector);
    let m0 = spec_loaded_machine(seq![0x06u8, x, 0x04u8, y, 0x00u8]);
    assert(m0.cpu.memory[0] == 0x06u8 && m0.cpu.memory[1] == x && m0.cpu.memory[2] == 0x04u8
        && m0.cpu.memory[3] == y && m0.cpu.memory[4] == 0x00u8);
    assert(spec_decode(0x06u8) == InstructionType::LoadImm);
    assert(spec_decode(0x04u8) == InstructionType::AddImm);
    let s1 = spec_single_step(m0);
    assert(spec_read_reg(s1.0.cpu, 0) == x);
    assert(!s1.0.cpu.halted);
    let s2 = spec_single_step(s1.0);
    assert(spec_read_reg(s2.0.cpu, 0) == ((x + y) % 256) as u8);
    assert(spec_read_flag(s2.0.cpu, 0) == (x + y > 255));
}

/// A machine step whose fetched opcode byte is 0 executes Halt: the
/// machine halts with its accumulator and Carry flag untouched.
#[verifier::spinoff_prover]
proof fn lemma_halt_step(m: MachineState)
    requires
        m.cpu.wf(),
        !m.cpu.halted,
        !m.cpu.intr_saved,
        m.cpu.program_counter < MEMORY_SIZE,
        m.cpu.memory[m.cpu.program_counter as int] == 0,
    ensures
        spec_single_step(m).1 == DataPointRunStatus::Halted,
        spec_single_step(m).0.cpu.halted,
        spec_read_reg(spec_single_step(m).0.cpu, 0) == spec_read_reg(m.cpu, 0),
        spec_read_flag(spec_single_step(m).0.cpu, 0) == spec_read_flag(m.cpu, 0),
{
    assert((0x00u8 & 0xc0) >> 6 == 0 && (0x00u8 & 0x38) >> 3 == 0 && 0x00u8 & 0x07 == 0)
        by (bit_vector);
    assert(spec_decode(0x00u8) == InstructionType::Halt);
}

/// For all bytes x and y, the program "load x immediate, add y
/// immediate, halt" halts with the accumulator holding the low byte of
/// x + y, and the Carry flag set exactly when x + y does not fit one
/// byte.
#[verifier::rlimit(100)]
#[verifier::spinoff_prover]
pub proof fn lemma_add_imm_program(x: u8, y: u8)
    ensures
        ({
            let m0 = spec_loaded_machine(seq![0x06u8, x, 0x04u8, y, 0x00u8]);
            let s1 = spec_single_step(m0);
            let s2 = spec_single_step(s1.0);
            let s3 = spec_single_step(s2.0);
            &&& s3.1 == DataPointRunStatus::Halted
            &&& s3.0.cpu.halted
            &&& spec_read_reg(s3.0.cpu, 0) == ((x + y) % 256) as u8
            &&& spec_read_flag(s3.0.cpu, 0) == (x + y > 255)
        }),
{
    lemma_add_imm_prefix(x, y);
    let m0 = spec_loaded_machine(seq![0x06u8, x, 0x04u8, y, 0x00u8]);
    let s2 = spec_single_step(spec_single_step(m0).0);
    assert(m0.cpu.memory[4] == 0x00u8);
    assert(s2.0.cpu.memory[4] == 0x00u8);
    lemma_halt_step(s2.0);
}

} // verus!
