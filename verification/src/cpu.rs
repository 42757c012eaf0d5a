//! The Datapoint 2200 CPU: 8192 bytes of memory, two register banks of seven
//! byte registers and four flag flipflops each, a bounded hardware call
//! stack, a 16-bit program counter, and the interrupt latch.
//!
//! Register index 7 ("M") is not storage: reads and writes with index 7 go to
//! `memory[HL]`, where HL is formed from registers H (index 5, high byte) and
//! L (index 6, low byte) of the live bank.  An HL value past the end of
//! memory makes such a read yield 0 and such a write a no-op.

use vstd::prelude::*;

use crate::databus::{
    spec_bus_strobe, spec_execute_command, spec_read_bus, Databus, DatabusMode, DatabusState,
};
use crate::instruction::{
    spec_decode, spec_has_address, spec_has_operand, spec_op_dest, spec_op_src, Instruction,
    InstructionType,
};

verus! {

/// Number of memory cells.
pub const MEMORY_SIZE: usize = 8192;

/// Number of byte registers in one bank.
pub const NUM_REGISTERS: usize = 7;

/// Number of flag flipflops in one bank (Carry, Zero, Sign, Parity).
pub const NUM_FLAGS: usize = 4;

/// Capacity of the hardware call stack; a push at capacity drops the oldest
/// entry.
pub const STACK_CAPACITY: usize = 16;

/// The mathematical value of a CPU: every register, flag and memory cell.
#[verifier::ext_equal]
pub ghost struct CpuState {
    pub halted: bool,
    pub intr_enabled: bool,
    pub intr_saved: bool,
    pub memory: Seq<u8>,
    pub alpha_mode: bool,
    pub alpha_registers: Seq<u8>,
    pub alpha_flipflops: Seq<bool>,
    pub beta_registers: Seq<u8>,
    pub beta_flipflops: Seq<bool>,
    pub program_counter: u16,
    pub instruction_register: Instruction,
    pub stack: Seq<u16>,
}

impl CpuState {
    /// Shape of a well-formed CPU: fixed memory, bank and flag sizes, and a
    /// stack that never exceeds its capacity.
    pub open spec fn wf(self) -> bool {
        &&& self.memory.len() == MEMORY_SIZE
        &&& self.alpha_registers.len() == NUM_REGISTERS
        &&& self.alpha_flipflops.len() == NUM_FLAGS
        &&& self.beta_registers.len() == NUM_REGISTERS
        &&& self.beta_flipflops.len() == NUM_FLAGS
        &&& self.stack.len() <= STACK_CAPACITY
    }
}

/// The registers of the live bank.
pub open spec fn spec_live_regs(s: CpuState) -> Seq<u8> {
    if s.alpha_mode {
        s.alpha_registers
    } else {
        s.beta_registers
    }
}

/// The flag flipflops of the live bank.
pub open spec fn spec_live_flags(s: CpuState) -> Seq<bool> {
    if s.alpha_mode {
        s.alpha_flipflops
    } else {
        s.beta_flipflops
    }
}

/// The HL address: register H (index 5) is the high byte, L (index 6) the
/// low byte.
pub open spec fn spec_hl(s: CpuState) -> int {
    spec_live_regs(s)[5] * 256 + spec_live_regs(s)[6]
}

/// Reading a register of the live bank; index 7 reads `memory[HL]`, or 0
/// when HL is past the end of memory.
pub open spec fn spec_read_reg(s: CpuState, index: int) -> u8 {
    if index == 7 {
        if spec_hl(s) < MEMORY_SIZE {
            s.memory[spec_hl(s)]
        } else {
            0
        }
    } else {
        spec_live_regs(s)[index]
    }
}

/// Writing a register of the live bank; index 7 writes `memory[HL]`, a
/// no-op when HL is past the end of memory.
pub open spec fn spec_write_reg(s: CpuState, index: int, value: u8) -> CpuState {
    if index == 7 {
        if spec_hl(s) < MEMORY_SIZE {
            CpuState { memory: s.memory.update(spec_hl(s), value), ..s }
        } else {
            s
        }
    } else if s.alpha_mode {
        CpuState { alpha_registers: s.alpha_registers.update(index, value), ..s }
    } else {
        CpuState { beta_registers: s.beta_registers.update(index, value), ..s }
    }
}

/// Reading a flag flipflop of the live bank.
pub open spec fn spec_read_flag(s: CpuState, index: int) -> bool {
    spec_live_flags(s)[index]
}

/// Writing a flag flipflop of the live bank.
pub open spec fn spec_write_flag(s: CpuState, index: int, value: bool) -> CpuState {
    if s.alpha_mode {
        CpuState { alpha_flipflops: s.alpha_flipflops.update(index, value), ..s }
    } else {
        CpuState { beta_flipflops: s.beta_flipflops.update(index, value), ..s }
    }
}

/// The number of one bits in a byte.
pub open spec fn spec_popcount(v: u8) -> int {
    ((v >> 0) & 1) + ((v >> 1) & 1) + ((v >> 2) & 1) + ((v >> 3) & 1) + ((v >> 4) & 1) + ((v >> 5)
        & 1) + ((v >> 6) & 1) + ((v >> 7) & 1)
}

/// Odd parity: set exactly when the byte holds an odd number of one bits.
pub open spec fn spec_parity(v: u8) -> bool {
    spec_popcount(v) % 2 == 1
}

/// Re-derivation of the Zero, Sign and Parity flags from the accumulator,
/// performed as a unit after every ALU operation.  The Carry flag is not
/// touched here.
pub open spec fn spec_update_flags(s: CpuState) -> CpuState {
    let a = spec_read_reg(s, 0);
    let s1 = spec_write_flag(s, 1, a == 0);
    let s2 = spec_write_flag(s1, 2, a & 0x80 != 0);
    spec_write_flag(s2, 3, spec_parity(a))
}

/// A push on the hardware stack: at capacity the oldest entry is dropped
/// first, so the stack never exceeds `STACK_CAPACITY` entries.
pub open spec fn spec_push_stack(s: CpuState, value: u16) -> CpuState {
    let trimmed = if s.stack.len() >= STACK_CAPACITY {
        s.stack.subrange(s.stack.len() - (STACK_CAPACITY - 1), s.stack.len() as int)
    } else {
        s.stack
    };
    CpuState { stack: trimmed.push(value), ..s }
}

/// A pop from the hardware stack: the most recently pushed entry leaves
/// first; an empty stack yields nothing and is unchanged.
pub open spec fn spec_pop_stack(s: CpuState) -> (CpuState, Option<u16>) {
    if s.stack.len() == 0 {
        (s, None)
    } else {
        (
            CpuState { stack: s.stack.drop_last(), ..s },
            Some(s.stack.last()),
        )
    }
}

/// Reading one byte at the program counter, advancing it; past the end of
/// memory nothing is read and the counter stays.
pub open spec fn spec_get_from_mem(s: CpuState) -> (CpuState, Option<u8>) {
    if s.program_counter < MEMORY_SIZE {
        (
            CpuState { program_counter: (s.program_counter + 1) as u16, ..s },
            Some(s.memory[s.program_counter as int]),
        )
    } else {
        (s, None)
    }
}

/// Fetching and decoding the instruction at the program counter.  The
/// counter advances past every byte that was read.  The result is `None`
/// when the opcode byte, or an immediate or address byte the instruction
/// needs, lies past the end of memory.
pub open spec fn spec_fetch(s: CpuState) -> (CpuState, Option<Instruction>) {
    let (s1, first) = spec_get_from_mem(s);
    match first {
        Option::None => (s1, Option::None),
        Option::Some(op) => {
            let it = spec_decode(op);
            if spec_has_operand(it) {
                let (s2, second) = spec_get_from_mem(s1);
                match second {
                    Option::None => (s2, Option::None),
                    Option::Some(v) => (
                        s2,
                        Option::Some(
                            Instruction {
                                instruction_type: it,
                                opcode: op,
                                operand: Option::Some(v),
                                address: Option::None,
                            },
                        ),
                    ),
                }
            } else if spec_has_address(it) {
                let (s2, second) = spec_get_from_mem(s1);
                let (s3, third) = spec_get_from_mem(s2);
                match (second, third) {
                    (Option::Some(lo), Option::Some(hi)) => (
                        s3,
                        Option::Some(
                            Instruction {
                                instruction_type: it,
                                opcode: op,
                                operand: Option::None,
                                address: Option::Some((lo + hi * 256) as u16),
                            },
                        ),
                    ),
                    _ => (s3, Option::None),
                }
            } else {
                (
                    s1,
                    Option::Some(
                        Instruction {
                            instruction_type: it,
                            opcode: op,
                            operand: Option::None,
                            address: Option::None,
                        },
                    ),
                )
            }
        },
    }
}

/// The CPU of the Datapoint 2200.
#[derive(Debug)]
pub struct Cpu {
    pub halted: bool,
    pub intr_enabled: bool,
    pub intr_saved: bool,
    pub memory: Vec<u8>,
    pub alpha_mode: bool,
    pub alpha_registers: Vec<u8>,
    pub alpha_flipflops: Vec<bool>,
    pub beta_registers: Vec<u8>,
    pub beta_flipflops: Vec<bool>,
    pub program_counter: u16,
    pub instruction_register: Instruction,
    pub stack: Vec<u16>,
}

impl View for Cpu {
    type V = CpuState;

    open spec fn view(&self) -> CpuState {
        CpuState {
            halted: self.halted,
            intr_enabled: self.intr_enabled,
            intr_saved: self.intr_saved,
            memory: self.memory@,
            alpha_mode: self.alpha_mode,
            alpha_registers: self.alpha_registers@,
            alpha_flipflops: self.alpha_flipflops@,
            beta_registers: self.beta_registers@,
            beta_flipflops: self.beta_flipflops@,
            program_counter: self.program_counter,
            instruction_register: self.instruction_register,
            stack: self.stack@,
        }
    }
}

/// A vector holding `n` copies of `value`.
fn filled<T: Copy>(value: T, n: usize) -> (v: Vec<T>)
    ensures
        v@ == Seq::new(n as nat, |i: int| value),
{
    let mut v: Vec<T> = Vec::new();
    let mut i: usize = 0;
    while i < n
        invariant
            i <= n,
            v@ == Seq::new(i as nat, |j: int| value),
        decreases n - i,
    {
        v.push(value);
        i = i + 1;
        proof {
            assert(v@ =~= Seq::new(i as nat, |j: int| value));
        }
    }
    v
}

impl Cpu {
    /// A freshly powered-on CPU: memory and both banks zeroed, alpha bank
    /// live, program counter 0, stack empty, not halted, interrupts off.
    pub fn build() -> (cpu: Cpu)
        ensures
            cpu@.wf(),
            cpu@ == Cpu::build_state(),
    {
        let cpu = Cpu {
            halted: false,
            intr_enabled: false,
            intr_saved: false,
            memory: filled(0u8, MEMORY_SIZE),
            alpha_mode: true,
            alpha_registers: filled(0u8, NUM_REGISTERS),
            alpha_flipflops: filled(false, NUM_FLAGS),
            beta_registers: filled(0u8, NUM_REGISTERS),
            beta_flipflops: filled(false, NUM_FLAGS),
            program_counter: 0,
            stack: Vec::new(),
            instruction_register: Instruction::unknown(),
        };
        proof {
            assert(cpu@ =~= Cpu::build_state());
        }
        cpu
    }

    /// A CPU whose memory is loaded with `mem` from address 0; bytes past
    /// the image stay zero, and bytes past the end of memory are dropped.
    pub fn new(mem: Vec<u8>) -> (cpu: Cpu)
        ensures
            cpu@.wf(),
            (cpu@ == CpuState { memory: cpu@.memory, ..Cpu::build_state() }),
            forall|i: int|
                0 <= i < MEMORY_SIZE ==> cpu@.memory[i] == (if i < mem@.len() {
                    mem@[i]
                } else {
                    0u8
                }),
            cpu@.memory.len() == MEMORY_SIZE,
    {
        let mut cpu = Cpu::build();
        proof {
            assert(cpu@ =~= CpuState { memory: cpu@.memory, ..Cpu::build_state() });
        }
        let mut i: usize = 0;
        let ghost base = cpu@;
        while i < mem.len() && i < MEMORY_SIZE
            invariant
                base.wf(),
                (cpu@ == CpuState { memory: cpu@.memory, ..base }),
                (base == CpuState { memory: base.memory, ..Cpu::build_state() }),
                cpu@.memory.len() == MEMORY_SIZE,
                i <= mem@.len(),
                forall|k: int|
                    0 <= k < MEMORY_SIZE ==> cpu@.memory[k] == (if k < i && k < mem@.len() {
                        mem@[k]
                    } else {
                        0u8
                    }),
            decreases mem@.len() - i,
        {
            self_set_memory(&mut cpu, i, mem[i]);
            i = i + 1;
        }
        cpu
    }

    /// The state `build` produces, for use in contracts.
    pub open spec fn build_state() -> CpuState {
        CpuState {
            halted: false,
            intr_enabled: false,
            intr_saved: false,
            memory: Seq::new(MEMORY_SIZE as nat, |i: int| 0u8),
            alpha_mode: true,
            alpha_registers: Seq::new(NUM_REGISTERS as nat, |i: int| 0u8),
            alpha_flipflops: Seq::new(NUM_FLAGS as nat, |i: int| false),
            beta_registers: Seq::new(NUM_REGISTERS as nat, |i: int| 0u8),
            beta_flipflops: Seq::new(NUM_FLAGS as nat, |i: int| false),
            program_counter: 0,
            instruction_register: Instruction {
                instruction_type: InstructionType::Unknown,
                opcode: 0,
                operand: Option::None,
                address: Option::None,
            },
            stack: Seq::empty(),
        }
    }

    /// Latch a pending interrupt; it is serviced after the next executed
    /// instruction, interrupts permitting.
    pub fn interrupt(&mut self)
        ensures
            (final(self)@ == CpuState { intr_saved: true, ..old(self)@ }),
    {
        self.intr_saved = true;
    }

    /// Read a live-bank register; index 7 reads through the M alias.
    pub fn read_reg(&self, index: u8) -> (r: u8)
        requires
            self@.wf(),
            index <= 7,
        ensures
            r == spec_read_reg(self@, index as int),
    {
        if index == 7 {
            let hl = self.get_hl_address();
            if (hl as usize) < MEMORY_SIZE {
                return self.memory[hl as usize];
            }
            return 0;
        }
        if self.alpha_mode {
            self.alpha_registers[index as usize]
        } else {
            self.beta_registers[index as usize]
        }
    }

    /// Write a live-bank register; index 7 writes through the M alias.
    pub fn write_reg(&mut self, index: u8, value: u8)
        requires
            old(self)@.wf(),
            index <= 7,
        ensures
            final(self)@ == spec_write_reg(old(self)@, index as int, value),
            final(self)@.wf(),
    {
        if index == 7 {
            let hl = self.get_hl_address();
            if (hl as usize) < MEMORY_SIZE {
                self.memory.set(hl as usize, value);
            }
            return ;
        }
        if self.alpha_mode {
            self.alpha_registers.set(index as usize, value);
        } else {
            self.beta_registers.set(index as usize, value);
        }
    }

    /// Read a live-bank flag flipflop.
    pub fn read_flag(&self, index: u8) -> (r: bool)
        requires
            self@.wf(),
            index <= 3,
        ensures
            r == spec_read_flag(self@, index as int),
    {
        if self.alpha_mode {
            self.alpha_flipflops[index as usize]
        } else {
            self.beta_flipflops[index as usize]
        }
    }

    /// Write a live-bank flag flipflop.
    pub fn write_flag(&mut self, index: u8, value: bool)
        requires
            old(self)@.wf(),
            index <= 3,
        ensures
            final(self)@ == spec_write_flag(old(self)@, index as int, value),
            final(self)@.wf(),
    {
        if self.alpha_mode {
            self.alpha_flipflops.set(index as usize, value);
        } else {
            self.beta_flipflops.set(index as usize, value);
        }
    }

    /// Recompute Zero, Sign and Parity from the accumulator.
    pub fn update_flags(&mut self)
        requires
            old(self)@.wf(),
        ensures
            final(self)@ == spec_update_flags(old(self)@),
            final(self)@.wf(),
    {
        let a = self.read_reg(0);
        self.write_flag(1, a == 0);
        self.write_flag(2, a & 0x80 != 0);
        self.write_flag(3, parity(a));
    }

    /// The 16-bit address formed from registers H and L of the live bank.
    pub fn get_hl_address(&self) -> (r: u16)
        requires
            self@.wf(),
        ensures
            r as int == spec_hl(self@),
    {
        let h = if self.alpha_mode {
            self.alpha_registers[5]
        } else {
            self.beta_registers[5]
        };
        let l = if self.alpha_mode {
            self.alpha_registers[6]
        } else {
            self.beta_registers[6]
        };
        (h as u16) * 256 + (l as u16)
    }

    /// Push a return address; at capacity the oldest entry is dropped, so
    /// the stack never grows past `STACK_CAPACITY`.
    pub fn push_stack(&mut self, value: u16)
        requires
            old(self)@.wf(),
        ensures
            final(self)@ == spec_push_stack(old(self)@, value),
            final(self)@.wf(),
            final(self)@.stack.len() <= STACK_CAPACITY,
            final(self)@.stack.last() == value,
    {
        if self.stack.len() >= STACK_CAPACITY {
            self.stack.remove(0);
        }
        self.stack.push(value);
        proof {
            assert(final(self)@ =~= spec_push_stack(old(self)@, value));
        }
    }

    /// Pop the most recently pushed return address; an empty stack yields
    /// `None` and stays unchanged.
    pub fn pop_stack(&mut self) -> (r: Option<u16>)
        requires
            old(self)@.wf(),
        ensures
            final(self)@ == spec_pop_stack(old(self)@).0,
            r == spec_pop_stack(old(self)@).1,
            final(self)@.wf(),
    {
        let r = self.stack.pop();
        proof {
            assert(final(self)@ =~= spec_pop_stack(old(self)@).0);
        }
        r
    }

    /// Read the byte at the program counter and advance it; past the end of
    /// memory nothing is read.
    fn get_from_mem(&mut self) -> (r: Option<u8>)
        requires
            old(self)@.wf(),
        ensures
            final(self)@ == spec_get_from_mem(old(self)@).0,
            r == spec_get_from_mem(old(self)@).1,
            final(self)@.wf(),
    {
        if (self.program_counter as usize) < MEMORY_SIZE {
            let b = self.memory[self.program_counter as usize];
            self.program_counter = self.program_counter + 1;
            Some(b)
        } else {
            None
        }
    }

    /// Fetch and decode the instruction at the program counter, advancing it
    /// past every byte read.  Yields `None` when the opcode or a needed
    /// operand byte lies past the end of memory.
    pub fn fetch_instruction(&mut self) -> (r: Option<Instruction>)
        requires
            old(self)@.wf(),
        ensures
            final(self)@ == spec_fetch(old(self)@).0,
            r == spec_fetch(old(self)@).1,
            final(self)@.wf(),
            r is Some ==> r->0.instruction_type == spec_decode(r->0.opcode),
            r is Some && spec_has_operand(r->0.instruction_type) ==> r->0.operand is Some,
            r is Some && spec_has_address(r->0.instruction_type) ==> r->0.address is Some,
    {
        let first = self.get_from_mem();
        let op = match first {
            Some(op) => op,
            None => {
                return None;
            },
        };
        let it = decode_op(op);
        if has_operand(it) {
            let second = self.get_from_mem();
            match second {
                Some(v) => Some(
                    Instruction {
                        instruction_type: it,
                        opcode: op,
                        operand: Some(v),
                        address: None,
                    },
                ),
                None => None,
            }
        } else if has_address(it) {
            let second = self.get_from_mem();
            let third = self.get_from_mem();
            match (second, third) {
                (Some(lo), Some(hi)) => Some(
                    Instruction {
                        instruction_type: it,
                        opcode: op,
                        operand: None,
                        address: Some((lo as u16) + (hi as u16) * 256),
                    },
                ),
                _ => None,
            }
        } else {
            Some(Instruction { instruction_type: it, opcode: op, operand: None, address: None })
        }
    }
}

/// Write one memory cell of a CPU; used while loading a program image.
fn self_set_memory(cpu: &mut Cpu, addr: usize, value: u8)
    requires
        old(cpu)@.wf(),
        addr < MEMORY_SIZE,
    ensures
        (final(cpu)@ == CpuState {
            memory: old(cpu)@.memory.update(addr as int, value),
            ..old(cpu)@
        }),
        final(cpu)@.wf(),
{
    cpu.memory.set(addr, value);
}

/// Odd parity of a byte: true exactly when it holds an odd number of one
/// bits.
pub fn parity(v: u8) -> (r: bool)
    ensures
        r == spec_parity(v),
{
    proof {
        assert(((v >> 0) & 1) <= 1 && ((v >> 1) & 1) <= 1 && ((v >> 2) & 1) <= 1 && ((v >> 3) & 1)
            <= 1 && ((v >> 4) & 1) <= 1 && ((v >> 5) & 1) <= 1 && ((v >> 6) & 1) <= 1 && ((v >> 7)
            & 1) <= 1) by (bit_vector);
    }
    let count = ((v >> 0) & 1) + ((v >> 1) & 1) + ((v >> 2) & 1) + ((v >> 3) & 1) + ((v >> 4) & 1)
        + ((v >> 5) & 1) + ((v >> 6) & 1) + ((v >> 7) & 1);
    count % 2 == 1
}

/// The instruction type of an opcode byte; mirrors `spec_decode`.
pub fn decode_op(op: u8) -> (it: InstructionType)
    ensures
        it == spec_decode(op),
{
    let inst = Instruction { instruction_type: InstructionType::Unknown, opcode: op, operand: None, address: None };
    let t = inst.get_instruction_type();
    let d = inst.get_destination();
    let s = inst.get_source();
    if t == 0 && s == 6 {
        InstructionType::LoadImm
    } else if t == 3 && d == 0 && s == 0 {
        InstructionType::Nop
    } else if t == 3 && d == 7 && s == 7 {
        InstructionType::Halt
    } else if t == 3 {
        InstructionType::Load
    } else if t == 0 && d == 0 && s == 4 {
        InstructionType::AddImm
    } else if t == 2 && d == 0 {
        InstructionType::Add
    } else if t == 0 && d == 1 && s == 4 {
        InstructionType::AddImmCarry
    } else if t == 2 && d == 1 {
        InstructionType::AddCarry
    } else if t == 0 && d == 2 && s == 4 {
        InstructionType::SubImm
    } else if t == 2 && d == 2 {
        InstructionType::Sub
    } else if t == 0 && d == 3 && s == 4 {
        InstructionType::SubImmBorrow
    } else if t == 2 && d == 3 {
        InstructionType::SubBorrow
    } else if t == 0 && d == 4 && s == 4 {
        InstructionType::AndImm
    } else if t == 2 && d == 4 {
        InstructionType::And
    } else if t == 0 && d == 6 && s == 4 {
        InstructionType::OrImm
    } else if t == 2 && d == 6 {
        InstructionType::Or
    } else if t == 0 && d == 5 && s == 4 {
        InstructionType::XorImm
    } else if t == 2 && d == 5 {
        InstructionType::Xor
    } else if t == 0 && d == 7 && s == 4 {
        InstructionType::CompImm
    } else if t == 2 && d == 7 {
        InstructionType::Comp
    } else if t == 1 && d == 0 && s == 4 {
        InstructionType::Jump
    } else if t == 1 && d >= 4 && s == 0 {
        InstructionType::JumpIf
    } else if t == 1 && s == 0 {
        InstructionType::JumpIfNot
    } else if t == 1 && d == 0 && s == 6 {
        InstructionType::Call
    } else if t == 1 && d >= 4 && s == 2 {
        InstructionType::CallIf
    } else if t == 1 && s == 2 {
        InstructionType::CallIfNot
    } else if t == 0 && d == 0 && s == 7 {
        InstructionType::Return
    } else if t == 0 && d >= 4 && s == 3 {
        InstructionType::ReturnIf
    } else if t == 0 && s == 3 {
        InstructionType::ReturnIfNot
    } else if t == 0 && d == 1 && s == 2 {
        InstructionType::ShiftRight
    } else if t == 0 && d == 0 && s == 2 {
        InstructionType::ShiftLeft
    } else if t == 0 && d == 0 && s == 0 {
        InstructionType::Halt
    } else if t == 0 && d == 0 && s == 1 {
        InstructionType::Halt
    } else if t == 1 && d == 0 && s == 1 {
        InstructionType::Input
    } else if t == 0 && d == 6 && s == 0 {
        InstructionType::Pop
    } else if t == 0 && d == 7 && s == 0 {
        InstructionType::Push
    } else if t == 0 && d == 5 && s == 0 {
        InstructionType::EnableIntr
    } else if t == 0 && d == 4 && s == 0 {
        InstructionType::DisableInts
    } else if t == 0 && d == 3 && s == 0 {
        InstructionType::SelectAlpha
    } else if t == 0 && d == 2 && s == 0 {
        InstructionType::SelectBeta
    } else if op == 0o121 {
        InstructionType::Adr
    } else if op == 0o123 {
        InstructionType::Status
    } else if op == 0o125 {
        InstructionType::Data
    } else if op == 0o127 {
        InstructionType::Write
    } else if op == 0o131 {
        InstructionType::Com1
    } else if op == 0o133 {
        InstructionType::Com2
    } else if op == 0o135 {
        InstructionType::Com3
    } else if op == 0o137 {
        InstructionType::Com4
    } else if op == 0o151 {
        InstructionType::Beep
    } else if op == 0o153 {
        InstructionType::Click
    } else if op == 0o155 {
        InstructionType::Deck1
    } else if op == 0o157 {
        InstructionType::Deck2
    } else if op == 0o161 {
        InstructionType::Rbk
    } else if op == 0o163 {
        InstructionType::Wbk
    } else if op == 0o167 {
        InstructionType::Bsp
    } else if op == 0o171 {
        InstructionType::Sf
    } else if op == 0o173 {
        InstructionType::Sb
    } else if op == 0o175 {
        InstructionType::Rewind
    } else if op == 0o177 {
        InstructionType::Tstop
    } else {
        InstructionType::Unknown
    }
}

/// Whether this instruction type carries a one-byte immediate operand;
/// mirrors `spec_has_operand`.
fn has_operand(it: InstructionType) -> (r: bool)
    ensures
        r == spec_has_operand(it),
{
    match it {
        InstructionType::LoadImm => true,
        InstructionType::AddImm => true,
        InstructionType::AddImmCarry => true,
        InstructionType::SubImm => true,
        InstructionType::SubImmBorrow => true,
        InstructionType::AndImm => true,
        InstructionType::OrImm => true,
        InstructionType::XorImm => true,
        InstructionType::CompImm => true,
        _ => false,
    }
}

/// Whether this instruction type carries a two-byte address; mirrors
/// `spec_has_address`.
fn has_address(it: InstructionType) -> (r: bool)
    ensures
        r == spec_has_address(it),
{
    match it {
        InstructionType::Jump => true,
        InstructionType::JumpIf => true,
        InstructionType::JumpIfNot => true,
        InstructionType::Call => true,
        InstructionType::CallIf => true,
        InstructionType::CallIfNot => true,
        _ => false,
    }
}


/// The sum of accumulator, operand and carry-in: the low byte and the
/// carry out of bit 7.
pub open spec fn spec_add8(a: u8, x: u8, cin: int) -> (u8, bool) {
    let sum = a + x + cin;
    (((sum % 256) as u8), sum > 255)
}

/// The difference of accumulator, operand and borrow-in, two's
/// complement: the low byte and the borrow flag.
pub open spec fn spec_sub8(a: u8, x: u8, bin: int) -> (u8, bool) {
    let diff = a - x - bin;
    ((((diff + 512) % 256) as u8), diff < 0)
}

/// The byte rotated right one bit; bit 0 moves to bit 7.
pub open spec fn spec_rot_right(a: u8) -> u8 {
    (a >> 1) | ((a & 1) << 7)
}

/// The byte rotated left one bit; bit 7 moves to bit 0.
pub open spec fn spec_rot_left(a: u8) -> u8 {
    (a << 1) | (a >> 7)
}

/// The CPU after an add-family result: carry written, the low byte put in
/// the accumulator, Zero/Sign/Parity re-derived.
pub open spec fn spec_alu_set(c: CpuState, value: u8, carry: bool) -> CpuState {
    spec_update_flags(spec_write_reg(spec_write_flag(c, 0, carry), 0, value))
}

/// The CPU after a bitwise ALU result: the byte put in the accumulator,
/// carry cleared, Zero/Sign/Parity re-derived.
pub open spec fn spec_logic_set(c: CpuState, value: u8) -> CpuState {
    spec_update_flags(spec_write_flag(spec_write_reg(c, 0, value), 0, false))
}

/// Interrupt servicing after an executed instruction: a latched interrupt
/// is taken when interrupts are enabled and the instruction just executed
/// was not EnableIntr (one instruction of delay); taking it pushes the
/// program counter and jumps to address 0.
pub open spec fn spec_service_intr(c: CpuState, it: InstructionType) -> CpuState {
    if c.intr_saved && c.intr_enabled && it != InstructionType::EnableIntr {
        CpuState {
            program_counter: 0,
            intr_saved: false,
            ..spec_push_stack(c, c.program_counter)
        }
    } else {
        c
    }
}

/// Whether this instruction type is a register move or ALU operation,
/// which touches the CPU alone.
pub open spec fn spec_is_move_or_alu(it: InstructionType) -> bool {
    ||| it == InstructionType::LoadImm
    ||| it == InstructionType::Load
    ||| it == InstructionType::AddImm
    ||| it == InstructionType::Add
    ||| it == InstructionType::AddImmCarry
    ||| it == InstructionType::AddCarry
    ||| it == InstructionType::SubImm
    ||| it == InstructionType::Sub
    ||| it == InstructionType::SubImmBorrow
    ||| it == InstructionType::SubBorrow
    ||| it == InstructionType::AndImm
    ||| it == InstructionType::And
    ||| it == InstructionType::OrImm
    ||| it == InstructionType::Or
    ||| it == InstructionType::XorImm
    ||| it == InstructionType::Xor
    ||| it == InstructionType::CompImm
    ||| it == InstructionType::Comp
}

/// Whether this instruction type is a jump, call or return.
pub open spec fn spec_is_branch(it: InstructionType) -> bool {
    ||| it == InstructionType::Jump
    ||| it == InstructionType::JumpIf
    ||| it == InstructionType::JumpIfNot
    ||| it == InstructionType::Call
    ||| it == InstructionType::CallIf
    ||| it == InstructionType::CallIfNot
    ||| it == InstructionType::Return
    ||| it == InstructionType::ReturnIf
    ||| it == InstructionType::ReturnIfNot
}

/// Whether this instruction type is a control-flow, shift, stack or CPU
/// mode operation, which touches the CPU alone.
pub open spec fn spec_is_flow(it: InstructionType) -> bool {
    ||| it == InstructionType::Jump
    ||| it == InstructionType::JumpIf
    ||| it == InstructionType::JumpIfNot
    ||| it == InstructionType::Call
    ||| it == InstructionType::CallIf
    ||| it == InstructionType::CallIfNot
    ||| it == InstructionType::Return
    ||| it == InstructionType::ReturnIf
    ||| it == InstructionType::ReturnIfNot
    ||| it == InstructionType::ShiftRight
    ||| it == InstructionType::ShiftLeft
    ||| it == InstructionType::Nop
    ||| it == InstructionType::Pop
    ||| it == InstructionType::Push
    ||| it == InstructionType::EnableIntr
    ||| it == InstructionType::DisableInts
    ||| it == InstructionType::SelectAlpha
    ||| it == InstructionType::SelectBeta
}

/// The CPU and bus after the instruction register's instruction runs,
/// before interrupt servicing.
pub open spec fn spec_execute_core(c: CpuState, b: DatabusState) -> (CpuState, DatabusState) {
    let inst = c.instruction_register;
    let hl = spec_hl(c);
    let s = spec_op_src(inst.opcode) as int;
    let d = spec_op_dest(inst.opcode) as int;
    let cc = if d >= 4 {
        d - 4
    } else {
        d
    };
    match inst.instruction_type {
        InstructionType::LoadImm => (spec_write_reg(c, d, inst.operand->0), b),
        InstructionType::Load => if d == 7 && s == 7 {
            (CpuState { halted: true, ..c }, b)
        } else if d == 7 {
            (spec_write_reg(c, 7, spec_read_reg(c, s)), b)
        } else if s == 7 {
            if hl < MEMORY_SIZE {
                (spec_write_reg(c, d, c.memory[hl]), b)
            } else {
                (c, b)
            }
        } else {
            (spec_write_reg(c, d, spec_read_reg(c, s)), b)
        },
        InstructionType::AddImm => {
            let (v, carry) = spec_add8(spec_read_reg(c, 0), inst.operand->0, 0);
            (spec_alu_set(c, v, carry), b)
        },
        InstructionType::Add => {
            let (v, carry) = spec_add8(spec_read_reg(c, 0), spec_read_reg(c, s), 0);
            (spec_alu_set(c, v, carry), b)
        },
        InstructionType::AddImmCarry => {
            let cin = if spec_read_flag(c, 0) {
                1int
            } else {
                0int
            };
            let (v, carry) = spec_add8(spec_read_reg(c, 0), inst.operand->0, cin);
            (spec_alu_set(c, v, carry), b)
        },
        InstructionType::AddCarry => {
            let cin = if spec_read_flag(c, 0) {
                1int
            } else {
                0int
            };
            let (v, carry) = spec_add8(spec_read_reg(c, 0), spec_read_reg(c, s), cin);
            (spec_alu_set(c, v, carry), b)
        },
        InstructionType::SubImm => {
            let (v, borrow) = spec_sub8(spec_read_reg(c, 0), inst.operand->0, 0);
            (spec_alu_set(c, v, borrow), b)
        },
        InstructionType::Sub => {
            let (v, borrow) = spec_sub8(spec_read_reg(c, 0), spec_read_reg(c, s), 0);
            (spec_alu_set(c, v, borrow), b)
        },
        InstructionType::SubImmBorrow => {
            let bin = if spec_read_flag(c, 0) {
                1int
            } else {
                0int
            };
            let (v, borrow) = spec_sub8(spec_read_reg(c, 0), inst.operand->0, bin);
            (spec_alu_set(c, v, borrow), b)
        },
        InstructionType::SubBorrow => {
            let bin = if spec_read_flag(c, 0) {
                1int
            } else {
                0int
            };
            let (v, borrow) = spec_sub8(spec_read_reg(c, 0), spec_read_reg(c, s), bin);
            (spec_alu_set(c, v, borrow), b)
        },
        InstructionType::AndImm => (spec_logic_set(c, spec_read_reg(c, 0) & inst.operand->0), b),
        InstructionType::And => (spec_logic_set(c, spec_read_reg(c, 0) & spec_read_reg(c, s)), b),
        InstructionType::OrImm => (spec_logic_set(c, spec_read_reg(c, 0) | inst.operand->0), b),
        InstructionType::Or => (spec_logic_set(c, spec_read_reg(c, 0) | spec_read_reg(c, s)), b),
        InstructionType::XorImm => (spec_logic_set(c, spec_read_reg(c, 0) ^ inst.operand->0), b),
        InstructionType::Xor => (spec_logic_set(c, spec_read_reg(c, 0) ^ spec_read_reg(c, s)), b),
        InstructionType::CompImm => {
            let saved = spec_read_reg(c, 0);
            let (v, borrow) = spec_sub8(spec_read_reg(c, 0), inst.operand->0, 0);
            (spec_write_reg(spec_alu_set(c, v, borrow), 0, saved), b)
        },
        InstructionType::Comp => {
            let saved = spec_read_reg(c, 0);
            let (v, borrow) = spec_sub8(spec_read_reg(c, 0), spec_read_reg(c, s), 0);
            (spec_write_reg(spec_alu_set(c, v, borrow), 0, saved), b)
        },
        InstructionType::Jump => (
            CpuState { program_counter: inst.address->0 & 0x1fff, ..c },
            b,
        ),
        InstructionType::JumpIf => if spec_read_flag(c, cc) {
            (CpuState { program_counter: inst.address->0 & 0x1fff, ..c }, b)
        } else {
            (c, b)
        },
        InstructionType::JumpIfNot => if !spec_read_flag(c, cc) {
            (CpuState { program_counter: inst.address->0 & 0x1fff, ..c }, b)
        } else {
            (c, b)
        },
        InstructionType::Call => (
            CpuState {
                program_counter: inst.address->0 & 0x1fff,
                ..spec_push_stack(c, c.program_counter)
            },
            b,
        ),
        InstructionType::CallIf => if spec_read_flag(c, cc) {
            (
                CpuState {
                    program_counter: inst.address->0 & 0x1fff,
                    ..spec_push_stack(c, c.program_counter)
                },
                b,
            )
        } else {
            (c, b)
        },
        InstructionType::CallIfNot => if !spec_read_flag(c, cc) {
            (
                CpuState {
                    program_counter: inst.address->0 & 0x1fff,
                    ..spec_push_stack(c, c.program_counter)
                },
                b,
            )
        } else {
            (c, b)
        },
        InstructionType::Return => {
            let (c1, popped) = spec_pop_stack(c);
            match popped {
                Some(addr) => (CpuState { program_counter: addr, ..c1 }, b),
                None => (c, b),
            }
        },
        InstructionType::ReturnIf => if spec_read_flag(c, cc) {
            let (c1, popped) = spec_pop_stack(c);
            match popped {
                Some(addr) => (CpuState { program_counter: addr, ..c1 }, b),
                None => (c, b),
            }
        } else {
            (c, b)
        },
        InstructionType::ReturnIfNot => if !spec_read_flag(c, cc) {
            let (c1, popped) = spec_pop_stack(c);
            match popped {
                Some(addr) => (CpuState { program_counter: addr, ..c1 }, b),
                None => (c, b),
            }
        } else {
            (c, b)
        },
        InstructionType::ShiftRight => {
            let v = spec_rot_right(spec_read_reg(c, 0));
            (spec_write_flag(spec_write_reg(c, 0, v), 0, v & 0x80 == 0x80), b)
        },
        InstructionType::ShiftLeft => {
            let v = spec_rot_left(spec_read_reg(c, 0));
            (spec_write_flag(spec_write_reg(c, 0, v), 0, v & 0x1 == 0x1), b)
        },
        InstructionType::Nop => (c, b),
        InstructionType::Halt => (
            CpuState { halted: true, ..c },
            spec_execute_command(b, inst.instruction_type, spec_read_reg(c, 0)),
        ),
        InstructionType::Pop => {
            let (c1, popped) = spec_pop_stack(c);
            match popped {
                Some(value) => (
                    spec_write_reg(
                        spec_write_reg(c1, 5, ((value >> 8) & 0xff) as u8),
                        6,
                        (value & 0xff) as u8,
                    ),
                    b,
                ),
                None => (c, b),
            }
        },
        InstructionType::Push => (spec_push_stack(c, (hl % 0x10000) as u16), b),
        InstructionType::EnableIntr => (CpuState { intr_enabled: true, ..c }, b),
        InstructionType::DisableInts => (CpuState { intr_enabled: false, ..c }, b),
        InstructionType::SelectAlpha => (CpuState { alpha_mode: true, ..c }, b),
        InstructionType::SelectBeta => (CpuState { alpha_mode: false, ..c }, b),
        InstructionType::Input => (
            spec_write_reg(c, 0, spec_read_bus(b)),
            spec_bus_strobe(b),
        ),
        InstructionType::Status => (
            c,
            DatabusState { selected_mode: DatabusMode::Status, ..b },
        ),
        InstructionType::Data => (
            c,
            DatabusState { selected_mode: DatabusMode::Data, ..b },
        ),
        _ => (c, spec_execute_command(b, inst.instruction_type, spec_read_reg(c, 0))),
    }
}

/// The CPU and bus after one instruction executes and a pending interrupt
/// is serviced; a halted CPU does nothing.
pub open spec fn spec_execute(c: CpuState, b: DatabusState) -> (CpuState, DatabusState) {
    if c.halted {
        (c, b)
    } else {
        let r = spec_execute_core(c, b);
        (spec_service_intr(r.0, c.instruction_register.instruction_type), r.1)
    }
}

/// Whether the instruction register holds an instruction the execution
/// unit can run: a decoded type with the operand bytes its family needs.
pub open spec fn spec_executable(inst: Instruction) -> bool {
    &&& inst.instruction_type != InstructionType::Unknown
    &&& spec_has_operand(inst.instruction_type) ==> inst.operand is Some
    &&& spec_has_address(inst.instruction_type) ==> inst.address is Some
}

impl Cpu {
    /// Execute the instruction in the instruction register against the
    /// databus, then service a pending interrupt; see `spec_execute`.
    pub fn execute_instruction(&mut self, databus: &mut Databus)
        requires
            old(self)@.wf(),
            old(databus)@.wf(),
            spec_executable(old(self)@.instruction_register),
        ensures
            final(self)@ == spec_execute(old(self)@, old(databus)@).0,
            final(databus)@ == spec_execute(old(self)@, old(databus)@).1,
            final(self)@.wf(),
            final(databus)@.wf(),
    {
        if self.halted {
            return ;
        }
        self.execute_core(databus);
        let inst = self.instruction_register;
        if self.intr_saved {
            if self.intr_enabled && !matches!(inst.instruction_type, InstructionType::EnableIntr) {
                let pc = self.program_counter;
                self.push_stack(pc);
                self.program_counter = 0;
                self.intr_saved = false;
            }
        }
    }

    /// The instruction itself, without interrupt servicing; see
    /// `spec_execute_core`.
    fn execute_core(&mut self, databus: &mut Databus)
        requires
            old(self)@.wf(),
            old(databus)@.wf(),
            spec_executable(old(self)@.instruction_register),
        ensures
            final(self)@ == spec_execute_core(old(self)@, old(databus)@).0,
            final(databus)@ == spec_execute_core(old(self)@, old(databus)@).1,
            final(self)@.wf(),
            final(databus)@.wf(),
            final(self)@.instruction_register == old(self)@.instruction_register,
    {
        if matches!(
            self.instruction_register.instruction_type,
            InstructionType::LoadImm | InstructionType::Load | InstructionType::AddImm
                | InstructionType::Add | InstructionType::AddImmCarry | InstructionType::AddCarry
                | InstructionType::SubImm | InstructionType::Sub | InstructionType::SubImmBorrow
                | InstructionType::SubBorrow | InstructionType::AndImm | InstructionType::And
                | InstructionType::OrImm | InstructionType::Or | InstructionType::XorImm
                | InstructionType::Xor | InstructionType::CompImm | InstructionType::Comp,
        ) {
            self.exec_moves_and_alu();
        } else if matches!(
            self.instruction_register.instruction_type,
            InstructionType::Jump | InstructionType::JumpIf | InstructionType::JumpIfNot
                | InstructionType::Call | InstructionType::CallIf | InstructionType::CallIfNot
                | InstructionType::Return | InstructionType::ReturnIf
                | InstructionType::ReturnIfNot | InstructionType::ShiftRight
                | InstructionType::ShiftLeft | InstructionType::Nop | InstructionType::Pop
                | InstructionType::Push | InstructionType::EnableIntr
                | InstructionType::DisableInts | InstructionType::SelectAlpha
                | InstructionType::SelectBeta,
        ) {
            if matches!(
                self.instruction_register.instruction_type,
                InstructionType::Jump | InstructionType::JumpIf | InstructionType::JumpIfNot
                    | InstructionType::Call | InstructionType::CallIf
                    | InstructionType::CallIfNot | InstructionType::Return
                    | InstructionType::ReturnIf | InstructionType::ReturnIfNot,
            ) {
                self.exec_branch();
            } else {
                self.exec_misc();
            }
        } else {
            self.exec_io(databus);
        }
    }

    /// The register moves and ALU arms of `spec_execute_core`; these touch
    /// the CPU alone.
    #[verifier::rlimit(60)]
    #[verifier::spinoff_prover]
    fn exec_moves_and_alu(&mut self)
        requires
            old(self)@.wf(),
            spec_executable(old(self)@.instruction_register),
            spec_is_move_or_alu(old(self)@.instruction_register.instruction_type),
        ensures
            forall|b: DatabusState|
                spec_execute_core(old(self)@, b) == (final(self)@, b),
            final(self)@.wf(),
            final(self)@.instruction_register == old(self)@.instruction_register,
    {
        let inst = self.instruction_register;
        let hl = self.get_hl_address();
        let s = inst.get_source();
        let d = inst.get_destination();
        let cc = if d >= 4 {
            d - 4
        } else {
            d
        };
        match inst.instruction_type {
            InstructionType::LoadImm => {
                let v = match inst.operand {
                    Some(v) => v,
                    None => 0,
                };
                self.write_reg(d, v);
            },
            InstructionType::Load => {
                if d == 7 && s == 7 {
                    self.halted = true;
                } else if d == 7 {
                    let v = self.read_reg(s);
                    self.write_reg(7, v);
                } else if s == 7 {
                    if (hl as usize) < MEMORY_SIZE {
                        let v = self.memory[hl as usize];
                        self.write_reg(d, v);
                    }
                } else {
                    let v = self.read_reg(s);
                    self.write_reg(d, v);
                }
            },
            InstructionType::AddImm => {
                let x = match inst.operand {
                    Some(v) => v,
                    None => 0,
                };
                self.alu_add(x, 0);
            },
            InstructionType::Add => {
                let x = self.read_reg(s);
                self.alu_add(x, 0);
            },
            InstructionType::AddImmCarry => {
                let x = match inst.operand {
                    Some(v) => v,
                    None => 0,
                };
                let cin: u8 = if self.read_flag(0) {
                    1
                } else {
                    0
                };
                self.alu_add(x, cin);
            },
            InstructionType::AddCarry => {
                let x = self.read_reg(s);
                let cin: u8 = if self.read_flag(0) {
                    1
                } else {
                    0
                };
                self.alu_add(x, cin);
            },
            InstructionType::SubImm => {
                let x = match inst.operand {
                    Some(v) => v,
                    None => 0,
                };
                self.alu_sub(x, 0);
            },
            InstructionType::Sub => {
                let x = self.read_reg(s);
                self.alu_sub(x, 0);
            },
            InstructionType::SubImmBorrow => {
                let x = match inst.operand {
                    Some(v) => v,
                    None => 0,
                };
                let bin: u8 = if self.read_flag(0) {
                    1
                } else {
                    0
                };
                self.alu_sub(x, bin);
            },
            InstructionType::SubBorrow => {
                let x = self.read_reg(s);
                let bin: u8 = if self.read_flag(0) {
                    1
                } else {
                    0
                };
                self.alu_sub(x, bin);
            },
            InstructionType::AndImm => {
                let x = match inst.operand {
                    Some(v) => v,
                    None => 0,
                };
                let v = self.read_reg(0) & x;
                self.alu_logic(v);
            },
            InstructionType::And => {
                let x = self.read_reg(s);
                let v = self.read_reg(0) & x;
                self.alu_logic(v);
            },
            InstructionType::OrImm => {
                let x = match inst.operand {
                    Some(v) => v,
                    None => 0,
                };
                let v = self.read_reg(0) | x;
                self.alu_logic(v);
            },
            InstructionType::Or => {
                let x = self.read_reg(s);
                let v = self.read_reg(0) | x;
                self.alu_logic(v);
            },
            InstructionType::XorImm => {
                let x = match inst.operand {
                    Some(v) => v,
                    None => 0,
                };
                let v = self.read_reg(0) ^ x;
                self.alu_logic(v);
            },
            InstructionType::Xor => {
                let x = self.read_reg(s);
                let v = self.read_reg(0) ^ x;
                self.alu_logic(v);
            },
            InstructionType::CompImm => {
                let x = match inst.operand {
                    Some(v) => v,
                    None => 0,
                };
                let saved = self.read_reg(0);
                self.alu_sub(x, 0);
                self.write_reg(0, saved);
            },
            InstructionType::Comp => {
                let x = self.read_reg(s);
                let saved = self.read_reg(0);
                self.alu_sub(x, 0);
                self.write_reg(0, saved);
            },
            _ => {
                proof {
                    assert(false);
                }
            },
        }
    }

    /// The jump, call and return arms of `spec_execute_core`; these touch
    /// the CPU alone.
    #[verifier::rlimit(100)]
    #[verifier::spinoff_prover]
    fn exec_branch(&mut self)
        requires
            old(self)@.wf(),
            spec_executable(old(self)@.instruction_register),
            spec_is_branch(old(self)@.instruction_register.instruction_type),
        ensures
            forall|b: DatabusState|
                spec_execute_core(old(self)@, b) == (final(self)@, b),
            final(self)@.wf(),
            final(self)@.instruction_register == old(self)@.instruction_register,
    {
        let inst = self.instruction_register;
        let hl = self.get_hl_address();
        let d = inst.get_destination();
        let cc = if d >= 4 {
            d - 4
        } else {
            d
        };
        match inst.instruction_type {
            InstructionType::Jump => {
                self.program_counter = self.inst_address() & 0x1fff;
            },
            InstructionType::JumpIf => {
                if self.read_flag(cc) {
                    self.program_counter = self.inst_address() & 0x1fff;
                }
            },
            InstructionType::JumpIfNot => {
                if !self.read_flag(cc) {
                    self.program_counter = self.inst_address() & 0x1fff;
                }
            },
            InstructionType::Call => {
                let pc = self.program_counter;
                self.push_stack(pc);
                self.program_counter = self.inst_address() & 0x1fff;
            },
            InstructionType::CallIf => {
                if self.read_flag(cc) {
                    let pc = self.program_counter;
                    self.push_stack(pc);
                    self.program_counter = self.inst_address() & 0x1fff;
                }
            },
            InstructionType::CallIfNot => {
                if !self.read_flag(cc) {
                    let pc = self.program_counter;
                    self.push_stack(pc);
                    self.program_counter = self.inst_address() & 0x1fff;
                }
            },
            InstructionType::Return => {
                self.do_return();
            },
            InstructionType::ReturnIf => {
                if self.read_flag(cc) {
                    self.do_return();
                }
            },
            InstructionType::ReturnIfNot => {
                if !self.read_flag(cc) {
                    self.do_return();
                }
            },
            _ => {
                proof {
                    assert(false);
                }
            },
        }
    }

    /// The shift, stack, no-op and CPU-mode arms of `spec_execute_core`;
    /// these touch the CPU alone.
    #[verifier::rlimit(100)]
    #[verifier::spinoff_prover]
    fn exec_misc(&mut self)
        requires
            old(self)@.wf(),
            spec_executable(old(self)@.instruction_register),
            spec_is_flow(old(self)@.instruction_register.instruction_type),
            !spec_is_branch(old(self)@.instruction_register.instruction_type),
        ensures
            forall|b: DatabusState|
                spec_execute_core(old(self)@, b) == (final(self)@, b),
            final(self)@.wf(),
            final(self)@.instruction_register == old(self)@.instruction_register,
    {
        let inst = self.instruction_register;
        let hl = self.get_hl_address();
        match inst.instruction_type {
            InstructionType::ShiftRight => {
                let a = self.read_reg(0);
                let v = (a >> 1) | ((a & 1) << 7);
                self.write_reg(0, v);
                self.write_flag(0, (v & 0x80) == 0x80);
            },
            InstructionType::ShiftLeft => {
                let a = self.read_reg(0);
                let v = (a << 1) | (a >> 7);
                self.write_reg(0, v);
                self.write_flag(0, (v & 0x1) == 0x1);
            },
            InstructionType::Nop => {},
            InstructionType::Pop => {
                if let Some(value) = self.pop_stack() {
                    self.write_reg(5, ((value >> 8) & 0xff) as u8);
                    self.write_reg(6, (value & 0xff) as u8);
                }
            },
            InstructionType::Push => {
                self.push_stack(hl);
            },
            InstructionType::EnableIntr => {
                self.intr_enabled = true;
            },
            InstructionType::DisableInts => {
                self.intr_enabled = false;
            },
            InstructionType::SelectAlpha => {
                self.alpha_mode = true;
            },
            InstructionType::SelectBeta => {
                self.alpha_mode = false;
            },
            _ => {
                proof {
                    assert(false);
                }
            },
        }
    }

    /// The halt, bus-read and peripheral-command arms of
    /// `spec_execute_core`.
    #[verifier::rlimit(100)]
    #[verifier::spinoff_prover]
    fn exec_io(&mut self, databus: &mut Databus)
        requires
            old(self)@.wf(),
            old(databus)@.wf(),
            spec_executable(old(self)@.instruction_register),
            !spec_is_move_or_alu(old(self)@.instruction_register.instruction_type),
            !spec_is_flow(old(self)@.instruction_register.instruction_type),
        ensures
            final(self)@ == spec_execute_core(old(self)@, old(databus)@).0,
            final(databus)@ == spec_execute_core(old(self)@, old(databus)@).1,
            final(self)@.wf(),
            final(databus)@.wf(),
            final(self)@.instruction_register == old(self)@.instruction_register,
    {
        let inst = self.instruction_register;
        match inst.instruction_type {
            InstructionType::Halt => {
                self.halted = true;
                let acc = self.read_reg(0);
                databus.execute_command(inst, acc);
            },
            InstructionType::Input => {
                let v = databus.read_bus();
                self.write_reg(0, v);
                databus.strobe();
            },
            InstructionType::Status => {
                databus.set_mode(DatabusMode::Status);
            },
            InstructionType::Data => {
                databus.set_mode(DatabusMode::Data);
            },
            _ => {
                let acc = self.read_reg(0);
                databus.execute_command(inst, acc);
            },
        }
    }

    /// The 16-bit address carried by the instruction register, or 0.
    fn inst_address(&self) -> (r: u16)
        ensures
            self@.instruction_register.address is Some ==> r == self@.instruction_register.address->0,
            self@.instruction_register.address is None ==> r == 0,
    {
        match self.instruction_register.address {
            Some(a) => a,
            None => 0,
        }
    }

    /// Pop a return address into the program counter; an empty stack
    /// leaves everything as it was.
    fn do_return(&mut self)
        requires
            old(self)@.wf(),
        ensures
            (final(self)@ == {
                let (c1, popped) = spec_pop_stack(old(self)@);
                match popped {
                    Some(addr) => CpuState { program_counter: addr, ..c1 },
                    None => old(self)@,
                }
            }),
            final(self)@.wf(),
    {
        if let Some(addr) = self.pop_stack() {
            self.program_counter = addr;
        }
    }

    /// An add-family step: accumulator plus operand plus carry-in.
    fn alu_add(&mut self, x: u8, cin: u8)
        requires
            old(self)@.wf(),
            cin <= 1,
        ensures
            (final(self)@ == {
                let (v, carry) = spec_add8(spec_read_reg(old(self)@, 0), x, cin as int);
                spec_alu_set(old(self)@, v, carry)
            }),
            final(self)@.wf(),
    {
        let a = self.read_reg(0);
        let sum: u16 = (a as u16) + (x as u16) + (cin as u16);
        self.write_flag(0, sum > 0xff);
        self.write_reg(0, (sum % 256) as u8);
        self.update_flags();
    }

    /// A subtract-family step: accumulator minus operand minus borrow-in.
    fn alu_sub(&mut self, x: u8, bin: u8)
        requires
            old(self)@.wf(),
            bin <= 1,
        ensures
            (final(self)@ == {
                let (v, borrow) = spec_sub8(spec_read_reg(old(self)@, 0), x, bin as int);
                spec_alu_set(old(self)@, v, borrow)
            }),
            final(self)@.wf(),
    {
        let a = self.read_reg(0);
        let minuend: u16 = 512 + (a as u16);
        let diff: u16 = minuend - (x as u16) - (bin as u16);
        let borrow = (a as u16) < (x as u16) + (bin as u16);
        self.write_flag(0, borrow);
        self.write_reg(0, (diff % 256) as u8);
        self.update_flags();
    }

    /// A bitwise ALU step: the value goes to the accumulator, carry
    /// clears, Zero/Sign/Parity re-derive.
    fn alu_logic(&mut self, v: u8)
        requires
            old(self)@.wf(),
        ensures
            final(self)@ == spec_logic_set(old(self)@, v),
            final(self)@.wf(),
    {
        self.write_reg(0, v);
        self.write_flag(0, false);
        self.update_flags();
    }
}


/// A fetch that fails leaves the program counter where fetching fails
/// again: the failure is reproducible.
pub proof fn lemma_fetch_none_stays(c: CpuState)
    requires
        spec_fetch(c).1 is None,
    ensures
        spec_fetch(spec_fetch(c).0).1 is None,
{
}

/// One iteration of the fetch-and-execute loop: fetch at the program
/// counter; a failed fetch or an undecodable opcode only loads the
/// instruction register (or advances past the partial bytes), anything
/// else executes.
pub open spec fn spec_cpu_run_step(c: CpuState, b: DatabusState) -> (CpuState, DatabusState) {
    let (c1, fetched) = spec_fetch(c);
    match fetched {
        Option::None => (c1, b),
        Option::Some(inst) => {
            let c2 = CpuState { instruction_register: inst, ..c1 };
            if inst.instruction_type == InstructionType::Unknown {
                (c2, b)
            } else {
                spec_execute(c2, b)
            }
        },
    }
}

/// CPU and bus after `n` fetch-and-execute iterations.
pub open spec fn spec_cpu_iter(c: CpuState, b: DatabusState, n: nat) -> (CpuState, DatabusState)
    decreases n,
{
    if n == 0 {
        (c, b)
    } else {
        let prev = spec_cpu_iter(c, b, (n - 1) as nat);
        spec_cpu_run_step(prev.0, prev.1)
    }
}

/// Fetch and execute instructions until the CPU halts, the fetch runs
/// past the end of memory, or an undecodable opcode comes up; gives back
/// how many instructions were fetched (saturating).  The final state is
/// reached from the starting one by iterating the fetch-and-execute
/// step, and the run ends halted, with a reproducibly failing fetch,
/// with the undecodable instruction in the instruction register, or
/// after an enormous number of instructions.
pub fn run_to_halt(cpu: &mut Cpu, databus: &mut Databus) -> (count: usize)
    requires
        old(cpu)@.wf(),
        old(databus)@.wf(),
    ensures
        final(cpu)@.wf(),
        final(databus)@.wf(),
        exists|n: nat|
            ({
                &&& #[trigger] spec_cpu_iter(old(cpu)@, old(databus)@, n) == (
                    final(cpu)@,
                    final(databus)@,
                )
                &&& ({
                    let done = final(cpu)@;
                    done.halted || spec_fetch(done).1 is None
                        || done.instruction_register.instruction_type == InstructionType::Unknown
                        || n >= u64::MAX
                })
            }),
{
    let mut count: usize = 0;
    let mut fuel: u64 = u64::MAX;
    let ghost mut steps: nat = 0nat;
    proof {
        assert(spec_cpu_iter(old(cpu)@, old(databus)@, 0) == (cpu@, databus@));
    }
    while fuel > 0
        invariant
            cpu@.wf(),
            databus@.wf(),
            spec_cpu_iter(old(cpu)@, old(databus)@, steps) == (cpu@, databus@),
            steps == u64::MAX - fuel,
        decreases fuel,
    {
        if cpu.halted {
            return count;
        }
        let ghost c0 = cpu@;
        let ghost b0 = databus@;
        let inst = match cpu.fetch_instruction() {
            Some(inst) => inst,
            None => {
                proof {
                    assert(spec_cpu_iter(old(cpu)@, old(databus)@, (steps + 1) as nat) == (
                        cpu@,
                        databus@,
                    ));
                    lemma_fetch_none_stays(c0);
                }
                return count;
            },
        };
        cpu.instruction_register = inst;
        if matches!(inst.instruction_type, InstructionType::Unknown) {
            proof {
                assert(spec_cpu_iter(old(cpu)@, old(databus)@, (steps + 1) as nat) == (
                    cpu@,
                    databus@,
                ));
            }
            return count;
        }
        cpu.execute_instruction(databus);
        proof {
            steps = (steps + 1) as nat;
            assert(spec_cpu_iter(old(cpu)@, old(databus)@, steps) == (cpu@, databus@));
        }
        if count < usize::MAX {
            count = count + 1;
        }
        fuel = fuel - 1;
    }
    count
}

} // verus!
