//! The instruction set of the Datapoint 2200: the decoded instruction type,
//! the fields of an opcode byte, and the cycle cost of each instruction.
//!
//! An opcode byte splits into three fields: type = bits 7..6,
//! destination = bits 5..3, source = bits 2..0.  Single-byte "Ex" commands
//! (peripheral control) are recognised by their full octal opcode instead.

use vstd::prelude::*;

verus! {

/// Every operation the CPU can decode.  `Unknown` marks a byte that matches
/// no decoding rule; executing it is not permitted.
#[derive(Debug, Clone, Copy, PartialEq, Eq, Structural)]
pub enum InstructionType {
    Unknown,
    LoadImm,
    Load,
    AddImm,
    Add,
    AddImmCarry,
    AddCarry,
    SubImm,
    Sub,
    SubImmBorrow,
    SubBorrow,
    AndImm,
    And,
    OrImm,
    Or,
    XorImm,
    Xor,
    CompImm,
    Comp,
    Jump,
    JumpIf,
    JumpIfNot,
    Call,
    CallIf,
    CallIfNot,
    Return,
    ReturnIf,
    ReturnIfNot,
    ShiftRight,
    ShiftLeft,
    Nop,
    Halt,
    Input,
    Pop,
    Push,
    EnableIntr,
    DisableInts,
    SelectAlpha,
    SelectBeta,
    Adr,
    Status,
    Data,
    Write,
    Com1,
    Com2,
    Com3,
    Com4,
    Beep,
    Click,
    Deck1,
    Deck2,
    Rbk,
    Wbk,
    Bsp,
    Sf,
    Sb,
    Rewind,
    Tstop,
}

/// A decoded instruction: its type, the raw opcode byte, and the immediate
/// operand or 16-bit address where the instruction carries one.
#[derive(Debug, Clone, Copy, PartialEq, Eq)]
pub struct Instruction {
    pub instruction_type: InstructionType,
    pub opcode: u8,
    pub operand: Option<u8>,
    pub address: Option<u16>,
}

/// The type field of an opcode byte: bits 7..6.
pub open spec fn spec_op_type(op: u8) -> u8 {
    (op & 0xc0) >> 6
}

/// The destination field of an opcode byte: bits 5..3.
pub open spec fn spec_op_dest(op: u8) -> u8 {
    (op & 0x38) >> 3
}

/// The source field of an opcode byte: bits 2..0.
pub open spec fn spec_op_src(op: u8) -> u8 {
    op & 0x07
}

/// The instruction type an opcode byte decodes to.  The decoding rules are
/// ordered: the first match on the (type, destination, source) triple wins,
/// and a byte matching no rule is looked up among the Ex command opcodes.
pub open spec fn spec_decode(op: u8) -> InstructionType {
    let t = spec_op_type(op);
    let d = spec_op_dest(op);
    let s = spec_op_src(op);
    if t == 0 && s == 6 {
        InstructionType::LoadImm
    } else if t == 3 && d == 0 && s == 0 {
        InstructionType::Nop
    } else if t == 3 && d == 7 && s == 7 {
        InstructionType::Halt
    } else if t == 3 {
        InstructionType::Load
    } else if t == 0 && d == 0 && s == 4 {
        InstructionType::AddImm
    } else if t == 2 && d == 0 {
        InstructionType::Add
    } else if t == 0 && d == 1 && s == 4 {
        InstructionType::AddImmCarry
    } else if t == 2 && d == 1 {
        InstructionType::AddCarry
    } else if t == 0 && d == 2 && s == 4 {
        InstructionType::SubImm
    } else if t == 2 && d == 2 {
        InstructionType::Sub
    } else if t == 0 && d == 3 && s == 4 {
        InstructionType::SubImmBorrow
    } else if t == 2 && d == 3 {
        InstructionType::SubBorrow
    } else if t == 0 && d == 4 && s == 4 {
        InstructionType::AndImm
    } else if t == 2 && d == 4 {
        InstructionType::And
    } else if t == 0 && d == 6 && s == 4 {
        InstructionType::OrImm
    } else if t == 2 && d == 6 {
        InstructionType::Or
    } else if t == 0 && d == 5 && s == 4 {
        InstructionType::XorImm
    } else if t == 2 && d == 5 {
        InstructionType::Xor
    } else if t == 0 && d == 7 && s == 4 {
        InstructionType::CompImm
    } else if t == 2 && d == 7 {
        InstructionType::Comp
    } else if t == 1 && d == 0 && s == 4 {
        InstructionType::Jump
    } else if t == 1 && d >= 4 && s == 0 {
        InstructionType::JumpIf
    } else if t == 1 && s == 0 {
        InstructionType::JumpIfNot
    } else if t == 1 && d == 0 && s == 6 {
        InstructionType::Call
    } else if t == 1 && d >= 4 && s == 2 {
        InstructionType::CallIf
    } else if t == 1 && s == 2 {
        InstructionType::CallIfNot
    } else if t == 0 && d == 0 && s == 7 {
        InstructionType::Return
    } else if t == 0 && d >= 4 && s == 3 {
        InstructionType::ReturnIf
    } else if t == 0 && s == 3 {
        InstructionType::ReturnIfNot
    } else if t == 0 && d == 1 && s == 2 {
        InstructionType::ShiftRight
    } else if t == 0 && d == 0 && s == 2 {
        InstructionType::ShiftLeft
    } else if t == 0 && d == 0 && s == 0 {
        InstructionType::Halt
    } else if t == 0 && d == 0 && s == 1 {
        InstructionType::Halt
    } else if t == 1 && d == 0 && s == 1 {
        InstructionType::Input
    } else if t == 0 && d == 6 && s == 0 {
        InstructionType::Pop
    } else if t == 0 && d == 7 && s == 0 {
        InstructionType::Push
    } else if t == 0 && d == 5 && s == 0 {
        InstructionType::EnableIntr
    } else if t == 0 && d == 4 && s == 0 {
        InstructionType::DisableInts
    } else if t == 0 && d == 3 && s == 0 {
        InstructionType::SelectAlpha
    } else if t == 0 && d == 2 && s == 0 {
        InstructionType::SelectBeta
    } else if op == 0o121 {
        InstructionType::Adr
    } else if op == 0o123 {
        InstructionType::Status
    } else if op == 0o125 {
        InstructionType::Data
    } else if op == 0o127 {
        InstructionType::Write
    } else if op == 0o131 {
        InstructionType::Com1
    } else if op == 0o133 {
        InstructionType::Com2
    } else if op == 0o135 {
        InstructionType::Com3
    } else if op == 0o137 {
        InstructionType::Com4
    } else if op == 0o151 {
        InstructionType::Beep
    } else if op == 0o153 {
        InstructionType::Click
    } else if op == 0o155 {
        InstructionType::Deck1
    } else if op == 0o157 {
        InstructionType::Deck2
    } else if op == 0o161 {
        InstructionType::Rbk
    } else if op == 0o163 {
        InstructionType::Wbk
    } else if op == 0o167 {
        InstructionType::Bsp
    } else if op == 0o171 {
        InstructionType::Sf
    } else if op == 0o173 {
        InstructionType::Sb
    } else if op == 0o175 {
        InstructionType::Rewind
    } else if op == 0o177 {
        InstructionType::Tstop
    } else {
        InstructionType::Unknown
    }
}

/// Whether an instruction of this type carries a one-byte immediate operand.
pub open spec fn spec_has_operand(it: InstructionType) -> bool {
    ||| it == InstructionType::LoadImm
    ||| it == InstructionType::AddImm
    ||| it == InstructionType::AddImmCarry
    ||| it == InstructionType::SubImm
    ||| it == InstructionType::SubImmBorrow
    ||| it == InstructionType::AndImm
    ||| it == InstructionType::OrImm
    ||| it == InstructionType::XorImm
    ||| it == InstructionType::CompImm
}

/// Whether an instruction of this type carries a two-byte absolute address.
pub open spec fn spec_has_address(it: InstructionType) -> bool {
    ||| it == InstructionType::Jump
    ||| it == InstructionType::JumpIf
    ||| it == InstructionType::JumpIfNot
    ||| it == InstructionType::Call
    ||| it == InstructionType::CallIf
    ||| it == InstructionType::CallIfNot
}

/// The number of bytes an instruction of this type occupies in memory.
pub open spec fn spec_inst_len(it: InstructionType) -> int {
    if spec_has_operand(it) {
        2
    } else if spec_has_address(it) {
        3
    } else {
        1
    }
}

/// The number of CPU cycles charged for one execution of this instruction.
pub open spec fn spec_clock_cycles(it: InstructionType) -> usize {
    match it {
        InstructionType::Unknown => 0,
        InstructionType::LoadImm => 2,
        InstructionType::Load => 2,
        InstructionType::AddImm => 3,
        InstructionType::Add => 2,
        InstructionType::AddImmCarry => 3,
        InstructionType::AddCarry => 2,
        InstructionType::SubImm => 3,
        InstructionType::Sub => 2,
        InstructionType::SubImmBorrow => 3,
        InstructionType::SubBorrow => 2,
        InstructionType::AndImm => 3,
        InstructionType::And => 2,
        InstructionType::OrImm => 3,
        InstructionType::Or => 2,
        InstructionType::XorImm => 3,
        InstructionType::Xor => 2,
        InstructionType::CompImm => 3,
        InstructionType::Comp => 2,
        InstructionType::Jump => 4,
        InstructionType::JumpIf => 4,
        InstructionType::JumpIfNot => 4,
        InstructionType::Call => 4,
        InstructionType::CallIf => 4,
        InstructionType::CallIfNot => 4,
        InstructionType::Return => 2,
        InstructionType::ReturnIf => 2,
        InstructionType::ReturnIfNot => 2,
        InstructionType::ShiftRight => 2,
        InstructionType::ShiftLeft => 2,
        InstructionType::Nop => 2,
        InstructionType::Halt => 0,
        InstructionType::Input => 6,
        InstructionType::Pop => 3,
        InstructionType::Push => 2,
        InstructionType::EnableIntr => 2,
        InstructionType::DisableInts => 2,
        InstructionType::SelectAlpha => 2,
        InstructionType::SelectBeta => 2,
        _ => 6,
    }
}

impl Instruction {
    /// The placeholder instruction: type `Unknown`, opcode 0, no operands.
    pub fn unknown() -> (r: Instruction)
        ensures
            r.instruction_type == InstructionType::Unknown,
            r.opcode == 0,
            r.operand is None,
            r.address is None,
    {
        Instruction {
            instruction_type: InstructionType::Unknown,
            opcode: 0,
            operand: None,
            address: None,
        }
    }

    /// The type field (bits 7..6) of the opcode byte.
    pub fn get_instruction_type(&self) -> (r: u8)
        ensures
            r == spec_op_type(self.opcode),
            r <= 3,
    {
        proof {
            let op = self.opcode;
            assert((op & 0xc0) >> 6 <= 3) by (bit_vector);
        }
        (self.opcode & 0xc0) >> 6
    }

    /// The destination field (bits 5..3) of the opcode byte.
    pub fn get_destination(&self) -> (r: u8)
        ensures
            r == spec_op_dest(self.opcode),
            r <= 7,
    {
        proof {
            let op = self.opcode;
            assert((op & 0x38) >> 3 <= 7) by (bit_vector);
        }
        (self.opcode & 0x38) >> 3
    }

    /// The source field (bits 2..0) of the opcode byte.
    pub fn get_source(&self) -> (r: u8)
        ensures
            r == spec_op_src(self.opcode),
            r <= 7,
    {
        proof {
            let op = self.opcode;
            assert(op & 0x07 <= 7) by (bit_vector);
        }
        self.opcode & 0x07
    }

    /// The cycle cost charged to the clock for this instruction.
    pub fn get_clock_cycles(&self) -> (r: usize)
        ensures
            r == spec_clock_cycles(self.instruction_type),
            r <= 6,
    {
        match self.instruction_type {
            InstructionType::Unknown => 0,
            InstructionType::LoadImm => 2,
            InstructionType::Load => 2,
            InstructionType::AddImm => 3,
            InstructionType::Add => 2,
            InstructionType::AddImmCarry => 3,
            InstructionType::AddCarry => 2,
            InstructionType::SubImm => 3,
            InstructionType::Sub => 2,
            InstructionType::SubImmBorrow => 3,
            InstructionType::SubBorrow => 2,
            InstructionType::AndImm => 3,
            InstructionType::And => 2,
            InstructionType::OrImm => 3,
            InstructionType::Or => 2,
            InstructionType::XorImm => 3,
            InstructionType::Xor => 2,
            InstructionType::CompImm => 3,
            InstructionType::Comp => 2,
            InstructionType::Jump => 4,
            InstructionType::JumpIf => 4,
            InstructionType::JumpIfNot => 4,
            InstructionType::Call => 4,
            InstructionType::CallIf => 4,
            InstructionType::CallIfNot => 4,
            InstructionType::Return => 2,
            InstructionType::ReturnIf => 2,
            InstructionType::ReturnIfNot => 2,
            InstructionType::ShiftRight => 2,
            InstructionType::ShiftLeft => 2,
            InstructionType::Nop => 2,
            InstructionType::Halt => 0,
            InstructionType::Input => 6,
            InstructionType::Pop => 3,
            InstructionType::Push => 2,
            InstructionType::EnableIntr => 2,
            InstructionType::DisableInts => 2,
            InstructionType::SelectAlpha => 2,
            InstructionType::SelectBeta => 2,
            _ => 6,
        }
    }
}

} // verus!
