//! The disassembler: from a byte image back to mnemonic text, one line
//! per decoded instruction, each with the address it starts at.
//! Decoding stops at the first undecodable opcode and at the end of the
//! image.

use vstd::prelude::*;

use crate::cpu::{spec_fetch, Cpu, CpuState, MEMORY_SIZE};
use crate::instruction::{spec_op_dest, spec_op_src, Instruction, InstructionType};
use crate::numtext::{
    push_char, spec_dec_string, spec_hex_string, u16_to_dec, u16_to_hex,
};

verus! {

/// The printed name of a register index, as a character sequence.
pub open spec fn spec_reg_name(i: u8) -> Seq<char> {
    if i & 7 == 0 {
        "A"@
    } else if i & 7 == 1 {
        "B"@
    } else if i & 7 == 2 {
        "C"@
    } else if i & 7 == 3 {
        "D"@
    } else if i & 7 == 4 {
        "E"@
    } else if i & 7 == 5 {
        "H"@
    } else if i & 7 == 6 {
        "L"@
    } else {
        "M"@
    }
}

/// The printed name of a flag index, as a character sequence.
pub open spec fn spec_flag_name(i: u8) -> Seq<char> {
    if i & 3 == 0 {
        "Cf"@
    } else if i & 3 == 1 {
        "Zf"@
    } else if i & 3 == 2 {
        "Sf"@
    } else {
        "Pf"@
    }
}

/// The decimal text of a one-byte operand; an absent operand prints as 0.
pub open spec fn spec_operand_text(operand: Option<u8>) -> Seq<char> {
    spec_dec_string(
        match operand {
            Some(v) => v as int,
            None => 0,
        },
    )
}

/// The prefixed hexadecimal text of an address operand with at least two
/// digits; an absent address prints as address 0.
pub open spec fn spec_address_text(address: Option<u16>) -> Seq<char> {
    spec_hex_string(
        match address {
            Some(v) => v as int,
            None => 0,
        },
        2,
    )
}

/// The mnemonic line of one decoded instruction: the mnemonic, then the
/// register, flag, immediate or address operands its family carries; an
/// undecodable opcode prints as its hexadecimal byte.
pub open spec fn spec_instruction_text(inst: Instruction) -> Seq<char> {
    let d = spec_op_dest(inst.opcode);
    let s = spec_op_src(inst.opcode);
    let cc = if d >= 4 {
        (d - 4) as u8
    } else {
        d
    };
    match inst.instruction_type {
        InstructionType::Unknown => spec_hex_string(inst.opcode as int, 2),
        InstructionType::LoadImm => "LoadImm "@ + spec_reg_name(d) + ", "@ + spec_operand_text(
            inst.operand,
        ),
        InstructionType::Load => "Load "@ + spec_reg_name(d) + ", "@ + spec_reg_name(s),
        InstructionType::AddImm => "AddImm "@ + spec_operand_text(inst.operand),
        InstructionType::Add => "Add "@ + spec_reg_name(s),
        InstructionType::AddImmCarry => "AddImmCarry "@ + spec_operand_text(inst.operand),
        InstructionType::AddCarry => "AddCarry "@ + spec_reg_name(s),
        InstructionType::SubImm => "SubImm "@ + spec_operand_text(inst.operand),
        InstructionType::Sub => "Sub "@ + spec_reg_name(s),
        InstructionType::SubImmBorrow => "SubImmBorrow "@ + spec_operand_text(inst.operand),
        InstructionType::SubBorrow => "SubBorrow "@ + spec_reg_name(s),
        InstructionType::AndImm => "AndImm "@ + spec_operand_text(inst.operand),
        InstructionType::And => "And "@ + spec_reg_name(s),
        InstructionType::OrImm => "OrImm "@ + spec_operand_text(inst.operand),
        InstructionType::Or => "Or "@ + spec_reg_name(s),
        InstructionType::XorImm => "XorImm "@ + spec_operand_text(inst.operand),
        InstructionType::Xor => "Xor "@ + spec_reg_name(s),
        InstructionType::CompImm => "CompImm "@ + spec_operand_text(inst.operand),
        InstructionType::Comp => "Comp "@ + spec_reg_name(s),
        InstructionType::Jump => "Jump "@ + spec_address_text(inst.address),
        InstructionType::JumpIf => "JumpIf "@ + spec_flag_name(cc) + ", "@ + spec_address_text(
            inst.address,
        ),
        InstructionType::JumpIfNot => "JumpIfNot "@ + spec_flag_name(cc) + ", "@
            + spec_address_text(inst.address),
        InstructionType::Call => "Call "@ + spec_address_text(inst.address),
        InstructionType::CallIf => "CallIf "@ + spec_flag_name(cc) + ", "@ + spec_address_text(
            inst.address,
        ),
        InstructionType::CallIfNot => "CallIfNot "@ + spec_flag_name(cc) + ", "@
            + spec_address_text(inst.address),
        InstructionType::Return => "Return"@,
        InstructionType::ReturnIf => "ReturnIf "@ + spec_flag_name(cc),
        InstructionType::ReturnIfNot => "ReturnIfNot "@ + spec_flag_name(cc),
        InstructionType::ShiftRight => "ShiftRight"@,
        InstructionType::ShiftLeft => "ShiftLeft"@,
        InstructionType::Nop => "Nop"@,
        InstructionType::Halt => "Halt"@,
        InstructionType::Input => "Input"@,
        InstructionType::Pop => "Pop"@,
        InstructionType::Push => "Push"@,
        InstructionType::EnableIntr => "EnableIntr"@,
        InstructionType::DisableInts => "DisableInts"@,
        InstructionType::SelectAlpha => "SelectAlpha"@,
        InstructionType::SelectBeta => "SelectBeta"@,
        InstructionType::Adr => "Adr"@,
        InstructionType::Status => "Status"@,
        InstructionType::Data => "Data"@,
        InstructionType::Write => "Write"@,
        InstructionType::Com1 => "Com1"@,
        InstructionType::Com2 => "Com2"@,
        InstructionType::Com3 => "Com3"@,
        InstructionType::Com4 => "Com4"@,
        InstructionType::Beep => "Beep"@,
        InstructionType::Click => "Click"@,
        InstructionType::Deck1 => "Deck1"@,
        InstructionType::Deck2 => "Deck2"@,
        InstructionType::Rbk => "Rbk"@,
        InstructionType::Wbk => "Wbk"@,
        InstructionType::Bsp => "Bsp"@,
        InstructionType::Sf => "Sf"@,
        InstructionType::Sb => "Sb"@,
        InstructionType::Rewind => "Rewind"@,
        InstructionType::Tstop => "Tstop"@,
    }
}

/// The listing of the instructions decoded from the CPU's memory, from
/// the program counter up to address `len`: each entry the instruction's
/// start address and its mnemonic line.  The walk stops past the entry
/// for the first undecodable opcode, at the end of the image, and where
/// an instruction's bytes run past the end of memory.  The fuel bounds
/// the recursion and is in surplus whenever it exceeds the remaining
/// addresses, since every fetch consumes at least one byte.
pub open spec fn spec_listing(c: CpuState, len: u16, fuel: nat) -> Seq<(u16, Seq<char>)>
    decreases fuel,
{
    if fuel == 0 || c.program_counter >= len {
        Seq::empty()
    } else {
        let (c1, fetched) = spec_fetch(c);
        match fetched {
            Option::None => Seq::empty(),
            Option::Some(inst) => {
                let entry = (c.program_counter, spec_instruction_text(inst));
                if inst.instruction_type == InstructionType::Unknown {
                    seq![entry]
                } else {
                    seq![entry] + spec_listing(c1, len, (fuel - 1) as nat)
                }
            },
        }
    }
}


/// The printed name of a register index: A B C D E H L, and M for the
/// memory alias.
fn reg_name(i: u8) -> (r: &'static str)
    ensures
        r@ == spec_reg_name(i),
{
    if i & 7 == 0 {
        "A"
    } else if i & 7 == 1 {
        "B"
    } else if i & 7 == 2 {
        "C"
    } else if i & 7 == 3 {
        "D"
    } else if i & 7 == 4 {
        "E"
    } else if i & 7 == 5 {
        "H"
    } else if i & 7 == 6 {
        "L"
    } else {
        "M"
    }
}

/// The printed name of a flag index: Cf Zf Sf Pf.
fn flag_name(i: u8) -> (r: &'static str)
    ensures
        r@ == spec_flag_name(i),
{
    if i & 3 == 0 {
        "Cf"
    } else if i & 3 == 1 {
        "Zf"
    } else if i & 3 == 2 {
        "Sf"
    } else {
        "Pf"
    }
}

/// A one-byte operand as decimal text; an absent operand prints as 0.
fn operand_text(operand: Option<u8>) -> (r: String)
    ensures
        r@ == spec_operand_text(operand),
{
    match operand {
        Some(v) => u16_to_dec(v as u16),
        None => u16_to_dec(0),
    }
}

/// A two-byte address operand as prefixed hexadecimal text with at least
/// two digits; an absent address prints as address 0.
fn address_text(address: Option<u16>) -> (r: String)
    ensures
        r@ == spec_address_text(address),
{
    match address {
        Some(v) => u16_to_hex(v, 2),
        None => u16_to_hex(0, 2),
    }
}

/// The mnemonic line of one decoded instruction, as the assembler reads
/// it back: mnemonic, then register, flag, immediate or address operands.
#[verifier::rlimit(100)]
#[verifier::spinoff_prover]
pub fn instruction_text(inst: &Instruction) -> (r: String)
    ensures
        r@ == spec_instruction_text(*inst),
{
    let d = inst.get_destination();
    let s = inst.get_source();
    let cc = if d >= 4 {
        d - 4
    } else {
        d
    };
    let mut out = String::new();
    match inst.instruction_type {
        InstructionType::Unknown => {
            out.append(u16_to_hex(inst.opcode as u16, 2).as_str());
        },
        InstructionType::LoadImm => {
            out.append("LoadImm ");
            out.append(reg_name(d));
            out.append(", ");
            out.append(operand_text(inst.operand).as_str());
        },
        InstructionType::Load => {
            out.append("Load ");
            out.append(reg_name(d));
            out.append(", ");
            out.append(reg_name(s));
        },
        InstructionType::AddImm => {
            out.append("AddImm ");
            out.append(operand_text(inst.operand).as_str());
        },
        InstructionType::Add => {
            out.append("Add ");
            out.append(reg_name(s));
        },
        InstructionType::AddImmCarry => {
            out.append("AddImmCarry ");
            out.append(operand_text(inst.operand).as_str());
        },
        InstructionType::AddCarry => {
            out.append("AddCarry ");
            out.append(reg_name(s));
        },
        InstructionType::SubImm => {
            out.append("SubImm ");
            out.append(operand_text(inst.operand).as_str());
        },
        InstructionType::Sub => {
            out.append("Sub ");
            out.append(reg_name(s));
        },
        InstructionType::SubImmBorrow => {
            out.append("SubImmBorrow ");
            out.append(operand_text(inst.operand).as_str());
        },
        InstructionType::SubBorrow => {
            out.append("SubBorrow ");
            out.append(reg_name(s));
        },
        InstructionType::AndImm => {
            out.append("AndImm ");
            out.append(operand_text(inst.operand).as_str());
        },
        InstructionType::And => {
            out.append("And ");
            out.append(reg_name(s));
        },
        InstructionType::OrImm => {
            out.append("OrImm ");
            out.append(operand_text(inst.operand).as_str());
        },
        InstructionType::Or => {
            out.append("Or ");
            out.append(reg_name(s));
        },
        InstructionType::XorImm => {
            out.append("XorImm ");
            out.append(operand_text(inst.operand).as_str());
        },
        InstructionType::Xor => {
            out.append("Xor ");
            out.append(reg_name(s));
        },
        InstructionType::CompImm => {
            out.append("CompImm ");
            out.append(operand_text(inst.operand).as_str());
        },
        InstructionType::Comp => {
            out.append("Comp ");
            out.append(reg_name(s));
        },
        InstructionType::Jump => {
            out.append("Jump ");
            out.append(address_text(inst.address).as_str());
        },
        InstructionType::JumpIf => {
            out.append("JumpIf ");
            out.append(flag_name(cc));
            out.append(", ");
            out.append(address_text(inst.address).as_str());
        },
        InstructionType::JumpIfNot => {
            out.append("JumpIfNot ");
            out.append(flag_name(cc));
            out.append(", ");
            out.append(address_text(inst.address).as_str());
        },
        InstructionType::Call => {
            out.append("Call ");
            out.append(address_text(inst.address).as_str());
        },
        InstructionType::CallIf => {
            out.append("CallIf ");
            out.append(flag_name(cc));
            out.append(", ");
            out.append(address_text(inst.address).as_str());
        },
        InstructionType::CallIfNot => {
            out.append("CallIfNot ");
            out.append(flag_name(cc));
            out.append(", ");
            out.append(address_text(inst.address).as_str());
        },
        InstructionType::Return => {
            out.append("Return");
        },
        InstructionType::ReturnIf => {
            out.append("ReturnIf ");
            out.append(flag_name(cc));
        },
        InstructionType::ReturnIfNot => {
            out.append("ReturnIfNot ");
            out.append(flag_name(cc));
        },
        InstructionType::ShiftRight => {
            out.append("ShiftRight");
        },
        InstructionType::ShiftLeft => {
            out.append("ShiftLeft");
        },
        InstructionType::Nop => {
            out.append("Nop");
        },
        InstructionType::Halt => {
            out.append("Halt");
        },
        InstructionType::Input => {
            out.append("Input");
        },
        InstructionType::Pop => {
            out.append("Pop");
        },
        InstructionType::Push => {
            out.append("Push");
        },
        InstructionType::EnableIntr => {
            out.append("EnableIntr");
        },
        InstructionType::DisableInts => {
            out.append("DisableInts");
        },
        InstructionType::SelectAlpha => {
            out.append("SelectAlpha");
        },
        InstructionType::SelectBeta => {
            out.append("SelectBeta");
        },
        InstructionType::Adr => {
            out.append("Adr");
        },
        InstructionType::Status => {
            out.append("Status");
        },
        InstructionType::Data => {
            out.append("Data");
        },
        InstructionType::Write => {
            out.append("Write");
        },
        InstructionType::Com1 => {
            out.append("Com1");
        },
        InstructionType::Com2 => {
            out.append("Com2");
        },
        InstructionType::Com3 => {
            out.append("Com3");
        },
        InstructionType::Com4 => {
            out.append("Com4");
        },
        InstructionType::Beep => {
            out.append("Beep");
        },
        InstructionType::Click => {
            out.append("Click");
        },
        InstructionType::Deck1 => {
            out.append("Deck1");
        },
        InstructionType::Deck2 => {
            out.append("Deck2");
        },
        InstructionType::Rbk => {
            out.append("Rbk");
        },
        InstructionType::Wbk => {
            out.append("Wbk");
        },
        InstructionType::Bsp => {
            out.append("Bsp");
        },
        InstructionType::Sf => {
            out.append("Sf");
        },
        InstructionType::Sb => {
            out.append("Sb");
        },
        InstructionType::Rewind => {
            out.append("Rewind");
        },
        InstructionType::Tstop => {
            out.append("Tstop");
        },
    }
    proof {
        assert(out@ =~= spec_instruction_text(*inst));
    }
    out
}

/// The state the disassembler walks: a fresh CPU holding the image from
/// address 0, zero past its end.
pub open spec fn spec_disassembly_input(memory: Seq<u8>) -> CpuState {
    CpuState {
        memory: Seq::new(
            MEMORY_SIZE as nat,
            |i: int|
                if i < memory.len() {
                    memory[i]
                } else {
                    0u8
                },
        ),
        ..Cpu::build_state()
    }
}

/// How far the disassembler walks: to the end of the image, at most to
/// the end of memory.
pub open spec fn spec_disassembly_len(memory: Seq<u8>) -> u16 {
    if memory.len() < MEMORY_SIZE {
        memory.len() as u16
    } else {
        MEMORY_SIZE as u16
    }
}

/// The mnemonic lines of a byte image: each decoded instruction with the
/// address it starts at, as `spec_listing` walks them — stopping past the
/// entry for the first undecodable opcode and at the end of the image.
pub fn disassemble(memory: &[u8]) -> (r: Vec<(u16, String)>)
    ensures
        ({
            let listing = spec_listing(
                spec_disassembly_input(memory@),
                spec_disassembly_len(memory@),
                (MEMORY_SIZE + 1) as nat,
            );
            &&& r@.len() == listing.len()
            &&& forall|k: int|
                0 <= k < listing.len() ==> r@[k].0 == listing[k].0 && r@[k].1@ == listing[k].1
        }),
{
    let mut cpu = Cpu::new(vstd::slice::slice_to_vec(memory));
    let len: u16 = if memory.len() < MEMORY_SIZE {
        memory.len() as u16
    } else {
        MEMORY_SIZE as u16
    };
    let ghost init = spec_disassembly_input(memory@);
    proof {
        assert(init.memory =~= cpu@.memory);
        assert(cpu@ =~= init);
    }
    let ghost full = spec_listing(init, len, (MEMORY_SIZE + 1) as nat);
    let mut addr_to_line: Vec<(u16, String)> = Vec::new();
    cpu.program_counter = 0;
    let mut last_type = InstructionType::Nop;
    let ghost mut done: Seq<(u16, Seq<char>)> = Seq::empty();
    let ghost mut fuel: nat = (MEMORY_SIZE + 1) as nat;
    while !matches!(last_type, InstructionType::Unknown) && cpu.program_counter < len
        invariant
            cpu@.wf(),
            len == spec_disassembly_len(memory@),
            init == spec_disassembly_input(memory@),
            full == spec_listing(init, len, (MEMORY_SIZE + 1) as nat),
            (cpu@ == CpuState { program_counter: cpu@.program_counter, ..init }),
            fuel >= len - cpu@.program_counter + 1,
            done.len() == addr_to_line@.len(),
            forall|k: int|
                0 <= k < done.len() ==> addr_to_line@[k].0 == done[k].0 && addr_to_line@[k].1@
                    == done[k].1,
            !matches!(last_type, InstructionType::Unknown) ==> full == done + spec_listing(
                cpu@,
                len,
                fuel,
            ),
            matches!(last_type, InstructionType::Unknown) ==> full == done,
        decreases (if cpu@.program_counter <= len {
            len - cpu@.program_counter
        } else {
            0int
        }),
    {
        let program_counter = cpu.program_counter;
        let ghost before = cpu@;
        let inst = match cpu.fetch_instruction() {
            Some(inst) => inst,
            None => {
                proof {
                    assert(spec_listing(before, len, fuel) =~= Seq::<(u16, Seq<char>)>::empty());
                    assert(full =~= done);
                }
                return addr_to_line;
            },
        };
        last_type = inst.instruction_type;
        let line = instruction_text(&inst);
        addr_to_line.push((program_counter, line));
        proof {
            let entry = (program_counter, spec_instruction_text(inst));
            if inst.instruction_type == InstructionType::Unknown {
                assert(spec_listing(before, len, fuel) =~= seq![entry]);
                assert(full =~= done + seq![entry]);
            } else {
                assert(spec_listing(before, len, fuel) =~= seq![entry] + spec_listing(
                    cpu@,
                    len,
                    (fuel - 1) as nat,
                ));
                assert(done + spec_listing(before, len, fuel) =~= (done + seq![entry])
                    + spec_listing(cpu@, len, (fuel - 1) as nat));
            }
            done = done + seq![entry];
            fuel = (fuel - 1) as nat;
            assert(cpu@ =~= CpuState { program_counter: cpu@.program_counter, ..init });
        }
    }
    proof {
        if !matches!(last_type, InstructionType::Unknown) {
            assert(spec_listing(cpu@, len, fuel) =~= Seq::<(u16, Seq<char>)>::empty());
        }
        assert(full =~= done);
    }
    addr_to_line
}

/// The line number of the first listing entry holding an address.
pub open spec fn spec_first_entry(lines: Seq<(u16, String)>, addr: u16) -> Option<int>
    decreases lines.len(),
{
    if lines.len() == 0 {
        None
    } else if lines[0].0 == addr {
        Some(0)
    } else {
        match spec_first_entry(lines.drop_first(), addr) {
            Some(i) => Some(i + 1),
            None => None,
        }
    }
}

/// One line of a source listing: the address in four hexadecimal digits,
/// `>` on the marked line and `:` elsewhere, a space, then the mnemonic
/// text.
pub open spec fn spec_listing_line(a: u16, marked: bool, text: Seq<char>) -> Seq<char> {
    spec_hex_string(a as int, 4) + (if marked {
        seq!['>']
    } else {
        seq![':']
    }) + seq![' '] + text
}

/// Disassembled lines of a CPU's memory, addressable by line for a
/// source listing around the current program counter.
#[derive(Debug)]
pub struct Disassembler {
    pub addr_to_line: Vec<(u16, String)>,
}

impl Disassembler {
    /// Disassemble the whole memory of the given CPU; the entries are the
    /// listing `spec_listing` walks over that memory.
    pub fn new(cpu: Cpu) -> (r: Disassembler)
        requires
            cpu@.wf(),
        ensures
            ({
                let listing = spec_listing(
                    spec_disassembly_input(cpu@.memory),
                    spec_disassembly_len(cpu@.memory),
                    (MEMORY_SIZE + 1) as nat,
                );
                &&& r.addr_to_line@.len() == listing.len()
                &&& forall|k: int|
                    0 <= k < listing.len() ==> r.addr_to_line@[k].0 == listing[k].0
                        && r.addr_to_line@[k].1@ == listing[k].1
            }),
    {
        Disassembler { addr_to_line: disassemble(cpu.memory.as_slice()) }
    }

    /// The line number holding the given address, if any line does.
    fn find_index(&self, addr: u16) -> (r: Option<usize>)
        ensures
            (match r {
                Some(i) => spec_first_entry(self.addr_to_line@, addr) == Some(i as int) && i
                    < self.addr_to_line@.len(),
                None => spec_first_entry(self.addr_to_line@, addr) is None,
            }),
    {
        let len = self.addr_to_line.len();
        let mut i: usize = 0;
        proof {
            assert(self.addr_to_line@.subrange(0, len as int) =~= self.addr_to_line@);
        }
        while i < len
            invariant
                i <= len,
                len == self.addr_to_line@.len(),
                spec_first_entry(self.addr_to_line@, addr) == (match spec_first_entry(
                    self.addr_to_line@.subrange(i as int, len as int),
                    addr,
                ) {
                    Some(j) => Some(j + i),
                    None => Option::<int>::None,
                }),
            decreases len - i,
        {
            proof {
                assert(self.addr_to_line@.subrange(i as int, len as int)[0]
                    == self.addr_to_line@[i as int]);
                assert(self.addr_to_line@.subrange(i as int, len as int).drop_first()
                    =~= self.addr_to_line@.subrange(i + 1 as int, len as int));
            }
            if self.addr_to_line[i].0 == addr {
                return Some(i);
            }
            i = i + 1;
        }
        proof {
            assert(self.addr_to_line@.subrange(len as int, len as int) =~= Seq::<(
                u16,
                String,
            )>::empty());
        }
        None
    }

    /// Up to `num_lines` listing lines starting `num_lines_before` lines
    /// above the first line holding `addr`, cut off at the end of the
    /// listing; the lines at `addr` are marked with `>`, the others with
    /// `:`.  An address on no line gives no lines.
    pub fn get_lines(&self, addr: u16, num_lines: usize, num_lines_before: usize) -> (r: Vec<
        String,
    >)
        ensures
            ({
                let lines = self.addr_to_line@;
                match spec_first_entry(lines, addr) {
                    Option::None => r@.len() == 0,
                    Option::Some(i) => {
                        let start = if i >= num_lines_before {
                            i - num_lines_before
                        } else {
                            0
                        };
                        let take = if num_lines <= lines.len() - start {
                            num_lines as int
                        } else {
                            lines.len() - start
                        };
                        &&& r@.len() == take
                        &&& forall|k: int|
                            0 <= k < take ==> r@[k]@ == spec_listing_line(
                                lines[start + k].0,
                                lines[start + k].0 == addr,
                                lines[start + k].1@,
                            )
                    },
                }
            }),
    {
        let mut res: Vec<String> = Vec::new();
        let i = match self.find_index(addr) {
            Some(i) => i,
            None => {
                return res;
            },
        };
        let start_index = if i >= num_lines_before {
            i - num_lines_before
        } else {
            0
        };
        let avail = self.addr_to_line.len() - start_index;
        let take = if num_lines <= avail {
            num_lines
        } else {
            avail
        };
        let mut count: usize = 0;
        while count < take
            invariant
                start_index + take <= self.addr_to_line@.len(),
                self.addr_to_line@.len() <= usize::MAX,
                count <= take,
                res@.len() == count,
                forall|k: int|
                    0 <= k < count ==> res@[k]@ == spec_listing_line(
                        self.addr_to_line@[start_index + k].0,
                        self.addr_to_line@[start_index + k].0 == addr,
                        self.addr_to_line@[start_index + k].1@,
                    ),
            decreases take - count,
        {
            let j = start_index + count;
            let a = self.addr_to_line[j].0;
            let mut line = u16_to_hex(a, 4);
            if a == addr {
                push_char(&mut line, '>');
            } else {
                push_char(&mut line, ':');
            }
            push_char(&mut line, ' ');
            line.append(self.addr_to_line[j].1.as_str());
            proof {
                assert(line@ =~= spec_listing_line(
                    self.addr_to_line@[j as int].0,
                    self.addr_to_line@[j as int].0 == addr,
                    self.addr_to_line@[j as int].1@,
                ));
            }
            res.push(line);
            count = count + 1;
        }
        res
    }
}

} // verus!
