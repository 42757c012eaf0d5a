//! The assembler: from lines of mnemonic text to opcode bytes.
//!
//! A line is `[label: | address:] Mnemonic [op1[, op2]] [# comment]`.  A
//! label names the line's address for jump and call operands; a numeric
//! address moves assembly forward to that address, padding with zeros.
//! Operands are register or flag names, labels, character literals in
//! single quotes, or numbers (decimal, or hexadecimal, octal and binary
//! with the 0x, 0o and 0b prefixes).  A DATA line emits bytes and
//! double-quoted text directly.

use vstd::prelude::*;

use crate::numtext::{
    parse_i8_byte, parse_u16_str, parse_u8_str, push_char, spec_parse_u16, u16_to_dec,
};

verus! {

/// What went wrong with one piece of assembly text.
#[derive(Debug, Clone, Copy, PartialEq, Eq, Structural)]
pub enum AsmErrorKind {
    UnknownInstruction,
    LabelNotRemoved,
    LeadingWhitespace,
    MissingOperand,
    BadOperand,
    BadData,
    InvalidAddress,
    AddressOverflow,
    AddressOverlap,
}

/// An assembly error with the one-based source line it came from; line 0
/// stands for no particular line.
#[derive(Debug, Clone, Copy, PartialEq, Eq, Structural)]
pub struct AsmError {
    pub line: usize,
    pub kind: AsmErrorKind,
}

/// The index of the first occurrence of a character.
pub open spec fn spec_find_char(s: Seq<char>, c: char) -> Option<int>
    decreases s.len(),
{
    if s.len() == 0 {
        None
    } else if s[0] == c {
        Some(0)
    } else {
        match spec_find_char(s.drop_first(), c) {
            Some(i) => Some(i + 1),
            None => None,
        }
    }
}

/// The string with its leading spaces dropped.
pub open spec fn spec_trim_front(s: Seq<char>) -> Seq<char>
    decreases s.len(),
{
    if s.len() > 0 && s[0] == ' ' {
        spec_trim_front(s.drop_first())
    } else {
        s
    }
}

/// The string with its trailing spaces dropped.
pub open spec fn spec_trim_back(s: Seq<char>) -> Seq<char>
    decreases s.len(),
{
    if s.len() > 0 && s.last() == ' ' {
        spec_trim_back(s.drop_last())
    } else {
        s
    }
}

/// The string with leading and trailing spaces dropped.
pub open spec fn spec_trim(s: Seq<char>) -> Seq<char> {
    spec_trim_back(spec_trim_front(s))
}

/// The mnemonic of a line without label or leading whitespace: everything
/// before the first space, or the whole line.
pub open spec fn spec_mnemonic_of(s: Seq<char>) -> Seq<char> {
    match spec_find_char(s, ' ') {
        Some(i) => s.subrange(0, i),
        None => s,
    }
}

/// An opcode byte from its three fields: type in bits 7..6, destination
/// in bits 5..3, source in bits 2..0.
pub open spec fn spec_tds(t: u8, d: u8, s: u8) -> u8 {
    (((t & 3) << 6) | ((d & 7) << 3)) | (s & 7)
}

/// The index of the first occurrence of a character, if any.
pub fn find_char(s: &String, c: char) -> (r: Option<usize>)
    ensures
        (match r {
            Some(i) => spec_find_char(s@, c) == Some(i as int) && i < s@.len(),
            None => spec_find_char(s@, c) is None,
        }),
{
    let len = s.as_str().unicode_len();
    let mut i: usize = 0;
    proof {
        assert(s@.subrange(0, len as int) =~= s@);
    }
    while i < len
        invariant
            i <= len,
            len == s@.len(),
            spec_find_char(s@, c) == (match spec_find_char(
                s@.subrange(i as int, len as int),
                c,
            ) {
                Some(j) => Some(j + i),
                None => Option::<int>::None,
            }),
        decreases len - i,
    {
        let ch = s.as_str().get_char(i);
        proof {
            assert(s@.subrange(i as int, len as int)[0] == s@[i as int]);
            assert(s@.subrange(i as int, len as int).drop_first() =~= s@.subrange(
                i + 1 as int,
                len as int,
            ));
        }
        if ch == c {
            return Some(i);
        }
        i = i + 1;
    }
    proof {
        assert(s@.subrange(len as int, len as int) =~= Seq::<char>::empty());
    }
    None
}

/// A found character's index lies inside the string.
pub proof fn lemma_find_char_bound(s: Seq<char>, c: char)
    ensures
        spec_find_char(s, c) matches Some(i) ==> 0 <= i < s.len(),
    decreases s.len(),
{
    if s.len() > 0 && s[0] != c {
        lemma_find_char_bound(s.drop_first(), c);
    }
}

/// The leading spaces of a prefix of spaces reach the whole trim.
proof fn lemma_trim_front_at(s: Seq<char>, k: int)
    requires
        0 <= k <= s.len(),
        forall|j: int| 0 <= j < k ==> s[j] == ' ',
        k == s.len() || s[k] != ' ',
    ensures
        spec_trim_front(s) == s.subrange(k, s.len() as int),
    decreases k,
{
    if k == 0 {
        assert(s.subrange(0, s.len() as int) =~= s);
    } else {
        lemma_trim_front_at(s.drop_first(), k - 1);
        assert(s.drop_first().subrange(k - 1, s.drop_first().len() as int) =~= s.subrange(
            k,
            s.len() as int,
        ));
    }
}

/// The trailing spaces of a suffix of spaces reach the whole trim.
proof fn lemma_trim_back_at(s: Seq<char>, k: int)
    requires
        0 <= k <= s.len(),
        forall|j: int| k <= j < s.len() ==> s[j] == ' ',
        k == 0 || s[k - 1] != ' ',
    ensures
        spec_trim_back(s) == s.subrange(0, k),
    decreases s.len() - k,
{
    if k == s.len() {
        assert(s.subrange(0, k) =~= s);
    } else {
        lemma_trim_back_at(s.drop_last(), k);
        assert(s.drop_last().subrange(0, k) =~= s.subrange(0, k));
    }
}

/// Remove everything from the first `#` on; the line keeps only what
/// stands before its comment.
pub fn remove_comment(line: &mut String)
    ensures
        final(line)@ == (match spec_find_char(old(line)@, '#') {
            Some(i) => old(line)@.subrange(0, i),
            None => old(line)@,
        }),
{
    if let Some(index) = find_char(line, '#') {
        let prefix = line.as_str().substring_char(0, index).to_owned();
        *line = prefix;
    }
}

/// Remove spaces from the beginning and the end of the line.
pub fn strip(line: &mut String)
    ensures
        final(line)@ == spec_trim(old(line)@),
{
    let len = line.as_str().unicode_len();
    let mut start: usize = 0;
    while start < len && line.as_str().get_char(start) == ' '
        invariant
            start <= len,
            len == line@.len(),
            line@ == old(line)@,
            forall|j: int| 0 <= j < start ==> line@[j] == ' ',
        decreases len - start,
    {
        start = start + 1;
    }
    let mut end: usize = len;
    while end > start && line.as_str().get_char(end - 1) == ' '
        invariant
            start <= end <= len,
            len == line@.len(),
            line@ == old(line)@,
            forall|j: int| 0 <= j < start ==> line@[j] == ' ',
            start == len || line@[start as int] != ' ',
            forall|j: int| end <= j < len ==> line@[j] == ' ',
        decreases end,
    {
        end = end - 1;
    }
    proof {
        lemma_trim_front_at(line@, start as int);
        if end == start {
            lemma_trim_back_at(line@.subrange(start as int, len as int), 0);
        } else {
            lemma_trim_back_at(
                line@.subrange(start as int, len as int),
                end - start,
            );
        }
        assert(line@.subrange(start as int, len as int).subrange(0, end - start) =~= line@.subrange(
            start as int,
            end as int,
        ));
    }
    let trimmed = line.as_str().substring_char(start, end).to_owned();
    *line = trimmed;
}

/// Split off a leading `label:` or `address:` part.  With a colon, the
/// line keeps what follows it; a numeric prefix comes back as an address,
/// any other prefix as a label.  Without a colon nothing changes.
pub fn get_label_or_address(line: &mut String) -> (r: (Option<String>, Option<u16>))
    ensures
        (match spec_find_char(old(line)@, ':') {
            None => final(line)@ == old(line)@ && r.0 is None && r.1 is None,
            Some(i) => {
                &&& final(line)@ == old(line)@.subrange(i + 1, old(line)@.len() as int)
                &&& (match spec_parse_u16(old(line)@.subrange(0, i)) {
                    Some(v) => r.0 is None && r.1 == Some(v),
                    None => r.1 is None && r.0 is Some && r.0->0@ == old(line)@.subrange(0, i),
                })
            },
        }),
{
    if let Some(index) = find_char(line, ':') {
        let len = line.as_str().unicode_len();
        let address_label = line.as_str().substring_char(0, index).to_owned();
        let rest = line.as_str().substring_char(index + 1, len).to_owned();
        *line = rest;
        match parse_u16_str(address_label.as_str()) {
            Some(v) => (None, Some(v)),
            None => (Some(address_label), None),
        }
    } else {
        (None, None)
    }
}

/// The mnemonic of a line: everything before the first space.  A line
/// that still holds a label or leading whitespace is refused.
pub fn get_instruction(line: &String) -> (r: Result<String, AsmErrorKind>)
    ensures
        (match r {
            Ok(m) => m@ == spec_mnemonic_of(line@) && spec_find_char(line@, ':') is None && (line@.len()
                == 0 || line@[0] != ' '),
            Err(k) => (k == AsmErrorKind::LabelNotRemoved || k == AsmErrorKind::LeadingWhitespace)
                && (spec_find_char(line@, ':') is Some || (line@.len() > 0 && line@[0] == ' ')),
        }),
{
    if find_char(line, ':').is_some() {
        return Err(AsmErrorKind::LabelNotRemoved);
    }
    let len = line.as_str().unicode_len();
    if len > 0 && line.as_str().get_char(0) == ' ' {
        return Err(AsmErrorKind::LeadingWhitespace);
    }
    match find_char(line, ' ') {
        Some(i) => Ok(line.as_str().substring_char(0, i).to_owned()),
        None => {
            proof {
                assert(line@.subrange(0, line@.len() as int) =~= line@);
            }
            Ok(line.as_str().substring_char(0, len).to_owned())
        },
    }
}

/// Whether a string equals a string literal, character for character.
pub fn str_eq(s: &String, lit: &str) -> (r: bool)
    ensures
        r == (s@ == lit@),
{
    let other = lit.to_owned();
    s.eq(&other)
}

/// An opcode byte from its three fields; see `spec_tds`.
pub fn tds(t: u8, d: u8, s: u8) -> (r: u8)
    ensures
        r == spec_tds(t, d, s),
{
    (((t & 3) << 6) | ((d & 7) << 3)) | (s & 7)
}

/// The operand list of one instruction line, with labels and register
/// names already replaced by their numeric text, handed out left to
/// right.
#[derive(Debug)]
pub struct OpParser {
    pub ops: Vec<String>,
    pub counter: usize,
}

/// The text of a line split at commas.
fn split_commas(s: &String) -> (r: Vec<String>)
    ensures
        r@.len() >= 1,
{
    let len = s.as_str().unicode_len();
    let mut pieces: Vec<String> = Vec::new();
    let mut current = String::new();
    let mut i: usize = 0;
    while i < len
        invariant
            i <= len,
            len == s@.len(),
        decreases len - i,
    {
        let c = s.as_str().get_char(i);
        if c == ',' {
            pieces.push(current);
            current = String::new();
        } else {
            push_char(&mut current, c);
        }
        i = i + 1;
    }
    pieces.push(current);
    pieces
}

impl OpParser {
    /// Parse a line's operands: everything after the mnemonic, split at
    /// commas, stripped, with labels and register or flag names replaced
    /// by their numeric text.
    pub fn new(line: &String, label_list: &Vec<(String, u16)>) -> (r: Result<
        OpParser,
        AsmErrorKind,
    >)
        ensures
            r is Ok ==> r->Ok_0.counter == 0,
    {
        let inst = get_instruction(line)?;
        let ilen = inst.as_str().unicode_len();
        let llen = line.as_str().unicode_len();
        proof {
            lemma_find_char_bound(line@, ' ');
            assert(inst@.len() <= line@.len());
        }
        let operands = line.as_str().substring_char(ilen, llen).to_owned();
        let pieces = split_commas(&operands);
        let mut res: Vec<String> = Vec::new();
        let mut p: usize = 0;
        while p < pieces.len()
            decreases pieces@.len() - p,
        {
            let mut op = pieces[p].clone();
            strip(&mut op);
            let mut li: usize = 0;
            while li < label_list.len()
                decreases label_list@.len() - li,
            {
                if str_eq(&op, label_list[li].0.as_str()) {
                    op = u16_to_dec(label_list[li].1);
                }
                li = li + 1;
            }
            op = substitute_register_name(op);
            res.push(op);
            p = p + 1;
        }
        Ok(OpParser { ops: res, counter: 0 })
    }

    /// The next operand as a byte: a quoted character stands for its
    /// code, a minus-prefixed number is taken two's complement, anything
    /// else must fit 8 bits unsigned.
    pub fn op(&mut self) -> (r: Result<u8, AsmErrorKind>)
        ensures
            r is Ok ==> final(self).counter == old(self).counter + 1 && final(self).ops == old(
                self,
            ).ops,
    {
        if self.counter >= self.ops.len() {
            return Err(AsmErrorKind::MissingOperand);
        }
        let val = &self.ops[self.counter];
        let vlen = val.as_str().unicode_len();
        self.counter = self.counter + 1;
        if vlen >= 1 && val.as_str().get_char(0) == '\'' {
            if vlen < 2 {
                return Err(AsmErrorKind::BadOperand);
            }
            let c = val.as_str().get_char(1);
            return Ok(((c as u32) % 256) as u8);
        }
        if vlen >= 1 && val.as_str().get_char(0) == '-' {
            return match parse_i8_byte(val.as_str()) {
                Some(b) => Ok(b),
                None => Err(AsmErrorKind::BadOperand),
            };
        }
        match parse_u8_str(val.as_str()) {
            Some(b) => Ok(b),
            None => Err(AsmErrorKind::BadOperand),
        }
    }

    /// The low byte of the current operand read as a 16-bit number; the
    /// operand is not consumed.
    pub fn lsp(&self) -> (r: Result<u8, AsmErrorKind>)
    {
        if self.counter >= self.ops.len() {
            return Err(AsmErrorKind::MissingOperand);
        }
        match parse_u16_str(self.ops[self.counter].as_str()) {
            Some(v) => Ok((v % 256) as u8),
            None => Err(AsmErrorKind::BadOperand),
        }
    }

    /// The high byte of the current operand read as a 16-bit number,
    /// consuming it.
    pub fn msp(&mut self) -> (r: Result<u8, AsmErrorKind>)
        ensures
            r is Ok ==> final(self).counter == old(self).counter + 1 && final(self).ops == old(
                self,
            ).ops,
    {
        if self.counter >= self.ops.len() {
            return Err(AsmErrorKind::MissingOperand);
        }
        let val = &self.ops[self.counter];
        self.counter = self.counter + 1;
        match parse_u16_str(val.as_str()) {
            Some(v) => Ok((v / 256) as u8),
            None => Err(AsmErrorKind::BadOperand),
        }
    }
}

/// A register, memory-alias or flag name replaced by its index text; any
/// other text passes through.
fn substitute_register_name(op: String) -> (r: String)
{
    if str_eq(&op, "A") || str_eq(&op, "Cf") {
        "0".to_owned()
    } else if str_eq(&op, "B") || str_eq(&op, "Zf") {
        "1".to_owned()
    } else if str_eq(&op, "C") || str_eq(&op, "Sf") {
        "2".to_owned()
    } else if str_eq(&op, "D") || str_eq(&op, "Pf") {
        "3".to_owned()
    } else if str_eq(&op, "E") {
        "4".to_owned()
    } else if str_eq(&op, "H") {
        "5".to_owned()
    } else if str_eq(&op, "L") {
        "6".to_owned()
    } else if str_eq(&op, "M") {
        "7".to_owned()
    } else {
        op
    }
}

/// How many bytes an instruction with this mnemonic occupies.
pub open spec fn spec_mnemonic_size(m: Seq<char>) -> Option<u16> {
    if m == "LoadImm"@ {
        Some(2)
    } else if m == "Load"@ {
        Some(1)
    } else if m == "AddImm"@ {
        Some(2)
    } else if m == "Add"@ {
        Some(1)
    } else if m == "AddImmCarry"@ {
        Some(2)
    } else if m == "AddCarry"@ {
        Some(1)
    } else if m == "SubImm"@ {
        Some(2)
    } else if m == "Sub"@ {
        Some(1)
    } else if m == "SubImmBorrow"@ {
        Some(2)
    } else if m == "SubBorrow"@ {
        Some(1)
    } else if m == "AndImm"@ {
        Some(2)
    } else if m == "And"@ {
        Some(1)
    } else if m == "OrImm"@ {
        Some(2)
    } else if m == "Or"@ {
        Some(1)
    } else if m == "XorImm"@ {
        Some(2)
    } else if m == "Xor"@ {
        Some(1)
    } else if m == "CompImm"@ {
        Some(2)
    } else if m == "Comp"@ {
        Some(1)
    } else if m == "Jump"@ {
        Some(3)
    } else if m == "JumpIf"@ {
        Some(3)
    } else if m == "JumpIfNot"@ {
        Some(3)
    } else if m == "Call"@ {
        Some(3)
    } else if m == "CallIf"@ {
        Some(3)
    } else if m == "CallIfNot"@ {
        Some(3)
    } else if m == "Return"@ {
        Some(1)
    } else if m == "ReturnIf"@ {
        Some(1)
    } else if m == "ReturnIfNot"@ {
        Some(1)
    } else if m == "ShiftRight"@ {
        Some(1)
    } else if m == "ShiftLeft"@ {
        Some(1)
    } else if m == "Nop"@ {
        Some(1)
    } else if m == "Halt"@ {
        Some(1)
    } else if m == "Input"@ {
        Some(1)
    } else if m == "Pop"@ {
        Some(1)
    } else if m == "Push"@ {
        Some(1)
    } else if m == "EnableIntr"@ {
        Some(1)
    } else if m == "DisableInts"@ {
        Some(1)
    } else if m == "SelectAlpha"@ {
        Some(1)
    } else if m == "SelectBeta"@ {
        Some(1)
    } else if m == "Adr"@ {
        Some(1)
    } else if m == "Status"@ {
        Some(1)
    } else if m == "Data"@ {
        Some(1)
    } else if m == "Write"@ {
        Some(1)
    } else if m == "Com1"@ {
        Some(1)
    } else if m == "Com2"@ {
        Some(1)
    } else if m == "Com3"@ {
        Some(1)
    } else if m == "Com4"@ {
        Some(1)
    } else if m == "Beep"@ {
        Some(1)
    } else if m == "Click"@ {
        Some(1)
    } else if m == "Deck1"@ {
        Some(1)
    } else if m == "Deck2"@ {
        Some(1)
    } else if m == "Rbk"@ {
        Some(1)
    } else if m == "Wbk"@ {
        Some(1)
    } else if m == "Bsp"@ {
        Some(1)
    } else if m == "Sf"@ {
        Some(1)
    } else if m == "Sb"@ {
        Some(1)
    } else if m == "Rewind"@ {
        Some(1)
    } else if m == "Tstop"@ {
        Some(1)
    } else {
        None
    }
}

/// The byte size of the instruction with this mnemonic; see
/// `spec_mnemonic_size`.
pub fn get_instruction_byte_size(inst: &String) -> (r: Result<u16, AsmErrorKind>)
    ensures
        (match spec_mnemonic_size(inst@) {
            Some(n) => r == Ok::<u16, AsmErrorKind>(n),
            None => r == Err::<u16, AsmErrorKind>(AsmErrorKind::UnknownInstruction),
        }),
{
    if str_eq(inst, "LoadImm") {
        Ok(2)
    } else if str_eq(inst, "Load") {
        Ok(1)
    } else if str_eq(inst, "AddImm") {
        Ok(2)
    } else if str_eq(inst, "Add") {
        Ok(1)
    } else if str_eq(inst, "AddImmCarry") {
        Ok(2)
    } else if str_eq(inst, "AddCarry") {
        Ok(1)
    } else if str_eq(inst, "SubImm") {
        Ok(2)
    } else if str_eq(inst, "Sub") {
        Ok(1)
    } else if str_eq(inst, "SubImmBorrow") {
        Ok(2)
    } else if str_eq(inst, "SubBorrow") {
        Ok(1)
    } else if str_eq(inst, "AndImm") {
        Ok(2)
    } else if str_eq(inst, "And") {
        Ok(1)
    } else if str_eq(inst, "OrImm") {
        Ok(2)
    } else if str_eq(inst, "Or") {
        Ok(1)
    } else if str_eq(inst, "XorImm") {
        Ok(2)
    } else if str_eq(inst, "Xor") {
        Ok(1)
    } else if str_eq(inst, "CompImm") {
        Ok(2)
    } else if str_eq(inst, "Comp") {
        Ok(1)
    } else if str_eq(inst, "Jump") {
        Ok(3)
    } else if str_eq(inst, "JumpIf") {
        Ok(3)
    } else if str_eq(inst, "JumpIfNot") {
        Ok(3)
    } else if str_eq(inst, "Call") {
        Ok(3)
    } else if str_eq(inst, "CallIf") {
        Ok(3)
    } else if str_eq(inst, "CallIfNot") {
        Ok(3)
    } else if str_eq(inst, "Return") {
        Ok(1)
    } else if str_eq(inst, "ReturnIf") {
        Ok(1)
    } else if str_eq(inst, "ReturnIfNot") {
        Ok(1)
    } else if str_eq(inst, "ShiftRight") {
        Ok(1)
    } else if str_eq(inst, "ShiftLeft") {
        Ok(1)
    } else if str_eq(inst, "Nop") {
        Ok(1)
    } else if str_eq(inst, "Halt") {
        Ok(1)
    } else if str_eq(inst, "Input") {
        Ok(1)
    } else if str_eq(inst, "Pop") {
        Ok(1)
    } else if str_eq(inst, "Push") {
        Ok(1)
    } else if str_eq(inst, "EnableIntr") {
        Ok(1)
    } else if str_eq(inst, "DisableInts") {
        Ok(1)
    } else if str_eq(inst, "SelectAlpha") {
        Ok(1)
    } else if str_eq(inst, "SelectBeta") {
        Ok(1)
    } else if str_eq(inst, "Adr") {
        Ok(1)
    } else if str_eq(inst, "Status") {
        Ok(1)
    } else if str_eq(inst, "Data") {
        Ok(1)
    } else if str_eq(inst, "Write") {
        Ok(1)
    } else if str_eq(inst, "Com1") {
        Ok(1)
    } else if str_eq(inst, "Com2") {
        Ok(1)
    } else if str_eq(inst, "Com3") {
        Ok(1)
    } else if str_eq(inst, "Com4") {
        Ok(1)
    } else if str_eq(inst, "Beep") {
        Ok(1)
    } else if str_eq(inst, "Click") {
        Ok(1)
    } else if str_eq(inst, "Deck1") {
        Ok(1)
    } else if str_eq(inst, "Deck2") {
        Ok(1)
    } else if str_eq(inst, "Rbk") {
        Ok(1)
    } else if str_eq(inst, "Wbk") {
        Ok(1)
    } else if str_eq(inst, "Bsp") {
        Ok(1)
    } else if str_eq(inst, "Sf") {
        Ok(1)
    } else if str_eq(inst, "Sb") {
        Ok(1)
    } else if str_eq(inst, "Rewind") {
        Ok(1)
    } else if str_eq(inst, "Tstop") {
        Ok(1)
    } else {
        Err(AsmErrorKind::UnknownInstruction)
    }
}

/// The first opcode byte of a mnemonic whose encoding does not depend
/// on its operands: every command without operands, the immediate ALU
/// family, and the unconditional jump and call.
pub open spec fn spec_mnemonic_fixed_first(m: Seq<char>) -> Option<u8> {
    if m == "LoadImm"@ {
        None
    } else if m == "Load"@ {
        None
    } else if m == "AddImm"@ {
        Some(spec_tds(0, 0, 4))
    } else if m == "Add"@ {
        None
    } else if m == "AddImmCarry"@ {
        Some(spec_tds(0, 1, 4))
    } else if m == "AddCarry"@ {
        None
    } else if m == "SubImm"@ {
        Some(spec_tds(0, 2, 4))
    } else if m == "Sub"@ {
        None
    } else if m == "SubImmBorrow"@ {
        Some(spec_tds(0, 3, 4))
    } else if m == "SubBorrow"@ {
        None
    } else if m == "AndImm"@ {
        Some(spec_tds(0, 4, 4))
    } else if m == "And"@ {
        None
    } else if m == "OrImm"@ {
        Some(spec_tds(0, 6, 4))
    } else if m == "Or"@ {
        None
    } else if m == "XorImm"@ {
        Some(spec_tds(0, 5, 4))
    } else if m == "Xor"@ {
        None
    } else if m == "CompImm"@ {
        Some(spec_tds(0, 7, 4))
    } else if m == "Comp"@ {
        None
    } else if m == "Jump"@ {
        Some(spec_tds(1, 0, 4))
    } else if m == "JumpIf"@ {
        None
    } else if m == "JumpIfNot"@ {
        None
    } else if m == "Call"@ {
        Some(spec_tds(1, 0, 6))
    } else if m == "CallIf"@ {
        None
    } else if m == "CallIfNot"@ {
        None
    } else if m == "Return"@ {
        Some(spec_tds(0, 0, 7))
    } else if m == "ReturnIf"@ {
        None
    } else if m == "ReturnIfNot"@ {
        None
    } else if m == "ShiftRight"@ {
        Some(spec_tds(0, 1, 2))
    } else if m == "ShiftLeft"@ {
        Some(spec_tds(0, 0, 2))
    } else if m == "Nop"@ {
        Some(spec_tds(3, 0, 0))
    } else if m == "Halt"@ {
        Some(0u8)
    } else if m == "Input"@ {
        Some(spec_tds(1, 0, 1))
    } else if m == "Pop"@ {
        Some(spec_tds(0, 6, 0))
    } else if m == "Push"@ {
        Some(spec_tds(0, 7, 0))
    } else if m == "EnableIntr"@ {
        Some(spec_tds(0, 5, 0))
    } else if m == "DisableInts"@ {
        Some(spec_tds(0, 4, 0))
    } else if m == "SelectAlpha"@ {
        Some(spec_tds(0, 3, 0))
    } else if m == "SelectBeta"@ {
        Some(spec_tds(0, 2, 0))
    } else if m == "Adr"@ {
        Some(0o121u8)
    } else if m == "Status"@ {
        Some(0o123u8)
    } else if m == "Data"@ {
        Some(0o125u8)
    } else if m == "Write"@ {
        Some(0o127u8)
    } else if m == "Com1"@ {
        Some(0o131u8)
    } else if m == "Com2"@ {
        Some(0o133u8)
    } else if m == "Com3"@ {
        Some(0o135u8)
    } else if m == "Com4"@ {
        Some(0o137u8)
    } else if m == "Beep"@ {
        Some(0o151u8)
    } else if m == "Click"@ {
        Some(0o153u8)
    } else if m == "Deck1"@ {
        Some(0o155u8)
    } else if m == "Deck2"@ {
        Some(0o157u8)
    } else if m == "Rbk"@ {
        Some(0o161u8)
    } else if m == "Wbk"@ {
        Some(0o163u8)
    } else if m == "Bsp"@ {
        Some(0o167u8)
    } else if m == "Sf"@ {
        Some(0o171u8)
    } else if m == "Sb"@ {
        Some(0o173u8)
    } else if m == "Rewind"@ {
        Some(0o175u8)
    } else if m == "Tstop"@ {
        Some(0o177u8)
    } else {
        None
    }
}

/// The opcode bytes of one instruction line; labels in the operand list
/// take the addresses the label list gives them.  The byte count always
/// matches the mnemonic's size.
pub fn parse_instruction(line: &String, label_list: &Vec<(String, u16)>) -> (r: Result<
    Vec<u8>,
    AsmErrorKind,
>)
    ensures
        r matches Ok(bytes) ==> (spec_mnemonic_size(spec_mnemonic_of(line@)) matches Some(n)
            && bytes@.len() == n),
        r matches Ok(bytes) ==> (match spec_mnemonic_fixed_first(spec_mnemonic_of(line@)) {
            Some(b0) => bytes@[0] == b0,
            None => true,
        }),
{
    let inst = get_instruction(line)?;
    let mut op = OpParser::new(line, label_list)?;
    let mut out: Vec<u8> = Vec::new();
    if str_eq(&inst, "LoadImm") {
        let a = op.op()?;
        let b = op.op()?;
        out.push(tds(0, a, 6));
        out.push(b);
    } else if str_eq(&inst, "Load") {
        let a = op.op()?;
        let b = op.op()?;
        out.push(tds(3, a, b));
    } else if str_eq(&inst, "AddImm") {
        let a = op.op()?;
        out.push(tds(0, 0, 4));
        out.push(a);
    } else if str_eq(&inst, "Add") {
        let a = op.op()?;
        out.push(tds(2, 0, a));
    } else if str_eq(&inst, "AddImmCarry") {
        let a = op.op()?;
        out.push(tds(0, 1, 4));
        out.push(a);
    } else if str_eq(&inst, "AddCarry") {
        let a = op.op()?;
        out.push(tds(2, 1, a));
    } else if str_eq(&inst, "SubImm") {
        let a = op.op()?;
        out.push(tds(0, 2, 4));
        out.push(a);
    } else if str_eq(&inst, "Sub") {
        let a = op.op()?;
        out.push(tds(2, 2, a));
    } else if str_eq(&inst, "SubImmBorrow") {
        let a = op.op()?;
        out.push(tds(0, 3, 4));
        out.push(a);
    } else if str_eq(&inst, "SubBorrow") {
        let a = op.op()?;
        out.push(tds(2, 3, a));
    } else if str_eq(&inst, "AndImm") {
        let a = op.op()?;
        out.push(tds(0, 4, 4));
        out.push(a);
    } else if str_eq(&inst, "And") {
        let a = op.op()?;
        out.push(tds(2, 4, a));
    } else if str_eq(&inst, "OrImm") {
        let a = op.op()?;
        out.push(tds(0, 6, 4));
        out.push(a);
    } else if str_eq(&inst, "Or") {
        let a = op.op()?;
        out.push(tds(2, 6, a));
    } else if str_eq(&inst, "XorImm") {
        let a = op.op()?;
        out.push(tds(0, 5, 4));
        out.push(a);
    } else if str_eq(&inst, "Xor") {
        let a = op.op()?;
        out.push(tds(2, 5, a));
    } else if str_eq(&inst, "CompImm") {
        let a = op.op()?;
        out.push(tds(0, 7, 4));
        out.push(a);
    } else if str_eq(&inst, "Comp") {
        let a = op.op()?;
        out.push(tds(2, 7, a));
    } else if str_eq(&inst, "Jump") {
        let lo = op.lsp()?;
        let hi = op.msp()?;
        out.push(tds(1, 0, 4));
        out.push(lo);
        out.push(hi);
    } else if str_eq(&inst, "JumpIf") {
        let a = op.op()?;
        let lo = op.lsp()?;
        let hi = op.msp()?;
        out.push(tds(1, (a % 8) + 4, 0));
        out.push(lo);
        out.push(hi);
    } else if str_eq(&inst, "JumpIfNot") {
        let a = op.op()?;
        let lo = op.lsp()?;
        let hi = op.msp()?;
        out.push(tds(1, a, 0));
        out.push(lo);
        out.push(hi);
    } else if str_eq(&inst, "Call") {
        let lo = op.lsp()?;
        let hi = op.msp()?;
        out.push(tds(1, 0, 6));
        out.push(lo);
        out.push(hi);
    } else if str_eq(&inst, "CallIf") {
        let a = op.op()?;
        let lo = op.lsp()?;
        let hi = op.msp()?;
        out.push(tds(1, (a % 8) + 4, 2));
        out.push(lo);
        out.push(hi);
    } else if str_eq(&inst, "CallIfNot") {
        let a = op.op()?;
        let lo = op.lsp()?;
        let hi = op.msp()?;
        out.push(tds(1, a, 2));
        out.push(lo);
        out.push(hi);
    } else if str_eq(&inst, "Return") {
        out.push(tds(0, 0, 7));
    } else if str_eq(&inst, "ReturnIf") {
        let a = op.op()?;
        out.push(tds(0, (a % 8) + 4, 3));
    } else if str_eq(&inst, "ReturnIfNot") {
        let a = op.op()?;
        out.push(tds(0, a, 3));
    } else if str_eq(&inst, "ShiftRight") {
        out.push(tds(0, 1, 2));
    } else if str_eq(&inst, "ShiftLeft") {
        out.push(tds(0, 0, 2));
    } else if str_eq(&inst, "Nop") {
        out.push(tds(3, 0, 0));
    } else if str_eq(&inst, "Halt") {
        out.push(0);
    } else if str_eq(&inst, "Input") {
        out.push(tds(1, 0, 1));
    } else if str_eq(&inst, "Pop") {
        out.push(tds(0, 6, 0));
    } else if str_eq(&inst, "Push") {
        out.push(tds(0, 7, 0));
    } else if str_eq(&inst, "EnableIntr") {
        out.push(tds(0, 5, 0));
    } else if str_eq(&inst, "DisableInts") {
        out.push(tds(0, 4, 0));
    } else if str_eq(&inst, "SelectAlpha") {
        out.push(tds(0, 3, 0));
    } else if str_eq(&inst, "SelectBeta") {
        out.push(tds(0, 2, 0));
    } else if str_eq(&inst, "Adr") {
        out.push(0o121);
    } else if str_eq(&inst, "Status") {
        out.push(0o123);
    } else if str_eq(&inst, "Data") {
        out.push(0o125);
    } else if str_eq(&inst, "Write") {
        out.push(0o127);
    } else if str_eq(&inst, "Com1") {
        out.push(0o131);
    } else if str_eq(&inst, "Com2") {
        out.push(0o133);
    } else if str_eq(&inst, "Com3") {
        out.push(0o135);
    } else if str_eq(&inst, "Com4") {
        out.push(0o137);
    } else if str_eq(&inst, "Beep") {
        out.push(0o151);
    } else if str_eq(&inst, "Click") {
        out.push(0o153);
    } else if str_eq(&inst, "Deck1") {
        out.push(0o155);
    } else if str_eq(&inst, "Deck2") {
        out.push(0o157);
    } else if str_eq(&inst, "Rbk") {
        out.push(0o161);
    } else if str_eq(&inst, "Wbk") {
        out.push(0o163);
    } else if str_eq(&inst, "Bsp") {
        out.push(0o167);
    } else if str_eq(&inst, "Sf") {
        out.push(0o171);
    } else if str_eq(&inst, "Sb") {
        out.push(0o173);
    } else if str_eq(&inst, "Rewind") {
        out.push(0o175);
    } else if str_eq(&inst, "Tstop") {
        out.push(0o177);
    } else {
        return Err(AsmErrorKind::UnknownInstruction);
    }
    Ok(out)
}

/// The bytes of a DATA line: each comma-separated piece is either text in
/// double quotes, emitted byte for byte, or one byte value.
pub fn parse_data(line: &String) -> (r: Result<Vec<u8>, AsmErrorKind>)
{
    let llen = line.as_str().unicode_len();
    let body = if llen >= 5 && str_eq(&line.as_str().substring_char(0, 5).to_owned(), "DATA ") {
        line.as_str().substring_char(5, llen).to_owned()
    } else {
        line.clone()
    };
    let pieces = split_commas(&body);
    let mut out: Vec<u8> = Vec::new();
    let mut p: usize = 0;
    while p < pieces.len()
        decreases pieces@.len() - p,
    {
        let piece = &pieces[p];
        let plen = piece.as_str().unicode_len();
        if plen >= 2 && piece.as_str().get_char(0) == '"' && piece.as_str().get_char(plen - 1)
            == '"' {
            let inner = piece.as_str().substring_char(1, plen - 1);
            let mut bytes = inner.as_bytes_vec();
            out.append(&mut bytes);
        } else {
            match parse_u8_str(piece.as_str()) {
                Some(b) => out.push(b),
                None => {
                    return Err(AsmErrorKind::BadData);
                },
            }
        }
        p = p + 1;
    }
    Ok(out)
}

/// A single source line in its plainest shape: no comment, label or
/// address part, no surrounding or leading spaces, a known mnemonic that
/// is not the DATA directive.  For such input the assembler's output is
/// pinned below.
pub open spec fn spec_plain_single(lines: Seq<&str>) -> bool {
    &&& lines.len() == 1
    &&& lines[0]@.len() > 0
    &&& lines[0]@[0] != ' '
    &&& spec_find_char(lines[0]@, '#') is None
    &&& spec_find_char(lines[0]@, ':') is None
    &&& spec_trim(lines[0]@) == lines[0]@
    &&& spec_mnemonic_size(spec_mnemonic_of(lines[0]@)) is Some
    &&& spec_mnemonic_of(lines[0]@) != "DATA"@
}

/// The first pass: every label with the address of the line it stands on.
/// An explicit address may only move assembly forward.
pub fn parse_label_list(lines: &Vec<&str>) -> (r: Result<Vec<(String, u16)>, AsmError>)
    ensures
        r matches Ok(labels) ==> labels@.len() <= lines@.len(),
        lines@.len() == 0 ==> r is Ok && r->Ok_0@.len() == 0,
        spec_plain_single(lines@) ==> r is Ok && r->Ok_0@.len() == 0,
{
    let mut current_address: u16 = 0;
    let mut label_list: Vec<(String, u16)> = Vec::new();
    let mut ln: usize = 0;
    let ghost plain = spec_plain_single(lines@);
    while ln < lines.len()
        invariant
            ln <= lines@.len(),
            label_list@.len() <= ln,
            plain == spec_plain_single(lines@),
            plain ==> label_list@.len() == 0,
            ln == 0 ==> current_address == 0 && label_list@.len() == 0,
        decreases lines@.len() - ln,
    {
        let mut line: String = lines[ln].to_owned();
        remove_comment(&mut line);
        strip(&mut line);
        let (label, address) = get_label_or_address(&mut line);
        if let Some(label) = label {
            label_list.push((label, current_address));
        }
        if let Some(address) = address {
            if address <= current_address {
                return Err(AsmError { line: ln + 1, kind: AsmErrorKind::InvalidAddress });
            }
            current_address = address;
        }
        if line.as_str().unicode_len() > 0 {
            strip(&mut line);
            let inst = match get_instruction(&line) {
                Ok(inst) => inst,
                Err(kind) => {
                    return Err(AsmError { line: ln + 1, kind });
                },
            };
            let step: usize = if str_eq(&inst, "DATA") {
                match parse_data(&line) {
                    Ok(data) => data.len(),
                    Err(kind) => {
                        return Err(AsmError { line: ln + 1, kind });
                    },
                }
            } else {
                match get_instruction_byte_size(&inst) {
                    Ok(size) => size as usize,
                    Err(kind) => {
                        return Err(AsmError { line: ln + 1, kind });
                    },
                }
            };
            if step > 0xffff - (current_address as usize) {
                return Err(AsmError { line: ln + 1, kind: AsmErrorKind::AddressOverflow });
            }
            current_address = current_address + (step as u16);
        }
        ln = ln + 1;
    }
    Ok(label_list)
}

/// Put a byte at `index`, padding the gap from the current end with
/// zeros; a spot before the current end is refused.
pub fn insert_and_extend(l: &mut Vec<u8>, element: u8, index: usize) -> (r: Result<
    (),
    AsmErrorKind,
>)
    ensures
        (match r {
            Ok(()) => index >= old(l)@.len() && final(l)@ == old(l)@ + Seq::new(
                (index - old(l)@.len()) as nat,
                |k: int| 0u8,
            ).push(element) && final(l)@.len() == index + 1,
            Err(k) => k == AsmErrorKind::AddressOverlap && index < old(l)@.len() && final(l)@
                == old(l)@,
        }),
{
    if index < l.len() {
        return Err(AsmErrorKind::AddressOverlap);
    }
    while l.len() < index
        invariant
            old(l)@.len() <= l@.len() <= index,
            l@ == old(l)@ + Seq::new((l@.len() - old(l)@.len()) as nat, |k: int| 0u8),
        decreases index - l@.len(),
    {
        l.push(0);
        proof {
            assert(l@ =~= old(l)@ + Seq::new((l@.len() - old(l)@.len()) as nat, |k: int| 0u8));
        }
    }
    l.push(element);
    proof {
        assert(final(l)@ =~= old(l)@ + Seq::new((index - old(l)@.len()) as nat, |k: int| 0u8).push(
            element,
        ));
    }
    Ok(())
}

/// Assemble lines of mnemonic text into a byte image, labels resolved in
/// a first pass; the image covers addresses 0 up to the highest one
/// written.
pub fn assemble(lines: Vec<&str>) -> (r: Result<Vec<u8>, AsmError>)
    ensures
        r matches Ok(image) ==> image@.len() <= 0x10000,
        lines@.len() == 0 ==> r is Ok && r->Ok_0@.len() == 0,
        spec_plain_single(lines@) && r is Ok ==> ({
            let m = spec_mnemonic_of(lines@[0]@);
            &&& r->Ok_0@.len() == spec_mnemonic_size(m)->0
            &&& (match spec_mnemonic_fixed_first(m) {
                Some(b0) => r->Ok_0@[0] == b0,
                None => true,
            })
        }),
{
    let label_list = parse_label_list(&lines)?;
    let mut res: Vec<u8> = Vec::new();
    let mut current_address: usize = 0;
    let mut ln: usize = 0;
    let ghost plain = spec_plain_single(lines@);
    while ln < lines.len()
        invariant
            ln <= lines@.len(),
            res@.len() <= 0x10000,
            current_address <= 0x10000,
            plain == spec_plain_single(lines@),
            ln == 0 ==> res@.len() == 0 && current_address == 0,
            plain && ln == 1 ==> ({
                let m = spec_mnemonic_of(lines@[0]@);
                &&& res@.len() == spec_mnemonic_size(m)->0
                &&& (match spec_mnemonic_fixed_first(m) {
                    Some(b0) => res@[0] == b0,
                    None => true,
                })
            }),
        decreases lines@.len() - ln,
    {
        let mut line: String = lines[ln].to_owned();
        remove_comment(&mut line);
        strip(&mut line);
        let (_, address) = get_label_or_address(&mut line);
        if let Some(address) = address {
            current_address = address as usize;
        }
        strip(&mut line);
        if line.as_str().unicode_len() > 0 {
            let inst_name = match get_instruction(&line) {
                Ok(inst) => inst,
                Err(kind) => {
                    return Err(AsmError { line: ln + 1, kind });
                },
            };
            let bytes = if str_eq(&inst_name, "DATA") {
                match parse_data(&line) {
                    Ok(data) => data,
                    Err(kind) => {
                        return Err(AsmError { line: ln + 1, kind });
                    },
                }
            } else {
                match parse_instruction(&line, &label_list) {
                    Ok(bytes) => bytes,
                    Err(kind) => {
                        return Err(AsmError { line: ln + 1, kind });
                    },
                }
            };
            let mut k: usize = 0;
            while k < bytes.len()
                invariant
                    k <= bytes@.len(),
                    res@.len() <= 0x10000,
                    current_address <= 0x10000,
                    ln < lines@.len(),
                    lines@.len() <= usize::MAX,
                    plain && ln == 0 ==> current_address == k && res@ == bytes@.subrange(
                        0,
                        k as int,
                    ),
                decreases bytes@.len() - k,
            {
                if current_address > 0xffff {
                    return Err(AsmError { line: ln + 1, kind: AsmErrorKind::AddressOverflow });
                }
                match insert_and_extend(&mut res, bytes[k], current_address) {
                    Ok(()) => {},
                    Err(kind) => {
                        return Err(AsmError { line: ln + 1, kind });
                    },
                }
                proof {
                    if plain && ln == 0 {
                        assert(res@ =~= bytes@.subrange(0, k + 1));
                    }
                }
                current_address = current_address + 1;
                k = k + 1;
            }
            proof {
                if plain && ln == 0 {
                    assert(res@ =~= bytes@);
                }
            }
        }
        ln = ln + 1;
    }
    Ok(res)
}

} // verus!
