//! Numbers as text: parsing integers with the 0x, 0o and 0b radix
//! prefixes and underscore separators, and rendering numbers as decimal
//! or prefixed hexadecimal strings.

use vstd::prelude::*;

verus! {

/// The value of one digit character under the given radix.
pub open spec fn spec_digit(c: char, radix: int) -> Option<int> {
    let v = if '0' <= c && c <= '9' {
        c as int - '0' as int
    } else if 'a' <= c && c <= 'f' {
        c as int - 'a' as int + 10
    } else if 'A' <= c && c <= 'F' {
        c as int - 'A' as int + 10
    } else {
        -1
    };
    if 0 <= v < radix {
        Some(v)
    } else {
        None
    }
}

/// The value of a digit run under `radix`, starting from `acc` with
/// `seen` telling whether a digit has come yet: underscores are skipped,
/// any other non-digit refuses the run, and at least one digit must
/// appear.
pub open spec fn spec_digits_acc(s: Seq<char>, radix: int, acc: int, seen: bool) -> Option<int>
    decreases s.len(),
{
    if s.len() == 0 {
        if seen {
            Some(acc)
        } else {
            None
        }
    } else if s[0] == '_' {
        spec_digits_acc(s.drop_first(), radix, acc, seen)
    } else {
        match spec_digit(s[0], radix) {
            Some(d) => spec_digits_acc(s.drop_first(), radix, acc * radix + d, true),
            None => None,
        }
    }
}

/// The value of an unsigned number literal: an 0x/0X prefix makes it
/// hexadecimal, 0o/0O octal, 0b/0B binary, anything else decimal.
pub open spec fn spec_parse_uint(s: Seq<char>) -> Option<int> {
    if s.len() >= 2 && s[0] == '0' && (s[1] == 'x' || s[1] == 'X') {
        spec_digits_acc(s.subrange(2, s.len() as int), 16, 0, false)
    } else if s.len() >= 2 && s[0] == '0' && (s[1] == 'o' || s[1] == 'O') {
        spec_digits_acc(s.subrange(2, s.len() as int), 8, 0, false)
    } else if s.len() >= 2 && s[0] == '0' && (s[1] == 'b' || s[1] == 'B') {
        spec_digits_acc(s.subrange(2, s.len() as int), 2, 0, false)
    } else {
        spec_digits_acc(s, 10, 0, false)
    }
}

/// The number a string stands for when it fits 16 bits, unsigned.
pub open spec fn spec_parse_u16(s: Seq<char>) -> Option<u16> {
    match spec_parse_uint(s) {
        Some(v) => if 0 <= v <= 0xffff {
            Some(v as u16)
        } else {
            None
        },
        None => None,
    }
}

/// The number a string stands for when it fits 8 bits, unsigned.
pub open spec fn spec_parse_u8(s: Seq<char>) -> Option<u8> {
    match spec_parse_uint(s) {
        Some(v) => if 0 <= v <= 0xff {
            Some(v as u8)
        } else {
            None
        },
        None => None,
    }
}

/// The byte a signed decimal-or-prefixed literal stands for, two's
/// complement, when it fits 8 bits signed: a leading minus negates.
pub open spec fn spec_parse_i8_byte(s: Seq<char>) -> Option<u8> {
    if s.len() >= 1 && s[0] == '-' {
        match spec_parse_uint(s.drop_first()) {
            Some(v) => if 0 <= v <= 128 {
                Some(((256 - v) % 256) as u8)
            } else {
                None
            },
            None => None,
        }
    } else {
        match spec_parse_uint(s) {
            Some(v) => if 0 <= v <= 127 {
                Some(v as u8)
            } else {
                None
            },
            None => None,
        }
    }
}

/// A digit run that has already grown past 16 bits can only grow.
proof fn lemma_digits_overflow(s: Seq<char>, radix: int, acc: int, seen: bool)
    requires
        radix >= 2,
        acc > 0xffff,
    ensures
        spec_digits_acc(s, radix, acc, seen) matches Some(v) ==> v > 0xffff,
    decreases s.len(),
{
    if s.len() > 0 {
        if s[0] == '_' {
            lemma_digits_overflow(s.drop_first(), radix, acc, seen);
        } else {
            match spec_digit(s[0], radix) {
                Some(d) => {
                    assert(acc * radix + d > 0xffff) by (nonlinear_arith)
                        requires
                            acc > 0xffff,
                            radix >= 2,
                            d >= 0,
                    ;
                    lemma_digits_overflow(s.drop_first(), radix, acc * radix + d, true);
                },
                None => {},
            }
        }
    }
}

/// The digit value of one character under `radix`; see `spec_digit`.
fn digit_val(c: char, radix: u32) -> (r: Option<u32>)
    requires
        2 <= radix <= 16,
    ensures
        (match r {
            Some(v) => spec_digit(c, radix as int) == Some(v as int) && v < radix,
            None => spec_digit(c, radix as int) is None,
        }),
{
    let u = c as u32;
    let v: u32 = if u >= '0' as u32 && u <= '9' as u32 {
        u - '0' as u32
    } else if u >= 'a' as u32 && u <= 'f' as u32 {
        u - 'a' as u32 + 10
    } else if u >= 'A' as u32 && u <= 'F' as u32 {
        u - 'A' as u32 + 10
    } else {
        16
    };
    proof {
        vstd::utf8::char_u32_cast(c, u);
    }
    if v < radix {
        Some(v)
    } else {
        None
    }
}

/// The value of the digit run `s[from..]` under `radix`, capped at 16
/// bits; see `spec_digits_acc`.
fn parse_digits(s: &str, from: usize, radix: u32) -> (r: Option<u16>)
    requires
        2 <= radix <= 16,
        from <= s@.len(),
    ensures
        (match spec_digits_acc(s@.subrange(from as int, s@.len() as int), radix as int, 0, false) {
            Some(v) => if 0 <= v <= 0xffff {
                r == Some(v as u16)
            } else {
                r is None
            },
            None => r is None,
        }),
{
    let len = s.unicode_len();
    let mut i = from;
    let mut acc: u32 = 0;
    let mut seen = false;
    let ghost whole = s@.subrange(from as int, s@.len() as int);
    while i < len
        invariant
            2 <= radix <= 16,
            from <= i <= len,
            len == s@.len(),
            whole == s@.subrange(from as int, s@.len() as int),
            acc <= 0xffff,
            spec_digits_acc(whole, radix as int, 0, false) == spec_digits_acc(
                s@.subrange(i as int, len as int),
                radix as int,
                acc as int,
                seen,
            ),
        decreases len - i,
    {
        let c = s.get_char(i);
        proof {
            assert(s@.subrange(i as int, len as int)[0] == s@[i as int]);
            assert(s@.subrange(i as int, len as int).drop_first() =~= s@.subrange(
                i + 1 as int,
                len as int,
            ));
        }
        if c == '_' {
            i = i + 1;
            continue ;
        }
        let d = match digit_val(c, radix) {
            Some(d) => d,
            None => {
                return None;
            },
        };
        proof {
            assert(acc * radix <= 0xffff * 16) by (nonlinear_arith)
                requires
                    acc <= 0xffff,
                    radix <= 16,
            ;
        }
        let next: u32 = acc * radix + d;
        if next > 0xffff {
            proof {
                lemma_digits_overflow(
                    s@.subrange(i + 1 as int, len as int),
                    radix as int,
                    next as int,
                    true,
                );
            }
            return None;
        }
        acc = next;
        seen = true;
        i = i + 1;
    }
    proof {
        assert(s@.subrange(len as int, len as int) =~= Seq::<char>::empty());
    }
    if seen {
        Some(acc as u16)
    } else {
        None
    }
}

/// The 16-bit number a literal stands for; see `spec_parse_u16`.
pub fn parse_u16_str(s: &str) -> (r: Option<u16>)
    ensures
        r == spec_parse_u16(s@),
{
    let len = s.unicode_len();
    if len >= 2 && s.get_char(0) == '0' {
        let c1 = s.get_char(1);
        if c1 == 'x' || c1 == 'X' {
            return parse_digits(s, 2, 16);
        }
        if c1 == 'o' || c1 == 'O' {
            return parse_digits(s, 2, 8);
        }
        if c1 == 'b' || c1 == 'B' {
            return parse_digits(s, 2, 2);
        }
    }
    proof {
        assert(s@.subrange(0, s@.len() as int) =~= s@);
    }
    parse_digits(s, 0, 10)
}

/// The 8-bit number a literal stands for; see `spec_parse_u8`.
pub fn parse_u8_str(s: &str) -> (r: Option<u8>)
    ensures
        r == spec_parse_u8(s@),
{
    match parse_u16_str(s) {
        Some(v) => if v <= 0xff {
            Some(v as u8)
        } else {
            None
        },
        None => None,
    }
}

/// The byte a signed literal stands for; see `spec_parse_i8_byte`.
pub fn parse_i8_byte(s: &str) -> (r: Option<u8>)
    ensures
        r == spec_parse_i8_byte(s@),
{
    let len = s.unicode_len();
    if len >= 1 && s.get_char(0) == '-' {
        let rest = s.substring_char(1, len);
        proof {
            assert(rest@ =~= s@.drop_first());
        }
        match parse_u16_str(rest) {
            Some(v) => if v <= 128 {
                Some(((256 - (v as u32)) % 256) as u8)
            } else {
                None
            },
            None => None,
        }
    } else {
        match parse_u16_str(s) {
            Some(v) => if v <= 127 {
                Some(v as u8)
            } else {
                None
            },
            None => None,
        }
    }
}

/// The decimal digits of a number, most significant first.
pub open spec fn spec_dec_chars(v: int) -> Seq<char>
    decreases v,
{
    if v <= 0 {
        Seq::empty()
    } else {
        spec_dec_chars(v / 10).push(spec_digit_char(v % 10))
    }
}

/// The decimal text of a number; zero is "0".
pub open spec fn spec_dec_string(v: int) -> Seq<char> {
    if v == 0 {
        seq!['0']
    } else {
        spec_dec_chars(v)
    }
}

/// The character of one digit value below 16: 0-9 then lowercase a-f.
pub open spec fn spec_digit_char(d: int) -> char {
    if d == 0 {
        '0'
    } else if d == 1 {
        '1'
    } else if d == 2 {
        '2'
    } else if d == 3 {
        '3'
    } else if d == 4 {
        '4'
    } else if d == 5 {
        '5'
    } else if d == 6 {
        '6'
    } else if d == 7 {
        '7'
    } else if d == 8 {
        '8'
    } else if d == 9 {
        '9'
    } else if d == 10 {
        'a'
    } else if d == 11 {
        'b'
    } else if d == 12 {
        'c'
    } else if d == 13 {
        'd'
    } else if d == 14 {
        'e'
    } else {
        'f'
    }
}

/// The character of one digit value; see `spec_digit_char`.
fn digit_char(d: u16) -> (r: char)
    requires
        d < 16,
    ensures
        r == spec_digit_char(d as int),
{
    if d == 0 {
        '0'
    } else if d == 1 {
        '1'
    } else if d == 2 {
        '2'
    } else if d == 3 {
        '3'
    } else if d == 4 {
        '4'
    } else if d == 5 {
        '5'
    } else if d == 6 {
        '6'
    } else if d == 7 {
        '7'
    } else if d == 8 {
        '8'
    } else if d == 9 {
        '9'
    } else if d == 10 {
        'a'
    } else if d == 11 {
        'b'
    } else if d == 12 {
        'c'
    } else if d == 13 {
        'd'
    } else if d == 14 {
        'e'
    } else {
        'f'
    }
}

/// Append the decimal digits of a number; nothing for zero.
fn push_dec_digits(s: &mut String, v: u16)
    ensures
        final(s)@ == old(s)@ + spec_dec_chars(v as int),
    decreases v,
{
    if v == 0 {
        proof {
            assert(old(s)@ + spec_dec_chars(0int) =~= old(s)@);
        }
        return ;
    }
    push_dec_digits(s, v / 10);
    push_char(s, digit_char(v % 10));
    proof {
        assert(old(s)@ + spec_dec_chars(v as int / 10) + seq![
            spec_digit_char(v as int % 10),
        ] =~= old(s)@ + spec_dec_chars(v as int));
        assert((old(s)@ + spec_dec_chars(v as int / 10)).push(spec_digit_char(v as int % 10))
            =~= old(s)@ + spec_dec_chars(v as int / 10) + seq![spec_digit_char(v as int % 10)]);
    }
}

/// The decimal text of a 16-bit number; see `spec_dec_string`.
pub fn u16_to_dec(v: u16) -> (r: String)
    ensures
        r@ == spec_dec_string(v as int),
{
    let mut s = String::new();
    if v == 0 {
        push_char(&mut s, '0');
        proof {
            assert(s@ =~= seq!['0']);
        }
        return s;
    }
    push_dec_digits(&mut s, v);
    proof {
        assert(s@ =~= spec_dec_chars(v as int));
    }
    s
}

/// The hexadecimal digits of a number, most significant first.
pub open spec fn spec_hex_chars(v: int) -> Seq<char>
    decreases v,
{
    if v <= 0 {
        Seq::empty()
    } else {
        spec_hex_chars(v / 16).push(spec_digit_char(v % 16))
    }
}

/// The text "0x" followed by the number's hexadecimal digits, zero-padded
/// on the left to at least `min_digits` digits.
pub open spec fn spec_hex_string(v: int, min_digits: int) -> Seq<char> {
    let digits = spec_hex_chars(v);
    let padded = if digits.len() < min_digits {
        Seq::new((min_digits - digits.len()) as nat, |k: int| '0') + digits
    } else {
        digits
    };
    seq!['0', 'x'] + padded
}

/// Append the hexadecimal digits of a number; nothing for zero.
fn push_hex_digits(s: &mut String, v: u16)
    ensures
        final(s)@ == old(s)@ + spec_hex_chars(v as int),
    decreases v,
{
    if v == 0 {
        proof {
            assert(old(s)@ + spec_hex_chars(0int) =~= old(s)@);
        }
        return ;
    }
    push_hex_digits(s, v / 16);
    push_char(s, digit_char(v % 16));
    proof {
        assert(old(s)@ + spec_hex_chars(v as int / 16) + seq![
            spec_digit_char(v as int % 16),
        ] =~= old(s)@ + spec_hex_chars(v as int));
        assert((old(s)@ + spec_hex_chars(v as int / 16)).push(spec_digit_char(v as int % 16))
            =~= old(s)@ + spec_hex_chars(v as int / 16) + seq![spec_digit_char(v as int % 16)]);
    }
}

/// How many hexadecimal digits a number has; zero has none.
fn hex_digit_count(v: u16) -> (r: usize)
    ensures
        r == spec_hex_chars(v as int).len(),
        r <= 4,
{
    let mut count: usize = 0;
    let mut rest = v;
    while rest > 0
        invariant
            count + spec_hex_chars(rest as int).len() == spec_hex_chars(v as int).len(),
            (count == 0 && rest <= 0xffff) || (count == 1 && rest <= 0xfff) || (count == 2 && rest
                <= 0xff) || (count == 3 && rest <= 0xf) || (count == 4 && rest == 0),
        decreases rest,
    {
        count = count + 1;
        rest = rest / 16;
    }
    count
}

/// The prefixed hexadecimal text of a 16-bit number; see
/// `spec_hex_string`.
pub fn u16_to_hex(v: u16, min_digits: usize) -> (r: String)
    ensures
        r@ == spec_hex_string(v as int, min_digits as int),
{
    let mut s = String::new();
    push_char(&mut s, '0');
    push_char(&mut s, 'x');
    let ghost head = seq!['0', 'x'];
    proof {
        assert(s@ =~= head);
    }
    let count = hex_digit_count(v);
    let mut pad = if min_digits > count {
        min_digits - count
    } else {
        0
    };
    let ghost total_pad = pad;
    while pad > 0
        invariant
            pad <= total_pad,
            s@ == head + Seq::new((total_pad - pad) as nat, |k: int| '0'),
        decreases pad,
    {
        push_char(&mut s, '0');
        pad = pad - 1;
        proof {
            assert(s@ =~= head + Seq::new((total_pad - pad) as nat, |k: int| '0'));
        }
    }
    push_hex_digits(&mut s, v);
    proof {
        assert(s@ =~= spec_hex_string(v as int, min_digits as int));
    }
    s
}

/// Append one character to a string.  Relies on `String::push` of std: it
/// appends the given character to the end of the string.
#[verifier::external_body]
pub fn push_char(s: &mut String, c: char)
    ensures
        final(s)@ == old(s)@.push(c),
{
    s.push(c);
}

} // verus!
