//! JSON text generation: decimal notation for integers and the escaped
//! form of JSON strings, each with a spec-level definition that the
//! executable emitters are proved to match.

use vstd::prelude::*;

verus! {

/// The character for a single decimal digit.
pub open spec fn digit_char(d: int) -> char {
    if d == 0 {
        '0'
    } else if d == 1 {
        '1'
    } else if d == 2 {
        '2'
    } else if d == 3 {
        '3'
    } else if d == 4 {
        '4'
    } else if d == 5 {
        '5'
    } else if d == 6 {
        '6'
    } else if d == 7 {
        '7'
    } else if d == 8 {
        '8'
    } else if d == 9 {
        '9'
    } else {
        ' '
    }
}

/// Decimal notation of a natural number: no sign, no leading zeros
/// (except for zero itself, written as one digit).
pub open spec fn dec_digits(n: nat) -> Seq<char>
    decreases n,
{
    if n < 10 {
        seq![digit_char(n as int)]
    } else {
        dec_digits(n / 10) + seq![digit_char((n % 10) as int)]
    }
}

/// Decimal notation of an integer: a leading minus sign for negative values.
pub open spec fn dec_int(i: int) -> Seq<char> {
    if i < 0 {
        seq!['-'] + dec_digits((-i) as nat)
    } else {
        dec_digits(i as nat)
    }
}

/// Relies on String::push from std: appends exactly the given character.
#[verifier::external_body]
pub(crate) fn push_char(out: &mut String, c: char)
    ensures
        final(out)@ == old(out)@.push(c),
{
    out.push(c);
}

fn digit_to_char(d: u8) -> (c: char)
    requires
        d < 10,
    ensures
        c == digit_char(d as int),
{
    match d {
        0 => '0',
        1 => '1',
        2 => '2',
        3 => '3',
        4 => '4',
        5 => '5',
        6 => '6',
        7 => '7',
        8 => '8',
        _ => '9',
    }
}

/// Appends the decimal notation of an unsigned value.
pub fn push_dec_u128(out: &mut String, n: u128)
    ensures
        final(out)@ == old(out)@ + dec_digits(n as nat),
    decreases n,
{
    if n < 10 {
        let d = digit_to_char(n as u8);
        push_char(out, d);
        assert(out@ =~= old(out)@ + dec_digits(n as nat));
    } else {
        push_dec_u128(out, n / 10);
        let d = digit_to_char((n % 10) as u8);
        push_char(out, d);
        assert(out@ =~= old(out)@ + dec_digits(n as nat));
    }
}

/// Appends the decimal notation of a signed value.
pub fn push_dec_i128(out: &mut String, i: i128)
    ensures
        final(out)@ == old(out)@ + dec_int(i as int),
{
    if i < 0 {
        push_char(out, '-');
        // Negating i128::MIN directly would overflow; shift by one first.
        let m: u128 = ((-(i + 1)) as u128) + 1;
        assert(m as nat == (-(i as int)) as nat);
        push_dec_u128(out, m);
        assert(out@ =~= old(out)@ + dec_int(i as int));
    } else {
        push_dec_u128(out, i as u128);
    }
}

/// The character for a single hexadecimal digit, in lower case.
pub open spec fn hex_char(d: int) -> char {
    if d < 10 {
        digit_char(d)
    } else if d == 10 {
        'a'
    } else if d == 11 {
        'b'
    } else if d == 12 {
        'c'
    } else if d == 13 {
        'd'
    } else if d == 14 {
        'e'
    } else if d == 15 {
        'f'
    } else {
        ' '
    }
}

/// How one character appears inside a JSON string: quote and backslash get a
/// backslash escape, control characters get their short escape where JSON has
/// one and a `\u00..` escape otherwise, and every other character stands as
/// itself.
pub open spec fn escape_char(c: char) -> Seq<char> {
    if c == '"' {
        seq!['\\', '"']
    } else if c == '\\' {
        seq!['\\', '\\']
    } else if c == '\u{8}' {
        seq!['\\', 'b']
    } else if c == '\t' {
        seq!['\\', 't']
    } else if c == '\n' {
        seq!['\\', 'n']
    } else if c == '\u{c}' {
        seq!['\\', 'f']
    } else if c == '\r' {
        seq!['\\', 'r']
    } else if (c as u32) < 0x20 {
        seq!['\\', 'u', '0', '0', hex_char((c as u32) as int / 16), hex_char((c as u32) as int % 16)]
    } else {
        seq![c]
    }
}

/// The escaped form of a whole character sequence.
pub open spec fn escape_chars(s: Seq<char>) -> Seq<char>
    decreases s.len(),
{
    if s.len() == 0 {
        Seq::empty()
    } else {
        escape_chars(s.drop_last()) + escape_char(s.last())
    }
}

/// The JSON form of a string: the escaped characters between double quotes.
pub open spec fn json_string(s: Seq<char>) -> Seq<char> {
    seq!['"'] + escape_chars(s) + seq!['"']
}

fn hex_to_char(d: u8) -> (c: char)
    requires
        d < 16,
    ensures
        c == hex_char(d as int),
{
    match d {
        0 => '0',
        1 => '1',
        2 => '2',
        3 => '3',
        4 => '4',
        5 => '5',
        6 => '6',
        7 => '7',
        8 => '8',
        9 => '9',
        10 => 'a',
        11 => 'b',
        12 => 'c',
        13 => 'd',
        14 => 'e',
        _ => 'f',
    }
}

fn push_escaped_char(out: &mut String, c: char)
    ensures
        final(out)@ == old(out)@ + escape_char(c),
{
    if c == '"' {
        push_char(out, '\\');
        push_char(out, '"');
    } else if c == '\\' {
        push_char(out, '\\');
        push_char(out, '\\');
    } else if c == '\u{8}' {
        push_char(out, '\\');
        push_char(out, 'b');
    } else if c == '\t' {
        push_char(out, '\\');
        push_char(out, 't');
    } else if c == '\n' {
        push_char(out, '\\');
        push_char(out, 'n');
    } else if c == '\u{c}' {
        push_char(out, '\\');
        push_char(out, 'f');
    } else if c == '\r' {
        push_char(out, '\\');
        push_char(out, 'r');
    } else if (c as u32) < 0x20 {
        let code = c as u32;
        push_char(out, '\\');
        push_char(out, 'u');
        push_char(out, '0');
        push_char(out, '0');
        let hi = hex_to_char((code / 16) as u8);
        push_char(out, hi);
        let lo = hex_to_char((code % 16) as u8);
        push_char(out, lo);
    } else {
        push_char(out, c);
    }
    assert(out@ =~= old(out)@ + escape_char(c));
}

/// Appends the JSON form of a string: its escaped characters between quotes.
pub fn push_json_string(out: &mut String, s: &str)
    ensures
        final(out)@ == old(out)@ + json_string(s@),
{
    push_char(out, '"');
    let n = s.unicode_len();
    let mut i: usize = 0;
    while i < n
        invariant
            i <= n,
            n == s@.len(),
            out@ == old(out)@ + seq!['"'] + escape_chars(s@.subrange(0, i as int)),
        decreases n - i,
    {
        let c = s.get_char(i);
        push_escaped_char(out, c);
        proof {
            let pre = s@.subrange(0, i as int + 1);
            assert(pre.drop_last() =~= s@.subrange(0, i as int));
            assert(pre.last() == s@[i as int]);
            assert(out@ =~= old(out)@ + seq!['"'] + escape_chars(pre));
        }
        i = i + 1;
    }
    assert(s@.subrange(0, n as int) =~= s@);
    push_char(out, '"');
    assert(out@ =~= old(out)@ + json_string(s@));
}

} // verus!
