//! Text helpers: JSON string literals and decimal numbers.

use vstd::prelude::*;
use vstd::string::StringSliceAdditionalSpecFns;
use vstd::utf8::encode_utf8_decode_utf8;

verus! {

/// `String::push` appends one character to the end of the string.
pub assume_specification[ String::push ](s: &mut String, c: char)
    ensures
        final(s)@ == old(s)@.push(c),
;

/// The lower-case hexadecimal digit for a value below sixteen.
pub open spec fn hex_digit(n: int) -> char {
    if n == 0 { '0' } else if n == 1 { '1' } else if n == 2 { '2' } else if n == 3 { '3' }
    else if n == 4 { '4' } else if n == 5 { '5' } else if n == 6 { '6' } else if n == 7 { '7' }
    else if n == 8 { '8' } else if n == 9 { '9' } else if n == 10 { 'a' } else if n == 11 { 'b' }
    else if n == 12 { 'c' } else if n == 13 { 'd' } else if n == 14 { 'e' } else { 'f' }
}

/// How one character is written inside a JSON string literal.
pub open spec fn escape_char(c: char) -> Seq<char> {
    if c == '"' {
        seq!['\\', '"']
    } else if c == '\\' {
        seq!['\\', '\\']
    } else if c == '\n' {
        seq!['\\', 'n']
    } else if c == '\r' {
        seq!['\\', 'r']
    } else if c == '\t' {
        seq!['\\', 't']
    } else if c == '\u{8}' {
        seq!['\\', 'b']
    } else if c == '\u{c}' {
        seq!['\\', 'f']
    } else if (c as u32) < 0x20 {
        seq!['\\', 'u', '0', '0', hex_digit((c as u32) as int / 16), hex_digit((c as u32) as int % 16)]
    } else {
        seq![c]
    }
}

/// The characters of `s`, each written as inside a JSON string literal.
pub open spec fn escaped(s: Seq<char>) -> Seq<char>
    decreases s.len(),
{
    if s.len() == 0 {
        Seq::empty()
    } else {
        escaped(s.drop_last()) + escape_char(s.last())
    }
}

/// Whether every character of `s` is written as itself inside a JSON string
/// literal.
pub open spec fn is_plain(s: Seq<char>) -> bool {
    forall|i: int| 0 <= i < s.len() ==> escape_char(#[trigger] s[i]) == seq![s[i]]
}

/// A text of plain characters is written as it stands.
pub proof fn lemma_escaped_plain(s: Seq<char>)
    requires
        is_plain(s),
    ensures
        escaped(s) == s,
    decreases s.len(),
{
    if s.len() > 0 {
        lemma_escaped_plain(s.drop_last());
        assert(escaped(s.drop_last()) + seq![s.last()] =~= s);
    }
}

/// `s` as a JSON string literal: escaped, between double quotes.
pub open spec fn quoted(s: Seq<char>) -> Seq<char> {
    seq!['"'] + escaped(s) + seq!['"']
}

fn hex_digit_of(n: u32) -> (c: char)
    requires
        n < 16,
    ensures
        c == hex_digit(n as int),
{
    if n == 0 { '0' } else if n == 1 { '1' } else if n == 2 { '2' } else if n == 3 { '3' }
    else if n == 4 { '4' } else if n == 5 { '5' } else if n == 6 { '6' } else if n == 7 { '7' }
    else if n == 8 { '8' } else if n == 9 { '9' } else if n == 10 { 'a' } else if n == 11 { 'b' }
    else if n == 12 { 'c' } else if n == 13 { 'd' } else if n == 14 { 'e' } else { 'f' }
}

/// Appends `c` to `out` as it is written inside a JSON string literal.
fn push_escaped(out: &mut String, c: char)
    ensures
        final(out)@ == old(out)@ + escape_char(c),
{
    if c == '"' {
        out.push('\\');
        out.push('"');
    } else if c == '\\' {
        out.push('\\');
        out.push('\\');
    } else if c == '\n' {
        out.push('\\');
        out.push('n');
    } else if c == '\r' {
        out.push('\\');
        out.push('r');
    } else if c == '\t' {
        out.push('\\');
        out.push('t');
    } else if c == '\u{8}' {
        out.push('\\');
        out.push('b');
    } else if c == '\u{c}' {
        out.push('\\');
        out.push('f');
    } else if (c as u32) < 0x20 {
        let code: u32 = c as u32;
        out.push('\\');
        out.push('u');
        out.push('0');
        out.push('0');
        out.push(hex_digit_of(code / 16));
        out.push(hex_digit_of(code % 16));
    } else {
        out.push(c);
    }
    assert(out@ =~= old(out)@ + escape_char(c));
}

/// Appends `s` to `out` as a JSON string literal.
pub fn push_quoted(out: &mut String, s: &str)
    ensures
        final(out)@ == old(out)@ + quoted(s@),
{
    out.push('"');
    let ghost start = out@;
    for c in it: s.chars()
        invariant
            out@ == start + escaped(it.seq().take(it.index() as int)),
            it.seq() == s@,
    {
        let ghost before = it.seq().take(it.index() as int);
        let ghost after = it.seq().take(it.index() + 1);
        assert(after.drop_last() =~= before);
        assert(after.last() == c);
        push_escaped(out, c);
    }
    assert(s@.take(s@.len() as int) =~= s@);
    out.push('"');
    assert(out@ =~= old(out)@ + quoted(s@));
}

/// The decimal digit for a value below ten.
pub open spec fn digit_char(n: int) -> char {
    if n == 0 { '0' } else if n == 1 { '1' } else if n == 2 { '2' } else if n == 3 { '3' }
    else if n == 4 { '4' } else if n == 5 { '5' } else if n == 6 { '6' } else if n == 7 { '7' }
    else if n == 8 { '8' } else { '9' }
}

/// `n` in decimal, without a sign or leading zeros.
pub open spec fn decimal(n: nat) -> Seq<char>
    decreases n,
{
    if n < 10 {
        seq![digit_char(n as int)]
    } else {
        decimal(n / 10).push(digit_char((n % 10) as int))
    }
}

fn digit_of(n: u64) -> (c: char)
    requires
        n < 10,
    ensures
        c == digit_char(n as int),
{
    if n == 0 { '0' } else if n == 1 { '1' } else if n == 2 { '2' } else if n == 3 { '3' }
    else if n == 4 { '4' } else if n == 5 { '5' } else if n == 6 { '6' } else if n == 7 { '7' }
    else if n == 8 { '8' } else { '9' }
}

/// Appends `n` to `out` in decimal.
pub fn push_decimal(out: &mut String, n: u64)
    ensures
        final(out)@ == old(out)@ + decimal(n as nat),
    decreases n,
{
    if n >= 10 {
        push_decimal(out, n / 10);
    }
    out.push(digit_of(n % 10));
    assert(out@ =~= old(out)@ + decimal(n as nat));
}

/// Whether two strings hold the same characters. The strings are compared
/// byte by byte: two texts are the same exactly when their encodings are.
pub fn same_text(a: &str, b: &str) -> (same: bool)
    ensures
        same == (a@ == b@),
{
    let left = a.as_bytes();
    let right = b.as_bytes();
    if left.len() != right.len() {
        return false;
    }
    let mut i: usize = 0;
    while i < left.len()
        invariant
            i <= left.len(),
            left.len() == right.len(),
            left@ == a.spec_bytes(),
            right@ == b.spec_bytes(),
            forall|j: int| 0 <= j < i ==> left@[j] == right@[j],
        decreases left.len() - i,
    {
        if left[i] != right[i] {
            return false;
        }
        i += 1;
    }
    proof {
        assert(left@ =~= right@);
        encode_utf8_decode_utf8(a@);
        encode_utf8_decode_utf8(b@);
    }
    true
}

} // verus!
