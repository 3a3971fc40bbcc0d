//! Rendering of JSON text: string literals with their escapes and decimal
//! numbers.
//!
//! The payloads this crate sends are JSON objects. Their string values are
//! written with the escaping rules of RFC 8259: a quote or a backslash gets a
//! two-character escape, a control character gets its short escape where JSON
//! has one and a `\u00XX` escape otherwise, and every other character stands
//! for itself.

use vstd::prelude::*;

verus! {

/// The digit character for a value below ten.
pub open spec fn digit_char(d: int) -> char {
    if d == 0 {
        '0'
    } else if d == 1 {
        '1'
    } else if d == 2 {
        '2'
    } else if d == 3 {
        '3'
    } else if d == 4 {
        '4'
    } else if d == 5 {
        '5'
    } else if d == 6 {
        '6'
    } else if d == 7 {
        '7'
    } else if d == 8 {
        '8'
    } else {
        '9'
    }
}

/// The lower-case hexadecimal digit character for a value below sixteen.
pub open spec fn hex_char(d: int) -> char {
    if d < 10 {
        digit_char(d)
    } else if d == 10 {
        'a'
    } else if d == 11 {
        'b'
    } else if d == 12 {
        'c'
    } else if d == 13 {
        'd'
    } else if d == 14 {
        'e'
    } else {
        'f'
    }
}

/// How one character appears inside a JSON string literal.
pub open spec fn escape_char(c: char) -> Seq<char> {
    if c == '"' {
        seq!['\\', '"']
    } else if c == '\\' {
        seq!['\\', '\\']
    } else if c as u32 == 0x08 {
        seq!['\\', 'b']
    } else if c as u32 == 0x09 {
        seq!['\\', 't']
    } else if c as u32 == 0x0A {
        seq!['\\', 'n']
    } else if c as u32 == 0x0C {
        seq!['\\', 'f']
    } else if c as u32 == 0x0D {
        seq!['\\', 'r']
    } else if (c as u32) < 0x20 {
        seq!['\\', 'u', '0', '0', hex_char(((c as u32) as int) / 16), hex_char(((c as u32) as int) % 16)]
    } else {
        seq![c]
    }
}

/// The characters of a JSON string literal holding `s`, without the
/// surrounding quotes.
pub open spec fn escape_string(s: Seq<char>) -> Seq<char>
    decreases s.len(),
{
    if s.len() == 0 {
        Seq::empty()
    } else {
        escape_char(s[0]) + escape_string(s.drop_first())
    }
}

/// The JSON string literal holding `s`: quotes around the escaped characters.
pub open spec fn quote_string(s: Seq<char>) -> Seq<char> {
    seq!['"'] + escape_string(s) + seq!['"']
}

/// Escaping a string character by character from the left agrees with the
/// recursive definition of [`escape_string`].
pub proof fn lemma_escape_string_push(s: Seq<char>, c: char)
    ensures
        escape_string(s.push(c)) == escape_string(s) + escape_char(c),
    decreases s.len(),
{
    if s.len() == 0 {
        assert(s.push(c)[0] == c);
        assert(s.push(c).drop_first() =~= Seq::<char>::empty());
        assert(escape_string(s.push(c)) == escape_char(c) + escape_string(Seq::<char>::empty()));
        assert(escape_string(s.push(c)) =~= escape_string(s) + escape_char(c));
    } else {
        lemma_escape_string_push(s.drop_first(), c);
        assert(s.push(c)[0] == s[0]);
        assert(s.push(c).drop_first() =~= s.drop_first().push(c));
        assert(escape_string(s.push(c)) == escape_char(s[0]) + (escape_string(s.drop_first())
            + escape_char(c)));
        assert(escape_string(s.push(c)) =~= escape_string(s) + escape_char(c));
    }
}

/// Relies on `String::push` of std: it appends exactly the given character.
#[verifier::external_body]
pub(crate) fn push_char(s: &mut String, c: char)
    ensures
        final(s)@ == old(s)@.push(c),
{
    s.push(c);
}

/// The lower-case hexadecimal digit character for `d`.
fn hex_digit(d: u32) -> (r: char)
    requires
        d < 16,
    ensures
        r == hex_char(d as int),
{
    match d {
        0 => '0',
        1 => '1',
        2 => '2',
        3 => '3',
        4 => '4',
        5 => '5',
        6 => '6',
        7 => '7',
        8 => '8',
        9 => '9',
        10 => 'a',
        11 => 'b',
        12 => 'c',
        13 => 'd',
        14 => 'e',
        _ => 'f',
    }
}

/// Appends the JSON escape of one character to `out`.
fn push_escaped(out: &mut String, c: char)
    ensures
        final(out)@ == old(out)@ + escape_char(c),
{
    let u = c as u32;
    if c == '"' {
        push_char(out, '\\');
        push_char(out, '"');
        assert(out@ =~= old(out)@ + escape_char(c));
    } else if c == '\\' {
        push_char(out, '\\');
        push_char(out, '\\');
        assert(out@ =~= old(out)@ + escape_char(c));
    } else if u == 0x08 {
        push_char(out, '\\');
        push_char(out, 'b');
        assert(out@ =~= old(out)@ + escape_char(c));
    } else if u == 0x09 {
        push_char(out, '\\');
        push_char(out, 't');
        assert(out@ =~= old(out)@ + escape_char(c));
    } else if u == 0x0A {
        push_char(out, '\\');
        push_char(out, 'n');
        assert(out@ =~= old(out)@ + escape_char(c));
    } else if u == 0x0C {
        push_char(out, '\\');
        push_char(out, 'f');
        assert(out@ =~= old(out)@ + escape_char(c));
    } else if u == 0x0D {
        push_char(out, '\\');
        push_char(out, 'r');
        assert(out@ =~= old(out)@ + escape_char(c));
    } else if u < 0x20 {
        push_char(out, '\\');
        push_char(out, 'u');
        push_char(out, '0');
        push_char(out, '0');
        push_char(out, hex_digit(u / 16));
        push_char(out, hex_digit(u % 16));
        assert(out@ =~= old(out)@ + escape_char(c));
    } else {
        push_char(out, c);
        assert(out@ =~= old(out)@ + escape_char(c));
    }
}

/// The quoted, escaped JSON form of `s`.
pub fn quote_str(s: &str) -> (r: String)
    ensures
        r@ == quote_string(s@),
{
    let mut out = String::new();
    push_char(&mut out, '"');
    let n = s.unicode_len();
    let mut i: usize = 0;
    while i < n
        invariant
            n == s@.len(),
            i <= n,
            out@ == seq!['"'] + escape_string(s@.take(i as int)),
        decreases n - i,
    {
        let c = s.get_char(i);
        push_escaped(&mut out, c);
        proof {
            lemma_escape_string_push(s@.take(i as int), c);
            assert(s@.take(i + 1 as int) =~= s@.take(i as int).push(c));
            assert(out@ =~= seq!['"'] + escape_string(s@.take(i + 1 as int)));
        }
        i = i + 1;
    }
    push_char(&mut out, '"');
    proof {
        assert(s@.take(n as int) =~= s@);
        assert(out@ =~= quote_string(s@));
    }
    out
}

/// The decimal digits of `n`, most significant first.
pub open spec fn decimal_digits(n: nat) -> Seq<char>
    decreases n,
{
    if n < 10 {
        seq![digit_char(n as int)]
    } else {
        decimal_digits(n / 10).push(digit_char((n % 10) as int))
    }
}

/// The decimal digit character for `d`.
fn digit(d: u64) -> (r: char)
    requires
        d < 10,
    ensures
        r == digit_char(d as int),
{
    match d {
        0 => '0',
        1 => '1',
        2 => '2',
        3 => '3',
        4 => '4',
        5 => '5',
        6 => '6',
        7 => '7',
        8 => '8',
        _ => '9',
    }
}

/// The decimal form of `n`, without a sign and without leading zeros.
pub fn format_u64(n: u64) -> (r: String)
    ensures
        r@ == decimal_digits(n as nat),
    decreases n,
{
    if n < 10 {
        let mut out = String::new();
        push_char(&mut out, digit(n));
        proof {
            assert(out@ =~= decimal_digits(n as nat));
        }
        out
    } else {
        assert(n / 10 < n);
        let mut out = format_u64(n / 10);
        push_char(&mut out, digit(n % 10));
        out
    }
}

} // verus!
