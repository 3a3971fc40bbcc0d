//! Reading the failure body that the endpoint returns.
//!
//! When a call is rejected, the endpoint answers with a JSON object that
//! carries a human-readable `description` member. This module parses such a
//! body: the input must be one JSON object, possibly surrounded by
//! whitespace, holding a string-valued `description` member exactly once;
//! every other member is accepted and skipped, whatever its value. Any other
//! shape — a non-object, a malformed value, a missing, repeated or
//! non-string `description` — yields no description at all.

use vstd::prelude::*;

verus! {

/// How deeply containers may nest before a body is rejected as malformed.
pub const MAX_NESTING: u32 = 128;

/// JSON insignificant whitespace.
pub open spec fn is_ws(c: char) -> bool {
    c == ' ' || c == '\t' || c == '\n' || c == '\r'
}

/// A decimal digit.
pub open spec fn is_digit(c: char) -> bool {
    0x30 <= c as u32 && c as u32 <= 0x39
}

/// The first position at or after `i` that holds no whitespace.
pub open spec fn spec_skip_ws(s: Seq<char>, i: int) -> int
    decreases s.len() - i
        when 0 <= i <= s.len()
{
    if i < s.len() && is_ws(s[i]) {
        spec_skip_ws(s, i + 1)
    } else {
        i
    }
}

/// The value of one hexadecimal digit, or -1.
pub open spec fn hex_value(c: char) -> int {
    let u = c as u32;
    if 0x30 <= u && u <= 0x39 {
        u - 0x30
    } else if 0x41 <= u && u <= 0x46 {
        u - 0x41 + 10
    } else if 0x61 <= u && u <= 0x66 {
        u - 0x61 + 10
    } else {
        -1
    }
}

/// The value of the four hexadecimal digits at `i`, or -1 where the input
/// ends early or a character is no such digit.
pub open spec fn spec_hex4(s: Seq<char>, i: int) -> int {
    if i + 4 <= s.len() && hex_value(s[i]) >= 0 && hex_value(s[i + 1]) >= 0 && hex_value(
        s[i + 2],
    ) >= 0 && hex_value(s[i + 3]) >= 0 {
        ((hex_value(s[i]) * 16 + hex_value(s[i + 1])) * 16 + hex_value(s[i + 2])) * 16 + hex_value(
            s[i + 3],
        )
    } else {
        -1
    }
}

/// The character named by a short escape.
pub open spec fn unescape_short(e: char) -> char {
    if e == 'b' {
        '\u{0008}'
    } else if e == 'f' {
        '\u{000C}'
    } else if e == 'n' {
        '\n'
    } else if e == 'r' {
        '\r'
    } else if e == 't' {
        '\t'
    } else {
        e
    }
}

/// Whether `e` is a short escape name: the escapes of JSON other than `\u`.
pub open spec fn is_short_escape(e: char) -> bool {
    e == '"' || e == '\\' || e == '/' || e == 'b' || e == 'f' || e == 'n' || e == 'r' || e == 't'
}

/// Parses the rest of a JSON string literal from `i`, which stands right
/// after the opening quote: the decoded characters and the position after
/// the closing quote. `None` where the input ends early, holds a raw control
/// character, or holds a broken escape — including a `\u` escape that names
/// a lone surrogate.
pub open spec fn spec_string_rest(s: Seq<char>, i: int) -> Option<(Seq<char>, int)>
    decreases s.len() - i
        when 0 <= i <= s.len()
{
    if i >= s.len() {
        None
    } else {
        let c = s[i];
        if c == '"' {
            Some((Seq::empty(), i + 1))
        } else if c == '\\' {
            if i + 1 >= s.len() {
                None
            } else {
                let e = s[i + 1];
                if is_short_escape(e) {
                    match spec_string_rest(s, i + 2) {
                        None => None,
                        Some((rest, j)) => Some((seq![unescape_short(e)] + rest, j)),
                    }
                } else if e == 'u' {
                    let v = spec_hex4(s, i + 2);
                    if v < 0 {
                        None
                    } else if 0xD800 <= v && v < 0xDC00 {
                        if i + 7 < s.len() && s[i + 6] == '\\' && s[i + 7] == 'u' {
                            let w = spec_hex4(s, i + 8);
                            if 0xDC00 <= w && w < 0xE000 {
                                let code = 0x10000 + (v - 0xD800) * 0x400 + (w - 0xDC00);
                                match spec_string_rest(s, i + 12) {
                                    None => None,
                                    Some((rest, j)) => Some((seq![((code as u32) as char)] + rest, j)),
                                }
                            } else {
                                None
                            }
                        } else {
                            None
                        }
                    } else if 0xDC00 <= v && v < 0xE000 {
                        None
                    } else {
                        match spec_string_rest(s, i + 6) {
                            None => None,
                            Some((rest, j)) => Some((seq![((v as u32) as char)] + rest, j)),
                        }
                    }
                } else {
                    None
                }
            }
        } else if (c as u32) < 0x20 {
            None
        } else {
            match spec_string_rest(s, i + 1) {
                None => None,
                Some((rest, j)) => Some((seq![c] + rest, j)),
            }
        }
    }
}

/// The first position at or after `i` that holds no whitespace.
fn skip_ws(s: &str, i: usize, n: usize) -> (r: usize)
    requires
        n == s@.len(),
        i <= n,
    ensures
        r == spec_skip_ws(s@, i as int),
        i <= r <= n,
{
    let mut p = i;
    loop
        invariant
            n == s@.len(),
            i <= p <= n,
            spec_skip_ws(s@, i as int) == spec_skip_ws(s@, p as int),
        decreases n - p,
    {
        if p < n {
            let c = s.get_char(p);
            if c == ' ' || c == '\t' || c == '\n' || c == '\r' {
                p = p + 1;
                continue ;
            }
        }
        return p;
    }
}

/// The value of one hexadecimal digit.
fn hex_digit_value(c: char) -> (r: Option<u32>)
    ensures
        match r {
            Some(v) => hex_value(c) == v && v < 16,
            None => hex_value(c) == -1,
        },
{
    let u = c as u32;
    if 0x30 <= u && u <= 0x39 {
        Some(u - 0x30)
    } else if 0x41 <= u && u <= 0x46 {
        Some(u - 0x41 + 10)
    } else if 0x61 <= u && u <= 0x66 {
        Some(u - 0x61 + 10)
    } else {
        None
    }
}

/// The value of the four hexadecimal digits at `i`.
fn hex4(s: &str, i: usize, n: usize) -> (r: Option<u32>)
    requires
        n == s@.len(),
        i <= n,
    ensures
        match r {
            Some(v) => spec_hex4(s@, i as int) == v && v < 0x10000,
            None => spec_hex4(s@, i as int) == -1,
        },
{
    if n - i < 4 {
        return None;
    }
    let d0 = hex_digit_value(s.get_char(i));
    let d1 = hex_digit_value(s.get_char(i + 1));
    let d2 = hex_digit_value(s.get_char(i + 2));
    let d3 = hex_digit_value(s.get_char(i + 3));
    match (d0, d1, d2, d3) {
        (Some(v0), Some(v1), Some(v2), Some(v3)) => Some(((v0 * 16 + v1) * 16 + v2) * 16 + v3),
        _ => None,
    }
}

/// Relies on `char::from_u32` of std: the result is `Some` exactly for
/// Unicode scalar values, that is all values up to 0x10FFFF that are no
/// surrogate, and the returned character's code is the given value.
#[verifier::external_body]
fn char_from_u32(v: u32) -> (r: Option<char>)
    ensures
        r is Some <==> (v < 0xD800 || (0xE000 <= v && v <= 0x10FFFF)),
        match r {
            Some(c) => c as u32 == v,
            None => true,
        },
{
    char::from_u32(v)
}

/// Parses the rest of a JSON string literal from `i`, right after the
/// opening quote.
fn string_rest(s: &str, i: usize, n: usize) -> (r: Option<(String, usize)>)
    requires
        n == s@.len(),
        i <= n,
    ensures
        match r {
            Some(d) => spec_string_rest(s@, i as int) == Some((d.0@, d.1 as int)) && i < d.1 <= n,
            None => spec_string_rest(s@, i as int) is None,
        },
{
    let mut acc = String::new();
    let mut p = i;
    proof {
        match spec_string_rest(s@, i as int) {
            None => {
            },
            Some((rest, j)) => {
                assert(Seq::<char>::empty() + rest =~= rest);
            },
        }
    }
    loop
        invariant
            n == s@.len(),
            i <= p <= n,
            spec_string_rest(s@, i as int) == match spec_string_rest(s@, p as int) {
                None => None::<(Seq<char>, int)>,
                Some((rest, j)) => Some((acc@ + rest, j)),
            },
        decreases n - p,
    {
        if p >= n {
            return None;
        }
        let c = s.get_char(p);
        if c == '"' {
            proof {
                assert(acc@ + Seq::<char>::empty() =~= acc@);
            }
            return Some((acc, p + 1));
        } else if c == '\\' {
            if p + 1 >= n {
                return None;
            }
            let e = s.get_char(p + 1);
            if e == '"' || e == '\\' || e == '/' || e == 'b' || e == 'f' || e == 'n' || e == 'r'
                || e == 't' {
                let ghost acc0 = acc@;
                let u = unescape_short_x(e);
                push_decoded(&mut acc, u);
                proof {
                    lemma_acc_step(s@, i as int, p as int, p + 2, acc0, seq![unescape_short(e)]);
                }
                p = p + 2;
            } else if e == 'u' {
                match hex4(s, p + 2, n) {
                    None => {
                        return None;
                    },
                    Some(v) => {
                        if 0xD800 <= v && v < 0xDC00 {
                            if n - p > 7 && s.get_char(p + 6) == '\\' && s.get_char(p + 7) == 'u' {
                                match hex4(s, p + 8, n) {
                                    None => {
                                        return None;
                                    },
                                    Some(w) => {
                                        if 0xDC00 <= w && w < 0xE000 {
                                            let code: u32 = 0x10000 + (v - 0xD800) * 0x400 + (w
                                                - 0xDC00);
                                            let ghost acc0 = acc@;
                                            match char_from_u32(code) {
                                                Some(u) => {
                                                    push_decoded(&mut acc, u);
                                                    proof {
                                                        vstd::utf8::char_u32_cast(u, code);
                                                        lemma_acc_step(
                                                            s@,
                                                            i as int,
                                                            p as int,
                                                            p + 12,
                                                            acc0,
                                                            seq![u],
                                                        );
                                                    }
                                                    p = p + 12;
                                                },
                                                None => {
                                                    proof {
                                                        assert(false);
                                                    }
                                                },
                                            }
                                        } else {
                                            return None;
                                        }
                                    },
                                }
                            } else {
                                return None;
                            }
                        } else if 0xDC00 <= v && v < 0xE000 {
                            return None;
                        } else {
                            let ghost acc0 = acc@;
                            match char_from_u32(v) {
                                Some(u) => {
                                    push_decoded(&mut acc, u);
                                    proof {
                                        vstd::utf8::char_u32_cast(u, v);
                                        lemma_acc_step(
                                            s@,
                                            i as int,
                                            p as int,
                                            p + 6,
                                            acc0,
                                            seq![u],
                                        );
                                    }
                                    p = p + 6;
                                },
                                None => {
                                    proof {
                                        assert(false);
                                    }
                                },
                            }
                        }
                    },
                }
            } else {
                return None;
            }
        } else if (c as u32) < 0x20 {
            return None;
        } else {
            let ghost acc0 = acc@;
            push_decoded(&mut acc, c);
            proof {
                lemma_acc_step(s@, i as int, p as int, p + 1, acc0, seq![c]);
            }
            p = p + 1;
        }
    }
}

/// The character named by a short escape.
fn unescape_short_x(e: char) -> (r: char)
    ensures
        r == unescape_short(e),
{
    if e == 'b' {
        '\u{0008}'
    } else if e == 'f' {
        '\u{000C}'
    } else if e == 'n' {
        '\n'
    } else if e == 'r' {
        '\r'
    } else if e == 't' {
        '\t'
    } else {
        e
    }
}

/// Appends one decoded character to the accumulator.
fn push_decoded(acc: &mut String, c: char)
    ensures
        final(acc)@ == old(acc)@ + seq![c],
{
    crate::json::push_char(acc, c);
    proof {
        assert(acc@ =~= old(acc)@ + seq![c]);
    }
}

/// One decoding step keeps the accumulator relation of [`string_rest`]: if
/// the string from `p` begins with the already-decoded characters `d` and
/// goes on at `q`, the relation carries from `p` to `q`.
proof fn lemma_acc_step(s: Seq<char>, i: int, p: int, q: int, acc0: Seq<char>, d: Seq<char>)
    requires
        spec_string_rest(s, i) == match spec_string_rest(s, p) {
            None => None::<(Seq<char>, int)>,
            Some((rest, j)) => Some((acc0 + rest, j)),
        },
        spec_string_rest(s, p) == match spec_string_rest(s, q) {
            None => None::<(Seq<char>, int)>,
            Some((rest, j)) => Some((d + rest, j)),
        },
    ensures
        spec_string_rest(s, i) == match spec_string_rest(s, q) {
            None => None::<(Seq<char>, int)>,
            Some((rest, j)) => Some((acc0 + d + rest, j)),
        },
{
    match spec_string_rest(s, q) {
        None => {
        },
        Some((rest, j)) => {
            assert(acc0 + (d + rest) =~= acc0 + d + rest);
        },
    }
}

/// The first position at or after `i` that holds no decimal digit.
pub open spec fn spec_skip_digits(s: Seq<char>, i: int) -> int
    decreases s.len() - i
        when 0 <= i <= s.len()
{
    if i < s.len() && is_digit(s[i]) {
        spec_skip_digits(s, i + 1)
    } else {
        i
    }
}

/// The position after the JSON number at `i`, or `None` where the text at
/// `i` begins no well-formed number.
pub open spec fn spec_skip_number(s: Seq<char>, i: int) -> Option<int> {
    if i >= s.len() {
        None
    } else {
        let i1 = if s[i] == '-' {
            i + 1
        } else {
            i
        };
        if i1 >= s.len() || !is_digit(s[i1]) {
            None
        } else {
            let i2 = if s[i1] == '0' {
                i1 + 1
            } else {
                spec_skip_digits(s, i1)
            };
            let i3 = if i2 < s.len() && s[i2] == '.' {
                if i2 + 1 < s.len() && is_digit(s[i2 + 1]) {
                    spec_skip_digits(s, i2 + 1)
                } else {
                    -1
                }
            } else {
                i2
            };
            if i3 < 0 {
                None
            } else {
                let i4 = if i3 < s.len() && (s[i3] == 'e' || s[i3] == 'E') {
                    let ie = if i3 + 1 < s.len() && (s[i3 + 1] == '+' || s[i3 + 1] == '-') {
                        i3 + 2
                    } else {
                        i3 + 1
                    };
                    if ie < s.len() && is_digit(s[ie]) {
                        spec_skip_digits(s, ie)
                    } else {
                        -1
                    }
                } else {
                    i3
                };
                if i4 < 0 {
                    None
                } else {
                    Some(i4)
                }
            }
        }
    }
}

/// The position after the JSON value at `i`, or `None` where the text at
/// `i` begins no well-formed value or nests containers deeper than `depth`.
pub open spec fn spec_skip_value(s: Seq<char>, i: int, depth: int) -> Option<int>
    decreases s.len() - i, 0int,
        when 0 <= i <= s.len()
{
    if i >= s.len() {
        None
    } else {
        let c = s[i];
        if c == '{' {
            if depth <= 0 {
                None
            } else {
                match spec_members(s, i + 1, true, false, None, depth - 1) {
                    None => None,
                    Some((_f, j)) => Some(j),
                }
            }
        } else if c == '[' {
            if depth <= 0 {
                None
            } else {
                spec_elems(s, i + 1, true, depth - 1)
            }
        } else if c == '"' {
            match spec_string_rest(s, i + 1) {
                None => None,
                Some((_d, j)) => Some(j),
            }
        } else if c == 't' {
            if i + 4 <= s.len() && s[i + 1] == 'r' && s[i + 2] == 'u' && s[i + 3] == 'e' {
                Some(i + 4)
            } else {
                None
            }
        } else if c == 'f' {
            if i + 5 <= s.len() && s[i + 1] == 'a' && s[i + 2] == 'l' && s[i + 3] == 's' && s[i
                + 4] == 'e' {
                Some(i + 5)
            } else {
                None
            }
        } else if c == 'n' {
            if i + 4 <= s.len() && s[i + 1] == 'u' && s[i + 2] == 'l' && s[i + 3] == 'l' {
                Some(i + 4)
            } else {
                None
            }
        } else if c == '-' || is_digit(c) {
            spec_skip_number(s, i)
        } else {
            None
        }
    }
}

/// Parses the members of an object from `i`, which stands right after the
/// opening brace or after a comma. With `capture` set, a string value under
/// the key `description` is collected into `found`; a repeated or
/// non-string `description` makes the object malformed. The result carries
/// what was collected and the position after the closing brace.
pub open spec fn spec_members(
    s: Seq<char>,
    i: int,
    first: bool,
    capture: bool,
    found: Option<Seq<char>>,
    depth: int,
) -> Option<(Option<Seq<char>>, int)>
    decreases s.len() - i, 2int,
        when 0 <= i <= s.len()
{
    let i1 = spec_skip_ws(s, i);
    if i1 < i || i1 >= s.len() {
        None
    } else if first && s[i1] == '}' {
        Some((found, i1 + 1))
    } else if s[i1] != '"' {
        None
    } else {
        match spec_string_rest(s, i1 + 1) {
            None => None,
            Some((key, j)) => {
                if j <= i1 + 1 || j > s.len() {
                    None
                } else {
                    let j1 = spec_skip_ws(s, j);
                    if j1 < j || j1 >= s.len() || s[j1] != ':' {
                        None
                    } else {
                        let j2 = spec_skip_ws(s, j1 + 1);
                        if j2 < j1 + 1 || j2 > s.len() {
                            None
                        } else if capture && key == "description"@ {
                            if found is Some {
                                None
                            } else if j2 >= s.len() || s[j2] != '"' {
                                None
                            } else {
                                match spec_string_rest(s, j2 + 1) {
                                    None => None,
                                    Some((d, j3)) => {
                                        if j3 <= j2 + 1 || j3 > s.len() {
                                            None
                                        } else {
                                            spec_members_tail(s, j3, capture, Some(d), depth)
                                        }
                                    },
                                }
                            }
                        } else {
                            match spec_skip_value(s, j2, depth) {
                                None => None,
                                Some(j3) => {
                                    if j3 <= j2 || j3 > s.len() {
                                        None
                                    } else {
                                        spec_members_tail(s, j3, capture, found, depth)
                                    }
                                },
                            }
                        }
                    }
                }
            },
        }
    }
}

/// After one member: either the object closes, or a comma starts the next
/// member.
pub open spec fn spec_members_tail(
    s: Seq<char>,
    i: int,
    capture: bool,
    found: Option<Seq<char>>,
    depth: int,
) -> Option<(Option<Seq<char>>, int)>
    decreases s.len() - i, 1int,
        when 0 <= i <= s.len()
{
    let i1 = spec_skip_ws(s, i);
    if i1 < i || i1 >= s.len() {
        None
    } else if s[i1] == '}' {
        Some((found, i1 + 1))
    } else if s[i1] == ',' {
        spec_members(s, i1 + 1, false, capture, found, depth)
    } else {
        None
    }
}

/// Parses the elements of an array from `i`, right after the opening
/// bracket or after a comma; the result is the position after the closing
/// bracket.
pub open spec fn spec_elems(s: Seq<char>, i: int, first: bool, depth: int) -> Option<int>
    decreases s.len() - i, 1int,
        when 0 <= i <= s.len()
{
    let i1 = spec_skip_ws(s, i);
    if i1 < i || i1 >= s.len() {
        None
    } else if first && s[i1] == ']' {
        Some(i1 + 1)
    } else {
        match spec_skip_value(s, i1, depth) {
            None => None,
            Some(j) => {
                if j <= i1 || j > s.len() {
                    None
                } else {
                    let j1 = spec_skip_ws(s, j);
                    if j1 < j || j1 >= s.len() {
                        None
                    } else if s[j1] == ']' {
                        Some(j1 + 1)
                    } else if s[j1] == ',' {
                        spec_elems(s, j1 + 1, false, depth)
                    } else {
                        None
                    }
                }
            },
        }
    }
}

/// The description in a failure body: the input must be one JSON object,
/// possibly surrounded by whitespace, with a string-valued `description`
/// member exactly once.
pub open spec fn spec_error_description(s: Seq<char>) -> Option<Seq<char>> {
    let i = spec_skip_ws(s, 0);
    if 0 <= i && i < s.len() && s[i] == '{' {
        match spec_members(s, i + 1, true, true, None, MAX_NESTING - 1) {
            None => None,
            Some((found, j)) => {
                let k = spec_skip_ws(s, j);
                if k == s.len() {
                    found
                } else {
                    None
                }
            },
        }
    } else {
        None
    }
}

/// The view of a possibly missing owned string.
pub open spec fn opt_str_view(o: Option<String>) -> Option<Seq<char>> {
    match o {
        None => None,
        Some(d) => Some(d@),
    }
}

/// The first position at or after `i` that holds no decimal digit.
fn skip_digits(s: &str, i: usize, n: usize) -> (r: usize)
    requires
        n == s@.len(),
        i <= n,
    ensures
        r == spec_skip_digits(s@, i as int),
        i <= r <= n,
        (i < n && is_digit(s@[i as int])) ==> r > i,
{
    let mut p = i;
    loop
        invariant
            n == s@.len(),
            i <= p <= n,
            spec_skip_digits(s@, i as int) == spec_skip_digits(s@, p as int),
            p > i || p == i,
            (p > i) ==> (i < n && is_digit(s@[i as int])),
        decreases n - p,
    {
        if p < n {
            let c = s.get_char(p);
            let u = c as u32;
            if 0x30 <= u && u <= 0x39 {
                p = p + 1;
                continue ;
            }
        }
        return p;
    }
}

/// The position after the JSON number at `i`.
fn skip_number(s: &str, i: usize, n: usize) -> (r: Option<usize>)
    requires
        n == s@.len(),
        i < n,
    ensures
        match r {
            Some(j) => spec_skip_number(s@, i as int) == Some(j as int) && i < j <= n,
            None => spec_skip_number(s@, i as int) is None,
        },
{
    let i1 = if s.get_char(i) == '-' {
        i + 1
    } else {
        i
    };
    if i1 >= n {
        return None;
    }
    let c1 = s.get_char(i1);
    if !(0x30 <= c1 as u32 && c1 as u32 <= 0x39) {
        return None;
    }
    let i2 = if c1 == '0' {
        i1 + 1
    } else {
        skip_digits(s, i1, n)
    };
    let mut i3 = i2;
    if i2 < n && s.get_char(i2) == '.' {
        if i2 + 1 < n && {
            let d = s.get_char(i2 + 1);
            0x30 <= d as u32 && d as u32 <= 0x39
        } {
            i3 = skip_digits(s, i2 + 1, n);
        } else {
            return None;
        }
    }
    let mut i4 = i3;
    if i3 < n {
        let e = s.get_char(i3);
        if e == 'e' || e == 'E' {
            let ie = if i3 + 1 < n && {
                let g = s.get_char(i3 + 1);
                g == '+' || g == '-'
            } {
                i3 + 2
            } else {
                i3 + 1
            };
            if ie < n && {
                let d = s.get_char(ie);
                0x30 <= d as u32 && d as u32 <= 0x39
            } {
                i4 = skip_digits(s, ie, n);
            } else {
                return None;
            }
        }
    }
    Some(i4)
}

/// Whether two strings hold the same characters.
fn str_eq(a: &str, b: &str) -> (r: bool)
    ensures
        r == (a@ == b@),
{
    let na = a.unicode_len();
    let nb = b.unicode_len();
    if na != nb {
        return false;
    }
    let mut i: usize = 0;
    while i < na
        invariant
            na == a@.len(),
            nb == b@.len(),
            na == nb,
            i <= na,
            forall|k: int| 0 <= k < i ==> a@[k] == b@[k],
        decreases na - i,
    {
        if a.get_char(i) != b.get_char(i) {
            return false;
        }
        i = i + 1;
    }
    proof {
        assert(a@ =~= b@);
    }
    true
}

/// The position after the JSON value at `i`.
fn skip_value(s: &str, i: usize, n: usize, depth: u32) -> (r: Option<usize>)
    requires
        n == s@.len(),
        i <= n,
    ensures
        match r {
            Some(j) => spec_skip_value(s@, i as int, depth as int) == Some(j as int) && i < j
                <= n,
            None => spec_skip_value(s@, i as int, depth as int) is None,
        },
    decreases n - i, 0int,
{
    if i >= n {
        return None;
    }
    let c = s.get_char(i);
    if c == '{' {
        if depth == 0 {
            None
        } else {
            match members(s, i + 1, n, true, false, None, depth - 1) {
                None => None,
                Some(fj) => Some(fj.1),
            }
        }
    } else if c == '[' {
        if depth == 0 {
            None
        } else {
            elems(s, i + 1, n, true, depth - 1)
        }
    } else if c == '"' {
        match string_rest(s, i + 1, n) {
            None => None,
            Some(dj) => Some(dj.1),
        }
    } else if c == 't' {
        if n - i >= 4 && s.get_char(i + 1) == 'r' && s.get_char(i + 2) == 'u' && s.get_char(i + 3)
            == 'e' {
            Some(i + 4)
        } else {
            None
        }
    } else if c == 'f' {
        if n - i >= 5 && s.get_char(i + 1) == 'a' && s.get_char(i + 2) == 'l' && s.get_char(i + 3)
            == 's' && s.get_char(i + 4) == 'e' {
            Some(i + 5)
        } else {
            None
        }
    } else if c == 'n' {
        if n - i >= 4 && s.get_char(i + 1) == 'u' && s.get_char(i + 2) == 'l' && s.get_char(i + 3)
            == 'l' {
            Some(i + 4)
        } else {
            None
        }
    } else if c == '-' || (0x30 <= c as u32 && c as u32 <= 0x39) {
        skip_number(s, i, n)
    } else {
        None
    }
}

/// Parses the members of an object from `i`, right after the opening brace
/// or after a comma.
fn members(
    s: &str,
    i: usize,
    n: usize,
    first: bool,
    capture: bool,
    found: Option<String>,
    depth: u32,
) -> (r: Option<(Option<String>, usize)>)
    requires
        n == s@.len(),
        i <= n,
    ensures
        match r {
            Some(fj) => spec_members(
                s@,
                i as int,
                first,
                capture,
                opt_str_view(found),
                depth as int,
            ) == Some((opt_str_view(fj.0), fj.1 as int)) && i < fj.1 <= n,
            None => spec_members(
                s@,
                i as int,
                first,
                capture,
                opt_str_view(found),
                depth as int,
            ) is None,
        },
    decreases n - i, 2int,
{
    let i1 = skip_ws(s, i, n);
    if i1 >= n {
        return None;
    }
    let c = s.get_char(i1);
    if first && c == '}' {
        return Some((found, i1 + 1));
    }
    if c != '"' {
        return None;
    }
    match string_rest(s, i1 + 1, n) {
        None => None,
        Some(kj) => {
            let key = kj.0;
            let j = kj.1;
            let j1 = skip_ws(s, j, n);
            if j1 >= n {
                return None;
            }
            if s.get_char(j1) != ':' {
                return None;
            }
            let j2 = skip_ws(s, j1 + 1, n);
            if capture && str_eq(key.as_str(), "description") {
                if found.is_some() {
                    return None;
                }
                if j2 >= n {
                    return None;
                }
                if s.get_char(j2) != '"' {
                    return None;
                }
                match string_rest(s, j2 + 1, n) {
                    None => None,
                    Some(dj) => members_tail(s, dj.1, n, capture, Some(dj.0), depth),
                }
            } else {
                match skip_value(s, j2, n, depth) {
                    None => None,
                    Some(j3) => members_tail(s, j3, n, capture, found, depth),
                }
            }
        },
    }
}

/// After one member: either the object closes, or a comma starts the next
/// member.
fn members_tail(
    s: &str,
    i: usize,
    n: usize,
    capture: bool,
    found: Option<String>,
    depth: u32,
) -> (r: Option<(Option<String>, usize)>)
    requires
        n == s@.len(),
        i <= n,
    ensures
        match r {
            Some(fj) => spec_members_tail(
                s@,
                i as int,
                capture,
                opt_str_view(found),
                depth as int,
            ) == Some((opt_str_view(fj.0), fj.1 as int)) && i < fj.1 <= n,
            None => spec_members_tail(
                s@,
                i as int,
                capture,
                opt_str_view(found),
                depth as int,
            ) is None,
        },
    decreases n - i, 1int,
{
    let i1 = skip_ws(s, i, n);
    if i1 >= n {
        return None;
    }
    let c = s.get_char(i1);
    if c == '}' {
        Some((found, i1 + 1))
    } else if c == ',' {
        members(s, i1 + 1, n, false, capture, found, depth)
    } else {
        None
    }
}

/// Parses the elements of an array from `i`, right after the opening
/// bracket or after a comma.
fn elems(s: &str, i: usize, n: usize, first: bool, depth: u32) -> (r: Option<usize>)
    requires
        n == s@.len(),
        i <= n,
    ensures
        match r {
            Some(j) => spec_elems(s@, i as int, first, depth as int) == Some(j as int) && i < j
                <= n,
            None => spec_elems(s@, i as int, first, depth as int) is None,
        },
    decreases n - i, 1int,
{
    let i1 = skip_ws(s, i, n);
    if i1 >= n {
        return None;
    }
    if first && s.get_char(i1) == ']' {
        return Some(i1 + 1);
    }
    match skip_value(s, i1, n, depth) {
        None => None,
        Some(j) => {
            let j1 = skip_ws(s, j, n);
            if j1 >= n {
                return None;
            }
            let c = s.get_char(j1);
            if c == ']' {
                Some(j1 + 1)
            } else if c == ',' {
                elems(s, j1 + 1, n, false, depth)
            } else {
                None
            }
        },
    }
}

/// The description in a failure body, or `None` where the body has no such
/// shape.
pub fn error_description(body: &str) -> (r: Option<String>)
    ensures
        opt_str_view(r) == spec_error_description(body@),
{
    let n = body.unicode_len();
    let i = skip_ws(body, 0, n);
    if i >= n {
        return None;
    }
    if body.get_char(i) != '{' {
        return None;
    }
    match members(body, i + 1, n, true, true, None, MAX_NESTING - 1) {
        None => None,
        Some(fj) => {
            let k = skip_ws(body, fj.1, n);
            if k == n {
                fj.0
            } else {
                None
            }
        },
    }
}

} // verus!
