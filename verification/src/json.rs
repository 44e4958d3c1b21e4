use vstd::prelude::*;
use crate::text::{int_decimal, join, push_char};

verus! {

broadcast use vstd::string::group_string_axioms;

/// Lowercase hexadecimal digit of `d` (`0 <= d < 16`).
pub open spec fn hex_digit(d: int) -> char {
    if d < 10 {
        ((48 + d) as u32) as char
    } else {
        ((87 + d) as u32) as char
    }
}

/// How a JSON string writes one character: quote and backslash escaped,
/// control characters below U+0020 as `\b \t \n \f \r` or `\u00XX`, every
/// other character as itself.
pub open spec fn json_escape_char(c: char) -> Seq<char> {
    if c == '"' {
        seq!['\\', '"']
    } else if c == '\\' {
        seq!['\\', '\\']
    } else if c == '\u{8}' {
        seq!['\\', 'b']
    } else if c == '\t' {
        seq!['\\', 't']
    } else if c == '\n' {
        seq!['\\', 'n']
    } else if c == '\u{c}' {
        seq!['\\', 'f']
    } else if c == '\r' {
        seq!['\\', 'r']
    } else if (c as u32) < 32 {
        seq!['\\', 'u', '0', '0', hex_digit((c as u32) as int / 16), hex_digit((c as u32) as int % 16)]
    } else {
        seq![c]
    }
}

/// The escaped body of a JSON string.
pub open spec fn json_escape(s: Seq<char>) -> Seq<char>
    decreases s.len(),
{
    if s.len() == 0 {
        seq![]
    } else {
        json_escape(s.drop_last()) + json_escape_char(s.last())
    }
}

/// A JSON string literal for `s`.
pub open spec fn json_string(s: Seq<char>) -> Seq<char> {
    seq!['"'] + json_escape(s) + seq!['"']
}

fn hex(d: u32) -> (c: char)
    requires
        d < 16,
    ensures
        c == hex_digit(d as int),
{
    if d < 10 {
        let b: u8 = (48 + d) as u8;
        b as char
    } else {
        let b: u8 = (87 + d) as u8;
        b as char
    }
}

fn push_escaped_char(out: &mut String, c: char)
    ensures
        final(out)@ == old(out)@ + json_escape_char(c),
{
    let ghost start = out@;
    if c == '"' {
        push_char(out, '\\');
        push_char(out, '"');
    } else if c == '\\' {
        push_char(out, '\\');
        push_char(out, '\\');
    } else if c == '\u{8}' {
        push_char(out, '\\');
        push_char(out, 'b');
    } else if c == '\t' {
        push_char(out, '\\');
        push_char(out, 't');
    } else if c == '\n' {
        push_char(out, '\\');
        push_char(out, 'n');
    } else if c == '\u{c}' {
        push_char(out, '\\');
        push_char(out, 'f');
    } else if c == '\r' {
        push_char(out, '\\');
        push_char(out, 'r');
    } else if (c as u32) < 32 {
        let v = c as u32;
        push_char(out, '\\');
        push_char(out, 'u');
        push_char(out, '0');
        push_char(out, '0');
        push_char(out, hex(v / 16));
        push_char(out, hex(v % 16));
    } else {
        push_char(out, c);
    }
    assert(out@ =~= start + json_escape_char(c));
}

/// A member name that JSON writes without escapes: ASCII letters and `_`.
pub open spec fn plain_key(k: Seq<char>) -> bool {
    forall|i: int|
        0 <= i < k.len() ==> ('a' <= #[trigger] k[i] <= 'z' || 'A' <= k[i] <= 'Z' || k[i] == '_')
}

/// The text of a JSON string literal or of a JSON integer.
pub open spec fn scalar_text(v: Seq<char>) -> bool {
    (exists|s: Seq<char>| #[trigger] json_string(s) == v) || (exists|i: int|
        #[trigger] int_decimal(i) == v)
}

/// One member of a JSON object: the quoted name, a colon, the value's text.
pub open spec fn member_text(m: (Seq<char>, Seq<char>)) -> Seq<char> {
    seq!['"'] + m.0 + seq!['"', ':'] + m.1
}

/// A JSON object with the members `ms`, in order, without whitespace.
pub open spec fn object_text(ms: Seq<(Seq<char>, Seq<char>)>) -> Seq<char> {
    seq!['{'] + join(ms.map_values(|m: (Seq<char>, Seq<char>)| member_text(m)), seq![',']) + seq![
        '}',
    ]
}

/// `text` is a JSON object whose members have plain names and string or
/// integer values; such a text is valid JSON.
pub open spec fn flat_object(text: Seq<char>) -> bool {
    exists|ms: Seq<(Seq<char>, Seq<char>)>|
        #[trigger] object_text(ms) == text && forall|i: int|
            0 <= i < ms.len() ==> plain_key(#[trigger] ms[i].0) && scalar_text(ms[i].1)
}

/// No reading of `text` as the members of a JSON object has a member named
/// `key`.
pub open spec fn lacks_member(text: Seq<char>, key: Seq<char>) -> bool {
    forall|ms: Seq<(Seq<char>, Seq<char>)>|
        #[trigger] object_text(ms) == text ==> forall|i: int|
            0 <= i < ms.len() ==> (#[trigger] ms[i]).0 != key
}

/// The text of a JSON object of three members.
pub proof fn object_text_of_three(a: (Seq<char>, Seq<char>), b: (Seq<char>, Seq<char>), c: (
    Seq<char>,
    Seq<char>,
))
    ensures
        object_text(seq![a, b, c]) == seq!['{'] + member_text(a) + seq![','] + member_text(b)
            + seq![','] + member_text(c) + seq!['}'],
{
    let sep = seq![','];
    let parts = seq![a, b, c].map_values(|m: (Seq<char>, Seq<char>)| member_text(m));
    let p1 = parts.drop_last().drop_last();
    let p2 = parts.drop_last();
    assert(p1 =~= seq![member_text(a)]);
    assert(p2 =~= seq![member_text(a), member_text(b)]);
    assert(join(p1, sep) == member_text(a));
    assert(join(p2, sep) == join(p1, sep) + sep + member_text(b));
    assert(join(parts, sep) == join(p2, sep) + sep + member_text(c));
    assert(join(parts, sep) =~= member_text(a) + sep + member_text(b) + sep + member_text(c));
    assert(object_text(seq![a, b, c]) =~= seq!['{'] + member_text(a) + seq![','] + member_text(b)
        + seq![','] + member_text(c) + seq!['}']);
}

/// The text of a JSON object of four members.
pub proof fn object_text_of_four(
    a: (Seq<char>, Seq<char>),
    b: (Seq<char>, Seq<char>),
    c: (Seq<char>, Seq<char>),
    d: (Seq<char>, Seq<char>),
)
    ensures
        object_text(seq![a, b, c, d]) == seq!['{'] + member_text(a) + seq![','] + member_text(b)
            + seq![','] + member_text(c) + seq![','] + member_text(d) + seq!['}'],
{
    let sep = seq![','];
    let parts = seq![a, b, c, d].map_values(|m: (Seq<char>, Seq<char>)| member_text(m));
    let p1 = parts.drop_last().drop_last().drop_last();
    let p2 = parts.drop_last().drop_last();
    let p3 = parts.drop_last();
    assert(p1 =~= seq![member_text(a)]);
    assert(p2 =~= seq![member_text(a), member_text(b)]);
    assert(p3 =~= seq![member_text(a), member_text(b), member_text(c)]);
    assert(join(p1, sep) == member_text(a));
    assert(join(p2, sep) == join(p1, sep) + sep + member_text(b));
    assert(join(p3, sep) == join(p2, sep) + sep + member_text(c));
    assert(join(parts, sep) == join(p3, sep) + sep + member_text(d));
    assert(join(parts, sep) =~= member_text(a) + sep + member_text(b) + sep + member_text(c) + sep
        + member_text(d));
    assert(object_text(seq![a, b, c, d]) =~= seq!['{'] + member_text(a) + seq![','] + member_text(
        b,
    ) + seq![','] + member_text(c) + seq![','] + member_text(d) + seq!['}']);
}

/// Appends `s` as a JSON string literal, escaped as `serde_json` writes it.
pub fn push_json_string(out: &mut String, s: &str)
    ensures
        final(out)@ == old(out)@ + json_string(s@),
{
    let ghost start = out@;
    push_char(out, '"');
    for c in it: s.chars()
        invariant
            it.seq() == s@,
            out@ == start + seq!['"'] + json_escape(s@.take(it.index() as int)),
    {
        let ghost i = it.index() as int;
        push_escaped_char(out, c);
        assert(s@.take(i + 1).drop_last() =~= s@.take(i));
        assert(out@ =~= start + seq!['"'] + json_escape(s@.take(i + 1)));
    }
    assert(s@.take(s@.len() as int) =~= s@);
    push_char(out, '"');
    assert(out@ =~= start + json_string(s@));
}

} // verus!
