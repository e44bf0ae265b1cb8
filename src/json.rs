use vstd::prelude::*;
use crate::snapshot::{EntryView, Snapshot};

verus! {

/// Relies on std's `String::push`: the character is appended at the end.
#[verifier::external_body]
fn push_char(s: &mut String, c: char)
    ensures
        final(s)@ == old(s)@.push(c),
{
    s.push(c)
}

/// The lower-case hexadecimal digit of `n`, for `n` below 16.
pub open spec fn hex_digit(n: u32) -> char {
    match n {
        0 => '0',
        1 => '1',
        2 => '2',
        3 => '3',
        4 => '4',
        5 => '5',
        6 => '6',
        7 => '7',
        8 => '8',
        9 => '9',
        10 => 'a',
        11 => 'b',
        12 => 'c',
        13 => 'd',
        14 => 'e',
        _ => 'f',
    }
}

/// How one character stands inside a JSON string literal.
pub open spec fn escape_char(c: char) -> Seq<char> {
    if c == '"' {
        seq!['\\', '"']
    } else if c == '\\' {
        seq!['\\', '\\']
    } else if c == '\n' {
        seq!['\\', 'n']
    } else if c == '\r' {
        seq!['\\', 'r']
    } else if c == '\t' {
        seq!['\\', 't']
    } else if c == '\x08' {
        seq!['\\', 'b']
    } else if c == '\x0c' {
        seq!['\\', 'f']
    } else if (c as u32) < 0x20 {
        seq!['\\', 'u', '0', '0', hex_digit((c as u32) / 16), hex_digit((c as u32) % 16)]
    } else {
        seq![c]
    }
}

/// The body of a JSON string literal that holds `s`.
pub open spec fn escape(s: Seq<char>) -> Seq<char>
    decreases s.len(),
{
    if s.len() == 0 {
        Seq::empty()
    } else {
        escape(s.drop_last()) + escape_char(s.last())
    }
}

/// The JSON string literal that holds `s`.
pub open spec fn quoted(s: Seq<char>) -> Seq<char> {
    seq!['"'] + escape(s) + seq!['"']
}

/// The member `"name":"value"` of a JSON object.
pub open spec fn member(e: EntryView) -> Seq<char> {
    quoted(e.0) + seq![':'] + quoted(e.1)
}

/// The members of all entries, separated by commas.
pub open spec fn members(s: Seq<EntryView>) -> Seq<char>
    decreases s.len(),
{
    if s.len() == 0 {
        Seq::empty()
    } else if s.len() == 1 {
        member(s[0])
    } else {
        members(s.drop_last()) + seq![','] + member(s.last())
    }
}

/// The JSON object whose members are the entries of `s`, in order.
pub open spec fn object_of(s: Seq<EntryView>) -> Seq<char> {
    seq!['{'] + members(s) + seq!['}']
}

fn hex_char(n: u32) -> (r: char)
    requires
        n < 16,
    ensures
        r == hex_digit(n),
{
    match n {
        0 => '0',
        1 => '1',
        2 => '2',
        3 => '3',
        4 => '4',
        5 => '5',
        6 => '6',
        7 => '7',
        8 => '8',
        9 => '9',
        10 => 'a',
        11 => 'b',
        12 => 'c',
        13 => 'd',
        14 => 'e',
        _ => 'f',
    }
}

/// Appends how `c` stands inside a JSON string literal.
fn push_escaped(out: &mut String, c: char)
    ensures
        final(out)@ == old(out)@ + escape_char(c),
{
    let ghost start = out@;
    let code = c as u32;
    if c == '"' {
        push_char(out, '\\');
        push_char(out, '"');
    } else if c == '\\' {
        push_char(out, '\\');
        push_char(out, '\\');
    } else if c == '\n' {
        push_char(out, '\\');
        push_char(out, 'n');
    } else if c == '\r' {
        push_char(out, '\\');
        push_char(out, 'r');
    } else if c == '\t' {
        push_char(out, '\\');
        push_char(out, 't');
    } else if c == '\x08' {
        push_char(out, '\\');
        push_char(out, 'b');
    } else if c == '\x0c' {
        push_char(out, '\\');
        push_char(out, 'f');
    } else if code < 0x20 {
        push_char(out, '\\');
        push_char(out, 'u');
        push_char(out, '0');
        push_char(out, '0');
        push_char(out, hex_char(code / 16));
        push_char(out, hex_char(code % 16));
    } else {
        push_char(out, c);
    }
    assert(out@ =~= start + escape_char(c));
}

/// Appends the JSON string literal that holds `s`.
pub fn push_quoted(out: &mut String, s: &str)
    ensures
        final(out)@ == old(out)@ + quoted(s@),
{
    let ghost start = out@;
    push_char(out, '"');
    for c in it: s.chars()
        invariant
            it.seq() == s@,
            out@ == start + seq!['"'] + escape(s@.subrange(0, it.index() as int)),
    {
        let ghost before = out@;
        let ghost k = it.index() as int;
        push_escaped(out, c);
        proof {
            let t = s@.subrange(0, k + 1);
            assert(t.drop_last() =~= s@.subrange(0, k));
            assert(t.last() == c);
        }
    }
    assert(s@.subrange(0, s@.len() as int) =~= s@);
    push_char(out, '"');
    assert(out@ =~= start + quoted(s@));
}

/// Encodes the snapshot as a JSON object with one member per variable.
pub fn encode_object(snap: &Snapshot) -> (r: String)
    ensures
        r@ == object_of(snap@),
{
    let mut out = String::new();
    push_char(&mut out, '{');
    let n = snap.entries.len();
    let mut i: usize = 0;
    while i < n
        invariant
            n == snap.entries.len(),
            i <= n,
            out@ == seq!['{'] + members(snap@.subrange(0, i as int)),
        decreases n - i,
    {
        let ghost before = out@;
        if i > 0 {
            push_char(&mut out, ',');
        }
        push_quoted(&mut out, snap.entries[i].0.as_str());
        push_char(&mut out, ':');
        push_quoted(&mut out, snap.entries[i].1.as_str());
        proof {
            let s = snap@.subrange(0, i + 1);
            assert(s.drop_last() =~= snap@.subrange(0, i as int));
            assert(s.last() == snap@[i as int]);
            if i == 0 {
                assert(s[0] == snap@[0]);
                assert(out@ =~= seq!['{'] + members(s));
            } else {
                assert(out@ =~= seq!['{'] + members(s));
            }
        }
        i = i + 1;
    }
    assert(snap@.subrange(0, n as int) =~= snap@);
    push_char(&mut out, '}');
    assert(out@ =~= object_of(snap@));
    out
}

} // verus!
