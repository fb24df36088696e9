//! Escaping of string contents: seven characters get a backslash form, every
//! other character is kept as it is.

use vstd::prelude::*;
use crate::text::push_char;

verus! {

/// What one character becomes in escaped text.
pub open spec fn escape_char(c: char) -> Seq<char> {
    if c == '"' {
        seq!['\\', '"']
    } else if c == '\\' {
        seq!['\\', '\\']
    } else if c == '\n' {
        seq!['\\', 'n']
    } else if c == '\r' {
        seq!['\\', 'r']
    } else if c == '\t' {
        seq!['\\', 't']
    } else if c == '\u{0008}' {
        seq!['\\', 'b']
    } else if c == '\u{000C}' {
        seq!['\\', 'f']
    } else {
        seq![c]
    }
}

/// The escaped form of a string, character by character.
pub open spec fn escape(s: Seq<char>) -> Seq<char>
    decreases s.len(),
{
    if s.len() == 0 {
        Seq::empty()
    } else {
        escape(s.drop_last()) + escape_char(s.last())
    }
}

/// The character that follows a backslash in escaped text stands for this one.
pub open spec fn unescape_code(c: char) -> char {
    if c == 'n' {
        '\n'
    } else if c == 'r' {
        '\r'
    } else if c == 't' {
        '\t'
    } else if c == 'b' {
        '\u{0008}'
    } else if c == 'f' {
        '\u{000C}'
    } else {
        c
    }
}

/// Reverses the escape sequences of a text, reading it from the left.
pub open spec fn unescape(t: Seq<char>) -> Seq<char>
    decreases t.len(),
{
    if t.len() == 0 {
        Seq::empty()
    } else if t[0] == '\\' && t.len() >= 2 {
        seq![unescape_code(t[1])] + unescape(t.skip(2))
    } else {
        seq![t[0]] + unescape(t.skip(1))
    }
}

/// Escaping distributes over concatenation.
pub proof fn lemma_escape_concat(a: Seq<char>, b: Seq<char>)
    ensures
        escape(a + b) == escape(a) + escape(b),
    decreases b.len(),
{
    if b.len() == 0 {
        assert(a + b =~= a);
        assert(escape(a) + escape(b) =~= escape(a));
    } else {
        lemma_escape_concat(a, b.drop_last());
        assert((a + b).drop_last() =~= a + b.drop_last());
        assert(escape(a + b) =~= escape(a) + escape(b));
    }
}

proof fn lemma_unescape_one(c: char, rest: Seq<char>)
    ensures
        unescape(escape_char(c) + rest) == seq![c] + unescape(rest),
{
    let t = escape_char(c) + rest;
    if escape_char(c).len() == 2 {
        assert(t.skip(2) =~= rest);
    } else {
        assert(t.skip(1) =~= rest);
    }
}

/// Reversing the escape sequences gives back the original string.
pub proof fn lemma_unescape_escape(s: Seq<char>)
    ensures
        unescape(escape(s)) == s,
    decreases s.len(),
{
    if s.len() == 0 {
        assert(escape(s) =~= Seq::<char>::empty());
    } else {
        let rest = s.skip(1);
        assert(s =~= seq![s[0]] + rest);
        lemma_escape_concat(seq![s[0]], rest);
        assert(seq![s[0]].drop_last() =~= Seq::<char>::empty());
        assert(escape(Seq::<char>::empty()) =~= Seq::<char>::empty());
        assert(seq![s[0]].last() == s[0]);
        assert(escape(seq![s[0]]) =~= escape_char(s[0]));
        lemma_unescape_one(s[0], escape(rest));
        lemma_unescape_escape(rest);
        assert(seq![s[0]] + rest =~= s);
    }
}

/// Appends the escaped form of `c`.
pub fn push_escaped_char(out: &mut String, c: char)
    ensures
        final(out)@ == old(out)@ + escape_char(c),
{
    if c == '"' {
        push_char(out, '\\');
        push_char(out, '"');
    } else if c == '\\' {
        push_char(out, '\\');
        push_char(out, '\\');
    } else if c == '\n' {
        push_char(out, '\\');
        push_char(out, 'n');
    } else if c == '\r' {
        push_char(out, '\\');
        push_char(out, 'r');
    } else if c == '\t' {
        push_char(out, '\\');
        push_char(out, 't');
    } else if c == '\u{0008}' {
        push_char(out, '\\');
        push_char(out, 'b');
    } else if c == '\u{000C}' {
        push_char(out, '\\');
        push_char(out, 'f');
    } else {
        push_char(out, c);
    }
    assert(out@ =~= old(out)@ + escape_char(c));
}

/// Appends the escaped form of `s`.
pub fn push_escaped(out: &mut String, s: &str)
    ensures
        final(out)@ == old(out)@ + escape(s@),
{
    let ghost start = out@;
    for c in it: s.chars()
        invariant
            it.seq() == s@,
            out@ == start + escape(s@.take(it.index() as int)),
    {
        let ghost i = it.index() as int;
        push_escaped_char(out, c);
        assert(s@.take(i + 1).drop_last() =~= s@.take(i));
        assert(out@ =~= start + escape(s@.take(i + 1)));
    }
    assert(s@.take(s@.len() as int) =~= s@);
}

/// The escaped form of `s`: a backslash form for `"`, `\`, newline, carriage
/// return, tab, backspace and form feed; every other character unchanged.
pub fn escape_string(s: &str) -> (r: String)
    ensures
        r@ == escape(s@),
{
    let mut escaped = String::new();
    push_escaped(&mut escaped, s);
    escaped
}

} // verus!
