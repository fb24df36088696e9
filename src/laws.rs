//! Properties of the format that hold for every value.

use vstd::prelude::*;
use crate::decimal::{
    dec_digits, digits_value, lemma_dec_digits, lemma_int_text_round_trip, parse_int_text,
};
use crate::escape::{escape, lemma_unescape_escape, unescape};
use crate::text::spaces;
use crate::value::{item_line, item_lines, render, Value};

verus! {

broadcast use vstd::std_specs::vec::group_vec_axioms, vstd::seq::group_seq_axioms;

/// A value that is written as a single token.
pub open spec fn is_primitive(v: Value) -> bool {
    match v {
        Value::Null | Value::Bool(_) | Value::I64(_) | Value::U64(_) | Value::Float(_)
        | Value::Char(_) | Value::Str(_) | Value::UnitVariant(_) => true,
        _ => false,
    }
}

/// A character that indents a line or opens or closes a compound.
pub open spec fn is_layout_char(c: char) -> bool {
    c == ' ' || c == '\n' || c == '[' || c == ']' || c == '{' || c == '}' || c == '"'
}

/// A primitive is written the same way at every indentation. A null, a
/// boolean or an integer is written with no space, line break, bracket,
/// brace or quote, and an integer reads back as itself through base-10
/// reading.
pub proof fn law_primitive_text(v: Value, d: nat)
    requires
        is_primitive(v),
    ensures
        render(v, d) == render(v, 0),
        (v is Null || v is Bool || v is I64 || v is U64) ==> forall|i: int|
            0 <= i < render(v, d).len() ==> !is_layout_char(#[trigger] render(v, d)[i]),
        v is I64 ==> parse_int_text(render(v, d)) == v->I64_0 as int,
        v is U64 ==> digits_value(render(v, d)) == v->U64_0 as int,
{
    match v {
        Value::I64(n) => {
            lemma_int_text_round_trip(n as int);
            if n < 0 {
                lemma_dec_digits((-n) as nat);
                assert forall|i: int| 0 <= i < render(v, d).len() implies !is_layout_char(
                    #[trigger] render(v, d)[i],
                ) by {
                    if i > 0 {
                        assert(render(v, d)[i] == dec_digits((-n) as nat)[i - 1]);
                    }
                }
            } else {
                lemma_dec_digits(n as nat);
            }
        },
        Value::U64(n) => {
            lemma_dec_digits(n as nat);
        },
        _ => {},
    }
}

/// A string is written as its escaped form with nothing around it, and
/// reversing the escape sequences of what was written gives the string back.
pub proof fn law_string_round_trip(s: String, d: nat)
    ensures
        render(Value::Str(s), d) == escape(s@),
        unescape(render(Value::Str(s), d)) == s@,
{
    lemma_unescape_escape(s@);
}

proof fn lemma_item_lines_concat(a: Seq<Value>, b: Seq<Value>, e: nat)
    ensures
        item_lines(a + b, e) == item_lines(a, e) + item_lines(b, e),
    decreases b.len(),
{
    if b.len() == 0 {
        assert(a + b =~= a);
        assert(item_lines(a, e) + item_lines(b, e) =~= item_lines(a, e));
    } else {
        lemma_item_lines_concat(a, b.drop_last(), e);
        assert((a + b).drop_last() =~= a + b.drop_last());
        assert(item_lines(a + b, e) =~= item_lines(a, e) + item_lines(b, e));
    }
}

/// In a sequence written at indentation `d`, the element at position `i`
/// stands on a line of its own that starts with `d + 2` spaces, and the
/// closing bracket follows the last element's line after exactly `d` spaces:
/// two fewer than the elements.
pub proof fn law_sequence_layout(xs: Vec<Value>, d: nat, i: int)
    requires
        0 <= i < xs@.len(),
    ensures
        render(Value::Sequence(xs), d) == seq!['[', '\n'] + item_lines(xs@.take(i), d + 2)
            + item_line(xs@[i], d + 2) + item_lines(xs@.skip(i + 1), d + 2) + spaces(d) + seq![
            ']',
        ],
        item_line(xs@[i], d + 2) == spaces(d + 2) + render(xs@[i], d + 2) + seq!['\n'],
{
    let s = xs@;
    assert(s =~= s.take(i) + seq![s[i]] + s.skip(i + 1));
    lemma_item_lines_concat(s.take(i) + seq![s[i]], s.skip(i + 1), d + 2);
    lemma_item_lines_concat(s.take(i), seq![s[i]], d + 2);
    assert(seq![s[i]].drop_last() =~= Seq::<Value>::empty());
    assert(item_lines(Seq::<Value>::empty(), d + 2) =~= Seq::<char>::empty());
    assert(item_lines(seq![s[i]], d + 2) =~= item_line(s[i], d + 2));
    assert(render(Value::Sequence(xs), d) =~= seq!['[', '\n'] + item_lines(xs@.take(i), d + 2)
        + item_line(xs@[i], d + 2) + item_lines(xs@.skip(i + 1), d + 2) + spaces(d) + seq![']']);
}

} // verus!
