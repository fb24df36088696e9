//! The values that the format describes, and the text each one becomes.

use vstd::prelude::*;
use crate::decimal::{dec_digits, int_text};
use crate::escape::{escape, escape_char};
use crate::text::spaces;

verus! {

broadcast use vstd::std_specs::vec::group_vec_axioms, vstd::seq::group_seq_axioms;

/// A structured value, built by whatever produces the data.
#[derive(Debug)]
pub enum Value {
    /// No value: an absent option or the unit value.
    Null,
    Bool(bool),
    I64(i64),
    U64(u64),
    /// A floating-point number, held as the decimal text the host wrote for it.
    Float(String),
    Char(char),
    Str(String),
    /// A byte string, written as a sequence of its bytes.
    Bytes(Vec<u8>),
    /// An ordered sequence (a list, a tuple, a tuple struct).
    Sequence(Vec<Value>),
    /// Key/value pairs in the order the producer gave them.
    Mapping(Vec<(Value, Value)>),
    /// A record: named fields in declaration order.
    Record(Vec<(String, Value)>),
    /// A variant that carries nothing.
    UnitVariant(String),
    /// A variant that wraps one value.
    NewtypeVariant(String, Box<Value>),
    /// A variant that carries unnamed values.
    TupleVariant(String, Vec<Value>),
    /// A variant that carries named fields.
    StructVariant(String, Vec<(String, Value)>),
}

pub open spec fn null_text() -> Seq<char> {
    seq!['n', 'u', 'l', 'l']
}

pub open spec fn bool_text(b: bool) -> Seq<char> {
    if b {
        seq!['t', 'r', 'u', 'e']
    } else {
        seq!['f', 'a', 'l', 's', 'e']
    }
}

/// The ` = ` that stands between a key and its value.
pub open spec fn eq_sep() -> Seq<char> {
    seq![' ', '=', ' ']
}

/// The text of a value whose lines after the first are indented by `d`.
pub open spec fn render(v: Value, d: nat) -> Seq<char>
    decreases v,
{
    match v {
        Value::Null => null_text(),
        Value::Bool(b) => bool_text(b),
        Value::I64(n) => int_text(n as int),
        Value::U64(n) => dec_digits(n as nat),
        Value::Float(t) => t@,
        Value::Char(c) => escape_char(c),
        Value::Str(s) => escape(s@),
        Value::Bytes(bs) => seq!['[', '\n'] + byte_lines(bs@, d + 2) + spaces(d) + seq![']'],
        Value::Sequence(xs) => seq!['[', '\n'] + item_lines(xs@, d + 2) + spaces(d) + seq![']'],
        Value::Mapping(es) => seq!['{', '\n'] + entry_lines(es@, d + 2) + spaces(d) + seq!['}'],
        Value::Record(fs) => seq!['{', '\n'] + field_lines(fs@, d + 2) + spaces(d) + seq!['}'],
        Value::UnitVariant(name) => escape(name@),
        Value::NewtypeVariant(name, inner) => seq!['{', ' '] + escape(name@) + eq_sep() + render(
            *inner,
            d,
        ) + seq![' ', '}'],
        Value::TupleVariant(name, xs) => seq!['{', '\n'] + spaces(d + 2) + escape(name@) + eq_sep()
            + seq!['[', '\n'] + item_lines(xs@, d + 4) + spaces(d + 2) + seq![']', '\n'] + spaces(d)
            + seq!['}'],
        Value::StructVariant(name, fs) => seq!['{', '\n'] + spaces(d + 2) + escape(name@)
            + eq_sep() + seq!['{', '\n'] + field_lines(fs@, d + 4) + spaces(d + 2) + seq!['}', '\n']
            + spaces(d) + seq!['}'],
    }
}

/// One line per byte, each at indentation `e`.
pub open spec fn byte_lines(bs: Seq<u8>, e: nat) -> Seq<char>
    decreases bs.len(),
{
    if bs.len() == 0 {
        Seq::empty()
    } else {
        byte_lines(bs.drop_last(), e) + spaces(e) + dec_digits(bs.last() as nat) + seq!['\n']
    }
}

/// One line per element, each at indentation `e`.
pub open spec fn item_lines(xs: Seq<Value>, e: nat) -> Seq<char>
    decreases xs,
{
    if xs.len() == 0 {
        Seq::empty()
    } else {
        item_lines(xs.drop_last(), e) + spaces(e) + render(xs.last(), e) + seq!['\n']
    }
}

/// The line of one element of a sequence.
pub open spec fn item_line(x: Value, e: nat) -> Seq<char> {
    spaces(e) + render(x, e) + seq!['\n']
}

/// One `key = value` line per entry, each at indentation `e`.
pub open spec fn entry_lines(es: Seq<(Value, Value)>, e: nat) -> Seq<char>
    decreases es,
{
    if es.len() == 0 {
        Seq::empty()
    } else {
        entry_lines(es.drop_last(), e) + entry_line(es.last(), e)
    }
}

/// The line of one map entry.
pub open spec fn entry_line(kv: (Value, Value), e: nat) -> Seq<char>
    decreases kv,
{
    spaces(e) + render(kv.0, e) + eq_sep() + render(kv.1, e) + seq!['\n']
}

/// One `name = value` line per field, each at indentation `e`.
pub open spec fn field_lines(fs: Seq<(String, Value)>, e: nat) -> Seq<char>
    decreases fs,
{
    if fs.len() == 0 {
        Seq::empty()
    } else {
        field_lines(fs.drop_last(), e) + field_line(fs.last(), e)
    }
}

/// The line of one named field.
pub open spec fn field_line(f: (String, Value), e: nat) -> Seq<char>
    decreases f,
{
    spaces(e) + escape(f.0@) + eq_sep() + render(f.1, e) + seq!['\n']
}

/// How many levels of indentation a value opens below itself.
pub open spec fn nesting(v: Value) -> nat
    decreases v,
{
    match v {
        Value::Bytes(_) => 1,
        Value::Sequence(xs) => 1 + items_nesting(xs@),
        Value::Mapping(es) => 1 + entries_nesting(es@),
        Value::Record(fs) => 1 + fields_nesting(fs@),
        Value::NewtypeVariant(_, inner) => nesting(*inner),
        Value::TupleVariant(_, xs) => 2 + items_nesting(xs@),
        Value::StructVariant(_, fs) => 2 + fields_nesting(fs@),
        _ => 0,
    }
}

/// The deepest nesting among elements.
pub open spec fn items_nesting(xs: Seq<Value>) -> nat
    decreases xs,
{
    if xs.len() == 0 {
        0
    } else {
        let a = items_nesting(xs.drop_last());
        let b = nesting(xs.last());
        if a < b {
            b
        } else {
            a
        }
    }
}

/// The deepest nesting among the keys and values of entries.
pub open spec fn entries_nesting(es: Seq<(Value, Value)>) -> nat
    decreases es,
{
    if es.len() == 0 {
        0
    } else {
        let a = entries_nesting(es.drop_last());
        let b = nesting(es.last().0);
        let c = nesting(es.last().1);
        if a < b && c < b {
            b
        } else if a < c {
            c
        } else {
            a
        }
    }
}

/// The deepest nesting among the values of fields.
pub open spec fn fields_nesting(fs: Seq<(String, Value)>) -> nat
    decreases fs,
{
    if fs.len() == 0 {
        0
    } else {
        let a = fields_nesting(fs.drop_last());
        let b = nesting(fs.last().1);
        if a < b {
            b
        } else {
            a
        }
    }
}

pub proof fn lemma_items_nesting(xs: Seq<Value>, i: int)
    requires
        0 <= i < xs.len(),
    ensures
        nesting(xs[i]) <= items_nesting(xs),
    decreases xs.len(),
{
    if i < xs.len() - 1 {
        lemma_items_nesting(xs.drop_last(), i);
    }
}

pub proof fn lemma_entries_nesting(es: Seq<(Value, Value)>, i: int)
    requires
        0 <= i < es.len(),
    ensures
        nesting(es[i].0) <= entries_nesting(es),
        nesting(es[i].1) <= entries_nesting(es),
    decreases es.len(),
{
    if i < es.len() - 1 {
        lemma_entries_nesting(es.drop_last(), i);
    }
}

pub proof fn lemma_fields_nesting(fs: Seq<(String, Value)>, i: int)
    requires
        0 <= i < fs.len(),
    ensures
        nesting(fs[i].1) <= fields_nesting(fs),
    decreases fs.len(),
{
    if i < fs.len() - 1 {
        lemma_fields_nesting(fs.drop_last(), i);
    }
}

} // verus!
