//! The text emitter: a buffer and an indentation level, driven one call per
//! value node.

use vstd::prelude::*;
use crate::decimal::{dec_digits, int_text, push_decimal, push_signed};
use crate::escape::{escape, escape_char, push_escaped, push_escaped_char};
use crate::text::{push_char, push_spaces, spaces};
use crate::value::{
    bool_text, byte_lines, entries_nesting, entry_line, entry_lines, eq_sep, field_line, field_lines, fields_nesting,
    item_line, item_lines, items_nesting, lemma_entries_nesting, lemma_fields_nesting,
    lemma_items_nesting, nesting, null_text, render, Value,
};

verus! {

broadcast use vstd::std_specs::vec::group_vec_axioms, vstd::seq::group_seq_axioms;

/// Builds the text of one value. Each compound opens two more columns of
/// indentation for its children and gives them back before its closing
/// delimiter.
pub struct Serializer {
    output: String,
    indent: usize,
}

/// Appends ` = `.
fn push_eq_sep(out: &mut String)
    ensures
        final(out)@ == old(out)@ + eq_sep(),
{
    push_char(out, ' ');
    push_char(out, '=');
    push_char(out, ' ');
    assert(out@ =~= old(out)@ + eq_sep());
}

/// Appends an opening delimiter and a line break.
fn push_open(out: &mut String, c: char)
    ensures
        final(out)@ == old(out)@ + seq![c, '\n'],
{
    push_char(out, c);
    push_char(out, '\n');
    assert(out@ =~= old(out)@ + seq![c, '\n']);
}

impl Serializer {
    /// The text written so far.
    pub closed spec fn text(&self) -> Seq<char> {
        self.output@
    }

    /// The current indentation, in spaces.
    pub closed spec fn depth(&self) -> nat {
        self.indent as nat
    }

    /// An emitter with no text and no indentation.
    pub fn new() -> (s: Serializer)
        ensures
            s.text() == Seq::<char>::empty(),
            s.depth() == 0,
    {
        Serializer { output: String::new(), indent: 0 }
    }

    /// The text written so far, handing the emitter over.
    pub fn into_output(self) -> (r: String)
        ensures
            r@ == self.text(),
    {
        self.output
    }

    /// The current indentation, in spaces.
    pub fn current_indent(&self) -> (r: usize)
        ensures
            r == self.depth(),
    {
        self.indent
    }

    /// Opens one level: two more spaces before each following line.
    pub fn indent(&mut self)
        requires
            old(self).depth() + 2 <= usize::MAX,
        ensures
            final(self).depth() == old(self).depth() + 2,
            final(self).text() == old(self).text(),
    {
        self.indent = self.indent + 2;
    }

    /// Closes one level: two spaces fewer, never below none.
    pub fn dedent(&mut self)
        ensures
            final(self).depth() == if old(self).depth() >= 2 {
                (old(self).depth() - 2) as nat
            } else {
                0
            },
            final(self).text() == old(self).text(),
    {
        self.indent = self.indent.saturating_sub(2);
    }

    /// Writes the current indentation.
    pub fn write_indent(&mut self)
        ensures
            final(self).depth() == old(self).depth(),
            final(self).text() == old(self).text() + spaces(old(self).depth()),
    {
        push_spaces(&mut self.output, self.indent);
    }

    pub fn serialize_bool(&mut self, v: bool)
        ensures
            final(self).depth() == old(self).depth(),
            final(self).text() == old(self).text() + bool_text(v),
    {
        if v {
            push_char(&mut self.output, 't');
            push_char(&mut self.output, 'r');
            push_char(&mut self.output, 'u');
            push_char(&mut self.output, 'e');
        } else {
            push_char(&mut self.output, 'f');
            push_char(&mut self.output, 'a');
            push_char(&mut self.output, 'l');
            push_char(&mut self.output, 's');
            push_char(&mut self.output, 'e');
        }
        assert(self.output@ =~= old(self).output@ + bool_text(v));
    }

    pub fn serialize_i8(&mut self, v: i8)
        ensures
            final(self).depth() == old(self).depth(),
            final(self).text() == old(self).text() + int_text(v as int),
    {
        self.serialize_i64(v as i64)
    }

    pub fn serialize_i16(&mut self, v: i16)
        ensures
            final(self).depth() == old(self).depth(),
            final(self).text() == old(self).text() + int_text(v as int),
    {
        self.serialize_i64(v as i64)
    }

    pub fn serialize_i32(&mut self, v: i32)
        ensures
            final(self).depth() == old(self).depth(),
            final(self).text() == old(self).text() + int_text(v as int),
    {
        self.serialize_i64(v as i64)
    }

    pub fn serialize_i64(&mut self, v: i64)
        ensures
            final(self).depth() == old(self).depth(),
            final(self).text() == old(self).text() + int_text(v as int),
    {
        push_signed(&mut self.output, v);
    }

    pub fn serialize_u8(&mut self, v: u8)
        ensures
            final(self).depth() == old(self).depth(),
            final(self).text() == old(self).text() + dec_digits(v as nat),
    {
        self.serialize_u64(v as u64)
    }

    pub fn serialize_u16(&mut self, v: u16)
        ensures
            final(self).depth() == old(self).depth(),
            final(self).text() == old(self).text() + dec_digits(v as nat),
    {
        self.serialize_u64(v as u64)
    }

    pub fn serialize_u32(&mut self, v: u32)
        ensures
            final(self).depth() == old(self).depth(),
            final(self).text() == old(self).text() + dec_digits(v as nat),
    {
        self.serialize_u64(v as u64)
    }

    pub fn serialize_u64(&mut self, v: u64)
        ensures
            final(self).depth() == old(self).depth(),
            final(self).text() == old(self).text() + dec_digits(v as nat),
    {
        push_decimal(&mut self.output, v);
    }

    /// Writes a floating-point number given as the decimal text the host
    /// produced for it, unchanged.
    pub fn serialize_float_text(&mut self, v: &str)
        ensures
            final(self).depth() == old(self).depth(),
            final(self).text() == old(self).text() + v@,
    {
        self.output.append(v);
    }

    pub fn serialize_char(&mut self, v: char)
        ensures
            final(self).depth() == old(self).depth(),
            final(self).text() == old(self).text() + escape_char(v),
    {
        push_escaped_char(&mut self.output, v);
    }

    /// Writes the escaped string, without quotes.
    pub fn serialize_str(&mut self, v: &str)
        ensures
            final(self).depth() == old(self).depth(),
            final(self).text() == old(self).text() + escape(v@),
    {
        push_escaped(&mut self.output, v);
    }

    pub fn serialize_unit(&mut self)
        ensures
            final(self).depth() == old(self).depth(),
            final(self).text() == old(self).text() + null_text(),
    {
        push_char(&mut self.output, 'n');
        push_char(&mut self.output, 'u');
        push_char(&mut self.output, 'l');
        push_char(&mut self.output, 'l');
        assert(self.output@ =~= old(self).output@ + null_text());
    }

    /// An absent optional value is written as the unit value.
    pub fn serialize_none(&mut self)
        ensures
            final(self).depth() == old(self).depth(),
            final(self).text() == old(self).text() + null_text(),
    {
        self.serialize_unit()
    }

    /// A variant that carries nothing is written as its bare name.
    pub fn serialize_unit_variant(&mut self, variant: &str)
        ensures
            final(self).depth() == old(self).depth(),
            final(self).text() == old(self).text() + escape(variant@),
    {
        self.serialize_str(variant)
    }
    /// Writes a byte string as a sequence with one byte per line.
    pub fn serialize_bytes(&mut self, v: &[u8])
        requires
            old(self).depth() + 2 <= usize::MAX,
        ensures
            final(self).depth() == old(self).depth(),
            final(self).text() == old(self).text() + seq!['[', '\n'] + byte_lines(
                v@,
                old(self).depth() + 2,
            ) + spaces(old(self).depth()) + seq![']'],
    {
        let ghost d = self.depth();
        let ghost start = self.text();
        self.serialize_seq();
        let mut i: usize = 0;
        while i < v.len()
            invariant
                i <= v@.len(),
                self.depth() == d + 2,
                self.text() == start + seq!['[', '\n'] + byte_lines(v@.take(i as int), d + 2),
            decreases v@.len() - i,
        {
            self.write_indent();
            self.serialize_u8(v[i]);
            push_char(&mut self.output, '\n');
            assert(v@.take(i + 1).drop_last() =~= v@.take(i as int));
            assert(self.text() =~= start + seq!['[', '\n'] + byte_lines(v@.take(i + 1), d + 2));
            i = i + 1;
        }
        assert(v@.take(v@.len() as int) =~= v@);
        self.end_seq();
        assert(self.text() =~= start + seq!['[', '\n'] + byte_lines(v@, d + 2) + spaces(d)
            + seq![']']);
    }

    /// Opens a sequence: `[` and a line break, then one level deeper.
    pub fn serialize_seq(&mut self)
        requires
            old(self).depth() + 2 <= usize::MAX,
        ensures
            final(self).depth() == old(self).depth() + 2,
            final(self).text() == old(self).text() + seq!['[', '\n'],
    {
        push_open(&mut self.output, '[');
        self.indent();
    }

    /// Closes a sequence: one level up, then the indentation and `]`.
    pub fn end_seq(&mut self)
        requires
            old(self).depth() >= 2,
        ensures
            final(self).depth() == old(self).depth() - 2,
            final(self).text() == old(self).text() + spaces((old(self).depth() - 2) as nat)
                + seq![']'],
    {
        self.dedent();
        self.write_indent();
        push_char(&mut self.output, ']');
    }

    /// Opens a map or a record: `{` and a line break, then one level deeper.
    pub fn serialize_map(&mut self)
        requires
            old(self).depth() + 2 <= usize::MAX,
        ensures
            final(self).depth() == old(self).depth() + 2,
            final(self).text() == old(self).text() + seq!['{', '\n'],
    {
        push_open(&mut self.output, '{');
        self.indent();
    }

    /// Closes a map or a record: one level up, then the indentation and `}`.
    pub fn end_map(&mut self)
        requires
            old(self).depth() >= 2,
        ensures
            final(self).depth() == old(self).depth() - 2,
            final(self).text() == old(self).text() + spaces((old(self).depth() - 2) as nat)
                + seq!['}'],
    {
        self.dedent();
        self.write_indent();
        push_char(&mut self.output, '}');
    }

    /// Writes one element of a sequence on a line of its own.
    pub fn serialize_element(&mut self, v: &Value)
        requires
            old(self).depth() + 2 * nesting(*v) <= usize::MAX,
        ensures
            final(self).depth() == old(self).depth(),
            final(self).text() == old(self).text() + item_line(*v, old(self).depth()),
        decreases *v, 1nat,
    {
        self.write_indent();
        self.serialize(v);
        push_char(&mut self.output, '\n');
        assert(self.text() =~= old(self).text() + item_line(*v, old(self).depth()));
    }

    /// Starts the line of a map entry with its key.
    pub fn serialize_key(&mut self, key: &Value)
        requires
            old(self).depth() + 2 * nesting(*key) <= usize::MAX,
        ensures
            final(self).depth() == old(self).depth(),
            final(self).text() == old(self).text() + spaces(old(self).depth()) + render(
                *key,
                old(self).depth(),
            ),
        decreases *key, 1nat,
    {
        self.write_indent();
        self.serialize(key);
    }

    /// Ends the line of a map entry with ` = ` and its value.
    pub fn serialize_value(&mut self, value: &Value)
        requires
            old(self).depth() + 2 * nesting(*value) <= usize::MAX,
        ensures
            final(self).depth() == old(self).depth(),
            final(self).text() == old(self).text() + eq_sep() + render(*value, old(self).depth())
                + seq!['\n'],
        decreases *value, 1nat,
    {
        push_eq_sep(&mut self.output);
        self.serialize(value);
        push_char(&mut self.output, '\n');
    }

    /// Writes one `name = value` line of a record.
    pub fn serialize_field(&mut self, key: &str, value: &Value)
        requires
            old(self).depth() + 2 * nesting(*value) <= usize::MAX,
        ensures
            final(self).depth() == old(self).depth(),
            final(self).text() == old(self).text() + spaces(old(self).depth()) + escape(key@)
                + eq_sep() + render(*value, old(self).depth()) + seq!['\n'],
        decreases *value, 1nat,
    {
        self.write_indent();
        self.serialize_str(key);
        push_eq_sep(&mut self.output);
        self.serialize(value);
        push_char(&mut self.output, '\n');
    }

    /// Writes `{ name = value }` on one line.
    pub fn serialize_newtype_variant(&mut self, variant: &str, value: &Value)
        requires
            old(self).depth() + 2 * nesting(*value) <= usize::MAX,
        ensures
            final(self).depth() == old(self).depth(),
            final(self).text() == old(self).text() + seq!['{', ' '] + escape(variant@) + eq_sep()
                + render(*value, old(self).depth()) + seq![' ', '}'],
        decreases *value, 1nat,
    {
        push_char(&mut self.output, '{');
        push_char(&mut self.output, ' ');
        self.serialize_str(variant);
        push_eq_sep(&mut self.output);
        self.serialize(value);
        push_char(&mut self.output, ' ');
        push_char(&mut self.output, '}');
        assert(self.text() =~= old(self).text() + seq!['{', ' '] + escape(variant@) + eq_sep()
            + render(*value, old(self).depth()) + seq![' ', '}']);
    }

    /// Opens a tuple variant: `{`, then the indented line `name = [`, two
    /// levels deeper than before.
    pub fn serialize_tuple_variant(&mut self, variant: &str)
        requires
            old(self).depth() + 4 <= usize::MAX,
        ensures
            final(self).depth() == old(self).depth() + 4,
            final(self).text() == old(self).text() + seq!['{', '\n'] + spaces(
                old(self).depth() + 2,
            ) + escape(variant@) + eq_sep() + seq!['[', '\n'],
    {
        push_open(&mut self.output, '{');
        self.indent();
        self.write_indent();
        self.serialize_str(variant);
        push_eq_sep(&mut self.output);
        push_open(&mut self.output, '[');
        self.indent();
    }

    /// Closes a tuple variant: `]` and `}`, each on its own level.
    pub fn end_tuple_variant(&mut self)
        requires
            old(self).depth() >= 4,
        ensures
            final(self).depth() == old(self).depth() - 4,
            final(self).text() == old(self).text() + spaces((old(self).depth() - 2) as nat)
                + seq![']', '\n'] + spaces((old(self).depth() - 4) as nat) + seq!['}'],
    {
        self.dedent();
        self.write_indent();
        push_char(&mut self.output, ']');
        push_char(&mut self.output, '\n');
        self.dedent();
        self.write_indent();
        push_char(&mut self.output, '}');
        assert(self.text() =~= old(self).text() + spaces((old(self).depth() - 2) as nat)
            + seq![']', '\n'] + spaces((old(self).depth() - 4) as nat) + seq!['}']);
    }

    /// Opens a struct variant: `{`, then the indented line `name = {`, two
    /// levels deeper than before.
    pub fn serialize_struct_variant(&mut self, variant: &str)
        requires
            old(self).depth() + 4 <= usize::MAX,
        ensures
            final(self).depth() == old(self).depth() + 4,
            final(self).text() == old(self).text() + seq!['{', '\n'] + spaces(
                old(self).depth() + 2,
            ) + escape(variant@) + eq_sep() + seq!['{', '\n'],
    {
        push_open(&mut self.output, '{');
        self.indent();
        self.write_indent();
        self.serialize_str(variant);
        push_eq_sep(&mut self.output);
        push_open(&mut self.output, '{');
        self.indent();
    }

    /// Closes a struct variant: `}` and `}`, each on its own level.
    pub fn end_struct_variant(&mut self)
        requires
            old(self).depth() >= 4,
        ensures
            final(self).depth() == old(self).depth() - 4,
            final(self).text() == old(self).text() + spaces((old(self).depth() - 2) as nat)
                + seq!['}', '\n'] + spaces((old(self).depth() - 4) as nat) + seq!['}'],
    {
        self.dedent();
        self.write_indent();
        push_char(&mut self.output, '}');
        push_char(&mut self.output, '\n');
        self.dedent();
        self.write_indent();
        push_char(&mut self.output, '}');
        assert(self.text() =~= old(self).text() + spaces((old(self).depth() - 2) as nat)
            + seq!['}', '\n'] + spaces((old(self).depth() - 4) as nat) + seq!['}']);
    }

    /// Writes the elements of a sequence, one line each.
    fn write_items(&mut self, xs: &Vec<Value>)
        requires
            old(self).depth() + 2 * items_nesting(xs@) <= usize::MAX,
        ensures
            final(self).depth() == old(self).depth(),
            final(self).text() == old(self).text() + item_lines(xs@, old(self).depth()),
        decreases xs, 0nat,
    {
        let ghost d = self.depth();
        let ghost start = self.text();
        let mut i: usize = 0;
        while i < xs.len()
            invariant
                i <= xs@.len(),
                self.depth() == d,
                d + 2 * items_nesting(xs@) <= usize::MAX,
                self.text() == start + item_lines(xs@.take(i as int), d),
            decreases xs@.len() - i,
        {
            proof {
                lemma_items_nesting(xs@, i as int);
            }
            self.serialize_element(&xs[i]);
            assert(xs@.take(i + 1).drop_last() =~= xs@.take(i as int));
            assert(self.text() =~= start + item_lines(xs@.take(i + 1), d));
            i = i + 1;
        }
        assert(xs@.take(xs@.len() as int) =~= xs@);
    }

    /// Writes the entries of a map, one `key = value` line each.
    fn write_entries(&mut self, es: &Vec<(Value, Value)>)
        requires
            old(self).depth() + 2 * entries_nesting(es@) <= usize::MAX,
        ensures
            final(self).depth() == old(self).depth(),
            final(self).text() == old(self).text() + entry_lines(es@, old(self).depth()),
        decreases es, 0nat,
    {
        let ghost d = self.depth();
        let ghost start = self.text();
        let mut i: usize = 0;
        while i < es.len()
            invariant
                i <= es@.len(),
                self.depth() == d,
                d + 2 * entries_nesting(es@) <= usize::MAX,
                self.text() == start + entry_lines(es@.take(i as int), d),
            decreases es@.len() - i,
        {
            proof {
                lemma_entries_nesting(es@, i as int);
            }
            self.serialize_key(&es[i].0);
            self.serialize_value(&es[i].1);
            assert(es@.take(i + 1).drop_last() =~= es@.take(i as int));
            assert(es@.take(i + 1).last() == es@[i as int]);
            assert(entry_line(es@[i as int], d) == spaces(d) + render(es@[i as int].0, d) + eq_sep()
                + render(es@[i as int].1, d) + seq!['\n']);
            assert(self.text() =~= start + entry_lines(es@.take(i + 1), d));
            i = i + 1;
        }
        assert(es@.take(es@.len() as int) =~= es@);
    }

    /// Writes named fields, one `name = value` line each.
    fn write_fields(&mut self, fs: &Vec<(String, Value)>)
        requires
            old(self).depth() + 2 * fields_nesting(fs@) <= usize::MAX,
        ensures
            final(self).depth() == old(self).depth(),
            final(self).text() == old(self).text() + field_lines(fs@, old(self).depth()),
        decreases fs, 0nat,
    {
        let ghost d = self.depth();
        let ghost start = self.text();
        let mut i: usize = 0;
        while i < fs.len()
            invariant
                i <= fs@.len(),
                self.depth() == d,
                d + 2 * fields_nesting(fs@) <= usize::MAX,
                self.text() == start + field_lines(fs@.take(i as int), d),
            decreases fs@.len() - i,
        {
            proof {
                lemma_fields_nesting(fs@, i as int);
            }
            self.serialize_field(fs[i].0.as_str(), &fs[i].1);
            assert(fs@.take(i + 1).drop_last() =~= fs@.take(i as int));
            assert(fs@.take(i + 1).last() == fs@[i as int]);
            assert(field_line(fs@[i as int], d) == spaces(d) + escape(fs@[i as int].0@) + eq_sep()
                + render(fs@[i as int].1, d) + seq!['\n']);
            assert(self.text() =~= start + field_lines(fs@.take(i + 1), d));
            i = i + 1;
        }
        assert(fs@.take(fs@.len() as int) =~= fs@);
    }

    /// Writes a whole value at the current indentation. Every level it opens
    /// is closed again, so the indentation ends where it started.
    #[verifier::rlimit(40)]
    pub fn serialize(&mut self, v: &Value)
        requires
            old(self).depth() + 2 * nesting(*v) <= usize::MAX,
        ensures
            final(self).depth() == old(self).depth(),
            final(self).text() == old(self).text() + render(*v, old(self).depth()),
        decreases *v, 0nat,
    {
        let ghost d = self.depth();
        let ghost start = self.text();
        match v {
            Value::Null => self.serialize_unit(),
            Value::Bool(b) => self.serialize_bool(*b),
            Value::I64(n) => self.serialize_i64(*n),
            Value::U64(n) => self.serialize_u64(*n),
            Value::Float(t) => self.serialize_float_text(t.as_str()),
            Value::Char(c) => self.serialize_char(*c),
            Value::Str(s) => self.serialize_str(s.as_str()),
            Value::Bytes(bs) => self.serialize_bytes(bs.as_slice()),
            Value::Sequence(xs) => {
                self.serialize_seq();
                self.write_items(xs);
                self.end_seq();
                assert(self.text() =~= start + render(*v, d));
            },
            Value::Mapping(es) => {
                self.serialize_map();
                self.write_entries(es);
                self.end_map();
                assert(self.text() =~= start + render(*v, d));
            },
            Value::Record(fs) => {
                self.serialize_map();
                self.write_fields(fs);
                self.end_map();
                assert(self.text() =~= start + render(*v, d));
            },
            Value::UnitVariant(name) => self.serialize_unit_variant(name.as_str()),
            Value::NewtypeVariant(name, inner) => {
                self.serialize_newtype_variant(name.as_str(), &**inner);
            },
            Value::TupleVariant(name, xs) => {
                self.serialize_tuple_variant(name.as_str());
                self.write_items(xs);
                self.end_tuple_variant();
                assert(self.text() =~= start + render(*v, d));
            },
            Value::StructVariant(name, fs) => {
                self.serialize_struct_variant(name.as_str());
                self.write_fields(fs);
                self.end_struct_variant();
                assert(self.text() =~= start + render(*v, d));
            },
        }
    }
}

/// Declares the standard library's I/O error, carried by [`Error::Io`].
#[verifier::external_type_specification]
#[verifier::external_body]
pub struct ExIoError(std::io::Error);

/// Why producing or storing a text failed.
#[derive(Debug)]
pub enum Error {
    /// A producer could not describe one of its values.
    Message(String),
    /// Storing the finished text failed.
    Io(std::io::Error),
}

/// The prefix of the description of a storage failure.
pub open spec fn io_prefix() -> Seq<char> {
    seq!['I', 'O', ' ', 'e', 'r', 'r', 'o', 'r', ':', ' ']
}

impl Error {
    /// An error that carries a producer's message.
    pub fn custom(msg: String) -> (r: Error)
        ensures
            r is Message,
            r->Message_0@ == msg@,
    {
        Error::Message(msg)
    }

    /// A human-readable description: the message itself, or the storage
    /// failure after `IO error: `.
    pub fn describe(&self) -> (r: String)
        ensures
            self is Message ==> r@ == self->Message_0@,
            self is Io ==> r@.take(10) == io_prefix(),
    {
        match self {
            Error::Message(msg) => msg.clone(),
            Error::Io(err) => {
                let mut r = String::new();
                push_char(&mut r, 'I');
                push_char(&mut r, 'O');
                push_char(&mut r, ' ');
                push_char(&mut r, 'e');
                push_char(&mut r, 'r');
                push_char(&mut r, 'r');
                push_char(&mut r, 'o');
                push_char(&mut r, 'r');
                push_char(&mut r, ':');
                push_char(&mut r, ' ');
                let ghost head = r@;
                assert(head =~= io_prefix());
                let detail = err.to_string();
                r.append(detail.as_str());
                assert(r@.take(10) =~= head);
                r
            },
        }
    }
}

impl From<std::io::Error> for Error {
    fn from(err: std::io::Error) -> (r: Error)
        ensures
            r == Error::Io(err),
    {
        Error::Io(err)
    }
}

impl vstd::std_specs::convert::FromSpecImpl<std::io::Error> for Error {
    open spec fn obeys_from_spec() -> bool {
        true
    }

    open spec fn from_spec(err: std::io::Error) -> Error {
        Error::Io(err)
    }
}

/// The text of a value, written from no indentation. A value describes
/// itself completely, so this always succeeds.
pub fn to_string(value: &Value) -> (r: Result<String, Error>)
    requires
        2 * nesting(*value) <= usize::MAX,
    ensures
        r is Ok,
        r->Ok_0@ == render(*value, 0),
{
    let mut serializer = Serializer::new();
    serializer.serialize(value);
    Ok(serializer.into_output())
}

} // verus!
