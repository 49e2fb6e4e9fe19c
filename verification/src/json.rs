//! A small JSON document model: the shape of data that flows between the
//! transformation engine, the metric decoder, and the probe input builder.
//!
//! Numbers are carried as their decimal text, exactly as they appear in a
//! document; the model never interprets them arithmetically.

use vstd::prelude::*;
use vstd::string::StrSliceExecFns;
use vstd::string::StringExecFns;

verus! {

/// A JSON value. Object fields keep their document order; keys are not
/// required to be unique by the type itself (consumers decide).
pub enum Json {
    Null,
    Bool(bool),
    /// The decimal text of a JSON number, e.g. `5` or `0.25`.
    Num(String),
    Str(String),
    Arr(Vec<Json>),
    Obj(Vec<(String, Json)>),
}

/// First value bound to `key` among `fields`, in document order.
pub open spec fn spec_obj_get(fields: Seq<(String, Json)>, key: Seq<char>) -> Option<Json>
    decreases fields.len(),
{
    if fields.len() == 0 {
        None
    } else if fields[0].0@ == key {
        Some(fields[0].1)
    } else {
        spec_obj_get(fields.skip(1), key)
    }
}

/// Relies on `<str as PartialEq>::eq`: string slices compare equal exactly
/// when their character sequences are equal.
#[verifier::external_body]
pub fn str_eq(a: &str, b: &str) -> (r: bool)
    ensures
        r == (a@ == b@),
{
    a == b
}

/// Relies on `String::push`: appends one character to the string.
#[verifier::external_body]
pub fn push_char(s: &mut String, c: char)
    ensures
        final(s)@ == old(s)@.push(c),
{
    s.push(c);
}

/// Looks a key up in an object's field list, returning the first binding.
pub fn obj_get<'a>(fields: &'a Vec<(String, Json)>, key: &str) -> (r: Option<&'a Json>)
    ensures
        match r {
            Some(v) => spec_obj_get(fields@, key@) == Some(*v),
            None => spec_obj_get(fields@, key@) is None,
        },
{
    let n = fields.len();
    let mut i: usize = 0;
    proof {
        assert(fields@.skip(0) =~= fields@);
    }
    while i < n
        invariant
            0 <= i <= n,
            n == fields@.len(),
            spec_obj_get(fields@, key@) == spec_obj_get(fields@.skip(i as int), key@),
        decreases n - i,
    {
        proof {
            assert(fields@.skip(i as int)[0] == fields@[i as int]);
            assert(fields@.skip(i as int).skip(1) =~= fields@.skip(i as int + 1));
        }
        if str_eq(fields[i].0.as_str(), key) {
            return Some(&fields[i].1);
        }
        i = i + 1;
    }
    proof {
        assert(fields@.skip(n as int) =~= Seq::<(String, Json)>::empty());
    }
    None
}

/// No two top-level fields of an object document share a key. (Documents
/// built by a JSON parser have this by construction; hand-built field
/// lists need not.)
pub open spec fn top_keys_unique(j: Json) -> bool {
    match j {
        Json::Obj(fields) => forall|a: int, b: int|
            0 <= a < b < fields@.len() ==> (#[trigger] fields@[a]).0@ != (
            #[trigger] fields@[b]).0@,
        _ => true,
    }
}

/// The character standing for hex value `n` (lower case), for `0 <= n < 16`.
pub open spec fn hex_digit(n: int) -> char {
    if n == 0 { '0' } else if n == 1 { '1' } else if n == 2 { '2' } else if n == 3 { '3' }
    else if n == 4 { '4' } else if n == 5 { '5' } else if n == 6 { '6' } else if n == 7 { '7' }
    else if n == 8 { '8' } else if n == 9 { '9' } else if n == 10 { 'a' } else if n == 11 { 'b' }
    else if n == 12 { 'c' } else if n == 13 { 'd' } else if n == 14 { 'e' } else { 'f' }
}

/// How one character appears inside a JSON string literal.
pub open spec fn esc_char(c: char) -> Seq<char> {
    if c == '"' { seq!['\\', '"'] }
    else if c == '\\' { seq!['\\', '\\'] }
    else if c == '\n' { seq!['\\', 'n'] }
    else if c == '\r' { seq!['\\', 'r'] }
    else if c == '\t' { seq!['\\', 't'] }
    else if (c as int) < 32 {
        seq!['\\', 'u', '0', '0', hex_digit(c as int / 16), hex_digit(c as int % 16)]
    } else { seq![c] }
}

/// The body of a JSON string literal for the character sequence `s`.
pub open spec fn esc_str(s: Seq<char>) -> Seq<char>
    decreases s.len(),
{
    if s.len() == 0 {
        Seq::empty()
    } else {
        esc_char(s[0]) + esc_str(s.skip(1))
    }
}

/// A complete JSON string literal: quotes around the escaped body.
pub open spec fn json_quote(s: Seq<char>) -> Seq<char> {
    seq!['"'] + esc_str(s) + seq!['"']
}

/// The serialized text of a JSON value (no whitespace between tokens).
pub open spec fn spec_json_text(j: Json) -> Seq<char>
    decreases j,
{
    match j {
        Json::Null => "null"@,
        Json::Bool(b) => if b { "true"@ } else { "false"@ },
        Json::Num(s) => s@,
        Json::Str(s) => json_quote(s@),
        Json::Arr(items) => seq!['['] + spec_items_text(items@) + seq![']'],
        Json::Obj(fields) => seq!['{'] + spec_fields_text(fields@) + seq!['}'],
    }
}

/// Comma-joined serialized array items.
pub open spec fn spec_items_text(items: Seq<Json>) -> Seq<char>
    decreases items,
{
    if items.len() == 0 {
        Seq::empty()
    } else if items.len() == 1 {
        spec_json_text(items[0])
    } else {
        spec_json_text(items[0]) + seq![','] + spec_items_text(items.skip(1))
    }
}

/// Comma-joined serialized object fields (`"key":value`).
pub open spec fn spec_fields_text(fields: Seq<(String, Json)>) -> Seq<char>
    decreases fields,
{
    if fields.len() == 0 {
        Seq::empty()
    } else if fields.len() == 1 {
        json_quote(fields[0].0@) + seq![':'] + spec_json_text(fields[0].1)
    } else {
        json_quote(fields[0].0@) + seq![':'] + spec_json_text(fields[0].1) + seq![',']
            + spec_fields_text(fields.skip(1))
    }
}

/// Appends the escaped form of `c` to `out`.
fn push_escaped_char(out: &mut String, c: char)
    ensures
        final(out)@ == old(out)@ + esc_char(c),
{
    if c == '"' {
        push_char(out, '\\');
        push_char(out, '"');
    } else if c == '\\' {
        push_char(out, '\\');
        push_char(out, '\\');
    } else if c == '\n' {
        push_char(out, '\\');
        push_char(out, 'n');
    } else if c == '\r' {
        push_char(out, '\\');
        push_char(out, 'r');
    } else if c == '\t' {
        push_char(out, '\\');
        push_char(out, 't');
    } else if (c as u32) < 32 {
        push_char(out, '\\');
        push_char(out, 'u');
        push_char(out, '0');
        push_char(out, '0');
        push_char(out, hex_digit_char((c as u32 / 16) as u8));
        push_char(out, hex_digit_char((c as u32 % 16) as u8));
    } else {
        push_char(out, c);
    }
    proof {
        assert(final(out)@ =~= old(out)@ + esc_char(c));
    }
}

/// The hex digit character for `0 <= n < 16`.
fn hex_digit_char(n: u8) -> (r: char)
    requires
        n < 16,
    ensures
        r == hex_digit(n as int),
{
    if n == 0 { '0' } else if n == 1 { '1' } else if n == 2 { '2' } else if n == 3 { '3' }
    else if n == 4 { '4' } else if n == 5 { '5' } else if n == 6 { '6' } else if n == 7 { '7' }
    else if n == 8 { '8' } else if n == 9 { '9' } else if n == 10 { 'a' } else if n == 11 { 'b' }
    else if n == 12 { 'c' } else if n == 13 { 'd' } else if n == 14 { 'e' } else { 'f' }
}

/// Appends a complete JSON string literal for `s` to `out`.
fn push_quoted(out: &mut String, s: &str)
    ensures
        final(out)@ == old(out)@ + json_quote(s@),
{
    push_char(out, '"');
    let n = s.unicode_len();
    let mut i: usize = 0;
    proof {
        assert(s@.skip(0) =~= s@);
    }
    while i < n
        invariant
            0 <= i <= n,
            n == s@.len(),
            out@ + esc_str(s@.skip(i as int)) == old(out)@ + seq!['"'] + esc_str(s@),
        decreases n - i,
    {
        let c = s.get_char(i);
        proof {
            assert(s@.skip(i as int)[0] == s@[i as int]);
            assert(s@.skip(i as int).skip(1) =~= s@.skip(i as int + 1));
        }
        push_escaped_char(out, c);
        i = i + 1;
    }
    proof {
        assert(s@.skip(n as int) =~= Seq::<char>::empty());
        assert(out@ + esc_str(s@.skip(n as int)) =~= out@);
    }
    push_char(out, '"');
    proof {
        assert(final(out)@ =~= old(out)@ + json_quote(s@));
    }
}

/// Serializes a JSON value as compact text.
pub fn json_to_string(j: &Json) -> (r: String)
    ensures
        r@ == spec_json_text(*j),
{
    let mut out = String::new();
    push_json(&mut out, j);
    proof {
        assert(Seq::<char>::empty() + spec_json_text(*j) =~= spec_json_text(*j));
    }
    out
}

/// Appends the serialized text of `j` to `out`.
fn push_json(out: &mut String, j: &Json)
    ensures
        final(out)@ == old(out)@ + spec_json_text(*j),
    decreases *j,
{
    match j {
        Json::Null => {
            out.append("null");
        },
        Json::Bool(b) => {
            if *b {
                out.append("true");
            } else {
                out.append("false");
            }
        },
        Json::Num(s) => {
            out.append(s.as_str());
        },
        Json::Str(s) => {
            push_quoted(out, s.as_str());
        },
        Json::Arr(items) => {
            push_char(out, '[');
            let n = items.len();
            let mut i: usize = 0;
            proof {
                assert(items@.skip(0) =~= items@);
            }
            while i < n
                invariant
                    0 <= i <= n,
                    n == items@.len(),
                    *j == Json::Arr(*items),
                    out@ + spec_items_text(items@.skip(i as int)) == old(out)@ + seq!['[']
                        + spec_items_text(items@),
                decreases n - i,
            {
                proof {
                    assert(items@.skip(i as int)[0] == items@[i as int]);
                    assert(items@.skip(i as int).skip(1) =~= items@.skip(i as int + 1));
                    assert(decreases_to!(*j => j->Arr_0));
                    assert(j->Arr_0 == *items);
                    assert(decreases_to!(*items => items@));
                    assert(decreases_to!(items@ => items@[i as int]));
                }
                push_json(out, &items[i]);
                if i + 1 < n {
                    push_char(out, ',');
                }
                i = i + 1;
            }
            proof {
                assert(items@.skip(n as int) =~= Seq::<Json>::empty());
            }
            push_char(out, ']');
            proof {
                assert(final(out)@ =~= old(out)@ + spec_json_text(*j));
            }
        },
        Json::Obj(fields) => {
            push_char(out, '{');
            let n = fields.len();
            let mut i: usize = 0;
            proof {
                assert(fields@.skip(0) =~= fields@);
            }
            while i < n
                invariant
                    0 <= i <= n,
                    n == fields@.len(),
                    *j == Json::Obj(*fields),
                    out@ + spec_fields_text(fields@.skip(i as int)) == old(out)@ + seq!['{']
                        + spec_fields_text(fields@),
                decreases n - i,
            {
                proof {
                    assert(fields@.skip(i as int)[0] == fields@[i as int]);
                    assert(fields@.skip(i as int).skip(1) =~= fields@.skip(i as int + 1));
                    assert(decreases_to!(*j => j->Obj_0));
                    assert(j->Obj_0 == *fields);
                    assert(decreases_to!(*fields => fields@));
                    assert(decreases_to!(fields@ => fields@[i as int]));
                    assert(decreases_to!(fields@[i as int] => fields@[i as int].1));
                }
                push_quoted(out, fields[i].0.as_str());
                push_char(out, ':');
                push_json(out, &fields[i].1);
                if i + 1 < n {
                    push_char(out, ',');
                }
                i = i + 1;
            }
            proof {
                assert(fields@.skip(n as int) =~= Seq::<(String, Json)>::empty());
            }
            push_char(out, '}');
            proof {
                assert(final(out)@ =~= old(out)@ + spec_json_text(*j));
            }
        },
    }
}

} // verus!
