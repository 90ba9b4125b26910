//! JSON value model and renderer.
//!
//! Form fields and response envelopes are JSON values.  `JsonValue` is the
//! executable representation; `JsonView` is its mathematical model, with
//! strings as character sequences and one unbounded integer shape.  The
//! renderer produces the exact wire text of a value; its output is pinned,
//! character by character, by the `spec_render` family of specification
//! functions over the model.

use vstd::prelude::*;

verus! {

/// A JSON value.  Numbers are split into signed and unsigned variants,
/// mirroring the two integer shapes a JSON number can arrive in on the
/// wire.
#[derive(Debug, PartialEq)]
pub enum JsonValue {
    Null,
    Bool(bool),
    Int(i64),
    UInt(u64),
    Str(String),
    Arr(Vec<JsonValue>),
    Obj(Vec<(String, JsonValue)>),
}

/// The mathematical model of a JSON value.  Both integer shapes of
/// `JsonValue` collapse into one unbounded integer.
pub enum JsonView {
    Null,
    Bool(bool),
    Int(int),
    Str(Seq<char>),
    Arr(Seq<JsonView>),
    Obj(Seq<(Seq<char>, JsonView)>),
}

impl JsonValue {
    /// The model of this value.
    pub open spec fn dv(self) -> JsonView
        decreases self, 1int,
    {
        match self {
            JsonValue::Null => JsonView::Null,
            JsonValue::Bool(b) => JsonView::Bool(b),
            JsonValue::Int(n) => JsonView::Int(n as int),
            JsonValue::UInt(n) => JsonView::Int(n as int),
            JsonValue::Str(s) => JsonView::Str(s@),
            JsonValue::Arr(items) => JsonView::Arr(dv_seq(items@)),
            JsonValue::Obj(fields) => JsonView::Obj(dv_entries(fields@)),
        }
    }
}

/// Models of the elements of an array.
pub open spec fn dv_seq(s: Seq<JsonValue>) -> Seq<JsonView>
    decreases s, 0int,
{
    if s.len() == 0 { Seq::empty() } else { dv_seq(s.drop_last()).push(s.last().dv()) }
}

/// Models of the members of an object.
pub open spec fn dv_entries(s: Seq<(String, JsonValue)>) -> Seq<(Seq<char>, JsonView)>
    decreases s, 0int,
{
    if s.len() == 0 { Seq::empty() } else { dv_entries(s.drop_last()).push((s.last().0@, s.last().1.dv())) }
}

/// `dv_seq` maps the model over the elements, index by index.
pub proof fn lemma_dv_seq(s: Seq<JsonValue>)
    ensures
        dv_seq(s).len() == s.len(),
        forall|i: int| 0 <= i < s.len() ==> dv_seq(s)[i] == s[i].dv(),
    decreases s.len(),
{
    if s.len() > 0 {
        lemma_dv_seq(s.drop_last());
    }
}

/// `dv_entries` maps the model over the members, index by index.
pub proof fn lemma_dv_entries(s: Seq<(String, JsonValue)>)
    ensures
        dv_entries(s).len() == s.len(),
        forall|i: int| 0 <= i < s.len() ==> dv_entries(s)[i] == (s[i].0@, s[i].1.dv()),
    decreases s.len(),
{
    if s.len() > 0 {
        lemma_dv_entries(s.drop_last());
    }
}

/// Decimal digit character of `d` (for `0 <= d <= 9`).
pub open spec fn spec_digit(d: int) -> char {
    if d == 0 { '0' }
    else if d == 1 { '1' }
    else if d == 2 { '2' }
    else if d == 3 { '3' }
    else if d == 4 { '4' }
    else if d == 5 { '5' }
    else if d == 6 { '6' }
    else if d == 7 { '7' }
    else if d == 8 { '8' }
    else { '9' }
}

/// Decimal rendering of a non-negative integer, most significant digit
/// first, with no leading zeros (a lone zero renders as "0").
pub open spec fn spec_digits(n: int) -> Seq<char>
    decreases n,
{
    if n < 10 { seq![spec_digit(n)] } else { spec_digits(n / 10).push(spec_digit(n % 10)) }
}

/// Decimal rendering of an integer: a leading '-' for negative values,
/// then the digits of the magnitude.
pub open spec fn spec_render_int(n: int) -> Seq<char> {
    if n < 0 { seq!['-'] + spec_digits(-n) } else { spec_digits(n) }
}

/// Hexadecimal digit character of `d` (for `0 <= d <= 15`), lower case.
pub open spec fn spec_hex_digit(d: int) -> char {
    if d < 10 { spec_digit(d) }
    else if d == 10 { 'a' }
    else if d == 11 { 'b' }
    else if d == 12 { 'c' }
    else if d == 13 { 'd' }
    else if d == 14 { 'e' }
    else { 'f' }
}

/// JSON escape of a single string character: the two-character escapes for
/// quote, backslash and the common control characters, `\u00XX` for the
/// remaining control characters, and the character itself otherwise.
pub open spec fn spec_escape_char(c: char) -> Seq<char> {
    if c == '"' { seq!['\\', '"'] }
    else if c == '\\' { seq!['\\', '\\'] }
    else if c == '\n' { seq!['\\', 'n'] }
    else if c == '\r' { seq!['\\', 'r'] }
    else if c == '\t' { seq!['\\', 't'] }
    else if (c as int) < 0x20 {
        seq!['\\', 'u', '0', '0', spec_hex_digit(c as int / 16), spec_hex_digit(c as int % 16)]
    } else { seq![c] }
}

/// JSON escape of a whole string body (without the surrounding quotes).
pub open spec fn spec_escape(s: Seq<char>) -> Seq<char>
    decreases s.len(),
{
    if s.len() == 0 { Seq::empty() } else { spec_escape(s.drop_last()) + spec_escape_char(s.last()) }
}

/// The exact wire text of a JSON value.
pub open spec fn spec_render(v: JsonView) -> Seq<char>
    decreases v, 1int,
{
    match v {
        JsonView::Null => seq!['n', 'u', 'l', 'l'],
        JsonView::Bool(b) => if b { seq!['t', 'r', 'u', 'e'] } else { seq!['f', 'a', 'l', 's', 'e'] },
        JsonView::Int(n) => spec_render_int(n),
        JsonView::Str(s) => seq!['"'] + spec_escape(s) + seq!['"'],
        JsonView::Arr(items) => seq!['['] + spec_render_items(items) + seq![']'],
        JsonView::Obj(fields) => seq!['{'] + spec_render_entries(fields) + seq!['}'],
    }
}

/// Comma-separated renderings of the elements of an array.
pub open spec fn spec_render_items(s: Seq<JsonView>) -> Seq<char>
    decreases s, 0int,
{
    if s.len() == 0 { Seq::empty() }
    else if s.len() == 1 { spec_render(s[0]) }
    else { spec_render_items(s.drop_last()) + seq![','] + spec_render(s.last()) }
}

/// One `"key":value` member of an object.
pub open spec fn spec_render_entry(e: (Seq<char>, JsonView)) -> Seq<char>
    decreases e, 1int,
{
    seq!['"'] + spec_escape(e.0) + seq!['"', ':'] + spec_render(e.1)
}

/// Comma-separated members of an object.
pub open spec fn spec_render_entries(s: Seq<(Seq<char>, JsonView)>) -> Seq<char>
    decreases s, 0int,
{
    if s.len() == 0 { Seq::empty() }
    else if s.len() == 1 { spec_render_entry(s[0]) }
    else { spec_render_entries(s.drop_last()) + seq![','] + spec_render_entry(s.last()) }
}

/// The value of the first member named `key` of a modeled object, if any.
pub open spec fn view_lookup(entries: Seq<(Seq<char>, JsonView)>, key: Seq<char>) -> Option<JsonView>
    decreases entries.len(),
{
    if entries.len() == 0 { Option::None }
    else if entries.first().0 == key { Option::Some(entries.first().1) }
    else { view_lookup(entries.drop_first(), key) }
}

/// The value of the first member named `key`, if any (executable-level
/// counterpart of `view_lookup`).
pub open spec fn spec_lookup(fields: Seq<(String, JsonValue)>, key: Seq<char>) -> Option<JsonValue>
    decreases fields.len(),
{
    if fields.len() == 0 { Option::None }
    else if fields.first().0@ == key { Option::Some(fields.first().1) }
    else { spec_lookup(fields.drop_first(), key) }
}

/// The two lookups agree through the model.
pub proof fn lemma_lookup_view(fields: Seq<(String, JsonValue)>, key: Seq<char>)
    ensures
        match spec_lookup(fields, key) {
            Option::Some(v) => view_lookup(dv_entries(fields), key) == Option::Some(v.dv()),
            Option::None => view_lookup(dv_entries(fields), key) is None,
        },
    decreases fields.len(),
{
    lemma_dv_entries(fields);
    if fields.len() > 0 {
        lemma_dv_entries(fields.drop_first());
        assert(dv_entries(fields).first() == (fields.first().0@, fields.first().1.dv()));
        if fields.first().0@ != key {
            lemma_lookup_view(fields.drop_first(), key);
            assert(dv_entries(fields).drop_first() =~= dv_entries(fields.drop_first()));
        }
    }
}

/// Skipping members whose names all miss the key leaves the lookup result
/// unchanged.
proof fn lemma_lookup_skip(fields: Seq<(String, JsonValue)>, key: Seq<char>, i: int)
    requires
        0 <= i <= fields.len(),
        forall|j: int| 0 <= j < i ==> fields[j].0@ != key,
    ensures
        spec_lookup(fields, key) == spec_lookup(fields.skip(i), key),
    decreases i,
{
    if i == 0 {
        assert(fields.skip(0) =~= fields);
    } else {
        assert(fields.first().0@ != key);
        assert(forall|j: int| 0 <= j < i - 1 ==> fields.drop_first()[j] == fields[j + 1]);
        lemma_lookup_skip(fields.drop_first(), key, i - 1);
        assert(fields.drop_first().skip(i - 1) =~= fields.skip(i));
    }
}

/// Index of the first member named `key`, if any.
pub fn find_field(fields: &Vec<(String, JsonValue)>, key: &str) -> (r: Option<usize>)
    ensures
        match r {
            Option::Some(i) => i < fields@.len() && fields@[i as int].0@ == key@
                && spec_lookup(fields@, key@) == Option::Some(fields@[i as int].1),
            Option::None => spec_lookup(fields@, key@) is None,
        },
{
    let key_owned = key.to_owned();
    let len = fields.len();
    let mut i: usize = 0;
    while i < len
        invariant
            i <= len,
            len == fields@.len(),
            key_owned@ == key@,
            forall|j: int| 0 <= j < i ==> fields@[j].0@ != key@,
        decreases len - i,
    {
        if fields[i].0 == key_owned {
            proof {
                lemma_lookup_skip(fields@, key@, i as int);
                assert(fields@.skip(i as int).first() == fields@[i as int]);
            }
            return Option::Some(i);
        }
        i = i + 1;
    }
    proof {
        lemma_lookup_skip(fields@, key@, len as int);
        assert(fields@.skip(len as int).len() == 0);
    }
    Option::None
}

/// The signed machine integer a modeled JSON value holds, if it holds an
/// integer that fits `i64`.
pub open spec fn view_as_i64(v: JsonView) -> Option<i64> {
    match v {
        JsonView::Int(n) => if -0x8000_0000_0000_0000 <= n <= 0x7fff_ffff_ffff_ffff {
            Option::Some(n as i64)
        } else {
            Option::None
        },
        _ => Option::None,
    }
}

/// The signed integer a JSON value holds, if any.
pub fn as_i64(v: &JsonValue) -> (r: Option<i64>)
    ensures
        r == view_as_i64(v.dv()),
{
    match v {
        JsonValue::Int(n) => Option::Some(*n),
        JsonValue::UInt(u) => if *u <= 0x7fff_ffff_ffff_ffff { Option::Some(*u as i64) } else { Option::None },
        _ => Option::None,
    }
}

/// Decimal digit as a one-character string slice.
fn digit_str(d: u64) -> (s: &'static str)
    requires
        d < 10,
    ensures
        s@ == seq![spec_digit(d as int)],
{
    proof {
        reveal_strlit("0");
        reveal_strlit("1");
        reveal_strlit("2");
        reveal_strlit("3");
        reveal_strlit("4");
        reveal_strlit("5");
        reveal_strlit("6");
        reveal_strlit("7");
        reveal_strlit("8");
        reveal_strlit("9");
    }
    let s: &'static str = if d == 0 { "0" }
    else if d == 1 { "1" }
    else if d == 2 { "2" }
    else if d == 3 { "3" }
    else if d == 4 { "4" }
    else if d == 5 { "5" }
    else if d == 6 { "6" }
    else if d == 7 { "7" }
    else if d == 8 { "8" }
    else { "9" };
    proof {
        assert(s@ =~= seq![spec_digit(d as int)]);
    }
    s
}

/// Hexadecimal digit as a one-character string slice.
fn hex_digit_str(d: u64) -> (s: &'static str)
    requires
        d < 16,
    ensures
        s@ == seq![spec_hex_digit(d as int)],
{
    proof {
        reveal_strlit("a");
        reveal_strlit("b");
        reveal_strlit("c");
        reveal_strlit("d");
        reveal_strlit("e");
        reveal_strlit("f");
    }
    let s: &'static str = if d < 10 { digit_str(d) }
    else if d == 10 { "a" }
    else if d == 11 { "b" }
    else if d == 12 { "c" }
    else if d == 13 { "d" }
    else if d == 14 { "e" }
    else { "f" };
    proof {
        assert(s@ =~= seq![spec_hex_digit(d as int)]);
    }
    s
}

/// Render an unsigned integer in decimal.
pub fn render_u64(n: u64) -> (out: String)
    ensures
        out@ == spec_digits(n as int),
    decreases n,
{
    if n < 10 {
        String::from_str(digit_str(n))
    } else {
        let mut out = render_u64(n / 10);
        out.append(digit_str(n % 10));
        proof {
            assert(out@ =~= spec_digits(n as int));
        }
        out
    }
}

/// Render a signed integer in decimal.
pub fn render_i64(n: i64) -> (out: String)
    ensures
        out@ == spec_render_int(n as int),
{
    if n >= 0 {
        render_u64(n as u64)
    } else {
        proof {
            reveal_strlit("-");
        }
        let mut out = String::from_str("-");
        let mag: u64 = if n == i64::MIN { 0x8000_0000_0000_0000u64 } else { (-n) as u64 };
        let digits = render_u64(mag);
        out.append(digits.as_str());
        proof {
            assert(out@ =~= spec_render_int(n as int));
        }
        out
    }
}

/// JSON-escape the body of a string (no surrounding quotes added).
pub fn escape_str(s: &str) -> (out: String)
    ensures
        out@ == spec_escape(s@),
{
    let len = s.unicode_len();
    let mut out = String::new();
    let mut i: usize = 0;
    while i < len
        invariant
            i <= len,
            len == s@.len(),
            out@ == spec_escape(s@.take(i as int)),
        decreases len - i,
    {
        let c = s.get_char(i);
        if c == '"' {
            proof { reveal_strlit("\\\""); }
            out.append("\\\"");
        } else if c == '\\' {
            proof { reveal_strlit("\\\\"); }
            out.append("\\\\");
        } else if c == '\n' {
            proof { reveal_strlit("\\n"); }
            out.append("\\n");
        } else if c == '\r' {
            proof { reveal_strlit("\\r"); }
            out.append("\\r");
        } else if c == '\t' {
            proof { reveal_strlit("\\t"); }
            out.append("\\t");
        } else {
            let code = c as u32;
            if code < 0x20 {
                proof { reveal_strlit("\\u00"); }
                out.append("\\u00");
                out.append(hex_digit_str((code / 16) as u64));
                out.append(hex_digit_str((code % 16) as u64));
            } else {
                out.append(s.substring_char(i, i + 1));
            }
        }
        proof {
            assert(s@.take(i + 1).drop_last() =~= s@.take(i as int));
            assert(out@ =~= spec_escape(s@.take(i + 1)));
        }
        i = i + 1;
    }
    proof {
        assert(s@.take(len as int) =~= s@);
    }
    out
}

/// Render a string value, quotes included.
fn render_string(s: &str) -> (out: String)
    ensures
        out@ == seq!['"'] + spec_escape(s@) + seq!['"'],
{
    proof {
        reveal_strlit("\"");
    }
    let mut out = String::from_str("\"");
    let body = escape_str(s);
    out.append(body.as_str());
    out.append("\"");
    proof {
        assert(out@ =~= seq!['"'] + spec_escape(s@) + seq!['"']);
    }
    out
}

/// Render a JSON value to its exact wire text.
pub fn render_value(v: &JsonValue) -> (out: String)
    ensures
        out@ == spec_render(v.dv()),
    decreases *v, 1int,
{
    match v {
        JsonValue::Null => {
            proof { reveal_strlit("null"); }
            let out = String::from_str("null");
            proof { assert(out@ =~= spec_render(v.dv())); }
            out
        },
        JsonValue::Bool(b) => {
            proof {
                reveal_strlit("true");
                reveal_strlit("false");
            }
            let out = if *b { String::from_str("true") } else { String::from_str("false") };
            proof { assert(out@ =~= spec_render(v.dv())); }
            out
        },
        JsonValue::Int(n) => render_i64(*n),
        JsonValue::UInt(n) => render_u64(*n),
        JsonValue::Str(s) => render_string(s.as_str()),
        JsonValue::Arr(items) => {
            proof {
                reveal_strlit("[");
                reveal_strlit("]");
            }
            let mut out = String::from_str("[");
            let mut i: usize = 0;
            while i < items.len()
                invariant
                    i <= items@.len(),
                    out@ == seq!['['] + spec_render_items(dv_seq(items@).take(i as int)),
                    *v == JsonValue::Arr(*items),
                decreases items@.len() - i,
            {
                proof {
                    lemma_dv_seq(items@);
                }
                if i > 0 {
                    proof { reveal_strlit(","); }
                    out.append(",");
                }
                proof {
                    let vs = *items;
                    assert(*v == JsonValue::Arr(vs));
                    assert(decreases_to!(*v => (*v)->Arr_0));
                    assert((*v)->Arr_0 == vs);
                    assert(decreases_to!(vs => vs@));
                    assert(decreases_to!(vs@ => vs@[i as int]));
                    assert(decreases_to!(*v, 1int => items@[i as int], 1int));
                }
                let piece = render_value(&items[i]);
                out.append(piece.as_str());
                proof {
                    assert(dv_seq(items@).take(i + 1).drop_last() =~= dv_seq(items@).take(i as int));
                    assert(dv_seq(items@).take(i + 1).last() == items@[i as int].dv());
                    assert(out@ =~= seq!['['] + spec_render_items(dv_seq(items@).take(i + 1)));
                }
                i = i + 1;
            }
            out.append("]");
            proof {
                lemma_dv_seq(items@);
                assert(dv_seq(items@).take(items@.len() as int) =~= dv_seq(items@));
                assert(out@ =~= spec_render(v.dv()));
            }
            out
        },
        JsonValue::Obj(fields) => {
            proof {
                reveal_strlit("{");
                reveal_strlit("}");
            }
            let mut out = String::from_str("{");
            let mut i: usize = 0;
            while i < fields.len()
                invariant
                    i <= fields@.len(),
                    out@ == seq!['{'] + spec_render_entries(dv_entries(fields@).take(i as int)),
                    *v == JsonValue::Obj(*fields),
                decreases fields@.len() - i,
            {
                proof {
                    lemma_dv_entries(fields@);
                }
                if i > 0 {
                    proof { reveal_strlit(","); }
                    out.append(",");
                }
                let key = render_string(fields[i].0.as_str());
                out.append(key.as_str());
                proof { reveal_strlit(":"); }
                out.append(":");
                proof {
                    let fs = *fields;
                    assert(*v == JsonValue::Obj(fs));
                    assert(decreases_to!(*v => (*v)->Obj_0));
                    assert((*v)->Obj_0 == fs);
                    assert(decreases_to!(fs => fs@));
                    assert(decreases_to!(fs@ => fs@[i as int]));
                    assert(decreases_to!(fs@[i as int] => fs@[i as int].1));
                    assert(decreases_to!(*v, 1int => fields@[i as int].1, 1int));
                }
                let piece = render_value(&fields[i].1);
                out.append(piece.as_str());
                proof {
                    assert(dv_entries(fields@).take(i + 1).drop_last() =~= dv_entries(fields@).take(i as int));
                    assert(dv_entries(fields@).take(i + 1).last() == (fields@[i as int].0@, fields@[i as int].1.dv()));
                    assert(spec_render_entry((fields@[i as int].0@, fields@[i as int].1.dv())) == seq!['"']
                        + spec_escape(fields@[i as int].0@) + seq!['"', ':']
                        + spec_render(fields@[i as int].1.dv()));
                    assert(out@ =~= seq!['{'] + spec_render_entries(dv_entries(fields@).take(i + 1)));
                }
                i = i + 1;
            }
            out.append("}");
            proof {
                lemma_dv_entries(fields@);
                assert(dv_entries(fields@).take(fields@.len() as int) =~= dv_entries(fields@));
                assert(out@ =~= spec_render(v.dv()));
            }
            out
        },
    }
}

} // verus!
