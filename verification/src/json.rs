//! The library's own JSON model.
//!
//! Responses from the exchange arrive as JSON text. Parsing the text is the
//! job of `serde_json`, called through the trusted items at the bottom of
//! this file; everything after the parse — walking the tree, looking fields
//! up, reading numbers that may arrive quoted or bare — is the library's own
//! verified code over [`Json`]. The mathematical twin of a tree is a
//! [`JsonVal`], and every contract in the crate speaks of those.

use vstd::prelude::*;

use crate::Error;

verus! {

/// The mathematical JSON tree: what a [`Json`] value denotes. Numbers are
/// kept as their decimal text, exactly as they stood in the document.
pub enum JsonVal {
    Null,
    Bool(bool),
    Num(Seq<char>),
    Str(Seq<char>),
    Arr(Seq<JsonVal>),
    Obj(Seq<(Seq<char>, JsonVal)>),
}

/// A decoded JSON document. Object fields stand in the order the parser
/// hands them over.
pub enum Json {
    Null,
    Bool(bool),
    Num(String),
    Str(String),
    Arr(Vec<Json>),
    Obj(Vec<(String, Json)>),
}

/// The ghost tree a [`Json`] value denotes.
pub open spec fn json_view(j: Json) -> JsonVal
    decreases j,
{
    match j {
        Json::Null => JsonVal::Null,
        Json::Bool(b) => JsonVal::Bool(b),
        Json::Num(t) => JsonVal::Num(t@),
        Json::Str(s) => JsonVal::Str(s@),
        Json::Arr(v) => JsonVal::Arr(elements_view(v@)),
        Json::Obj(v) => JsonVal::Obj(entries_view(v@)),
    }
}

/// The elements of an array, as the ghost tree sees them.
pub open spec fn elements_view(s: Seq<Json>) -> Seq<JsonVal>
    decreases s,
{
    Seq::new(
        s.len(),
        |i: int|
            if 0 <= i < s.len() {
                json_view(s[i])
            } else {
                JsonVal::Null
            },
    )
}

/// The entries of an object, as the ghost tree sees them.
pub open spec fn entries_view(s: Seq<(String, Json)>) -> Seq<(Seq<char>, JsonVal)>
    decreases s,
{
    Seq::new(
        s.len(),
        |i: int|
            if 0 <= i < s.len() {
                (s[i].0@, json_view(s[i].1))
            } else {
                (Seq::empty(), JsonVal::Null)
            },
    )
}

/// The first field named `key` of an object tree, if any.
pub open spec fn field_of(t: JsonVal, key: Seq<char>) -> Option<JsonVal> {
    match t {
        JsonVal::Obj(fs) => lookup_field(fs, key),
        _ => None,
    }
}

/// The first field named `key`, if any.
pub open spec fn lookup_field(fields: Seq<(Seq<char>, JsonVal)>, key: Seq<char>) -> Option<
    JsonVal,
>
    decreases fields.len(),
{
    if fields.len() == 0 {
        None
    } else if fields[0].0 == key {
        Some(fields[0].1)
    } else {
        lookup_field(fields.drop_first(), key)
    }
}

proof fn lemma_lookup_skip(fields: Seq<(Seq<char>, JsonVal)>, key: Seq<char>, i: int)
    requires
        0 <= i <= fields.len(),
        forall|j: int| 0 <= j < i ==> #[trigger] fields[j].0 != key,
    ensures
        lookup_field(fields, key) == lookup_field(fields.skip(i), key),
    decreases i,
{
    if i > 0 {
        lemma_lookup_skip(fields.drop_first(), key, i - 1);
        assert(fields.drop_first().skip(i - 1) =~= fields.skip(i));
    } else {
        assert(fields.skip(0) =~= fields);
    }
}

/// Are the two strings the same sequence of characters?
pub fn str_eq(a: &str, b: &str) -> (r: bool)
    ensures
        r == (a@ == b@),
{
    let a_len = a.unicode_len();
    let b_len = b.unicode_len();
    if a_len != b_len {
        return false;
    }
    for i in 0..a_len
        invariant
            a_len == a@.len(),
            b_len == b@.len(),
            a_len == b_len,
            forall|j: int| 0 <= j < i ==> a@[j] == b@[j],
    {
        if a.get_char(i) != b.get_char(i) {
            return false;
        }
    }
    proof {
        assert(a@ =~= b@);
    }
    true
}

impl Json {
    /// The first field named `key` of an object, `None` on any other kind
    /// of value.
    #[verifier::loop_isolation(false)]
    pub fn get<'a>(&'a self, key: &str) -> (r: Option<&'a Json>)
        ensures
            match *self {
                Json::Obj(_) => match lookup_field(self.obj_entries(), key@) {
                    Some(jv) => r is Some && json_view(*r->Some_0) == jv,
                    None => r is None,
                },
                _ => r is None,
            },
    {
        match self {
            Json::Obj(fields) => {
                let n = fields.len();
                for i in 0..n
                    invariant
                        n == fields@.len(),
                        forall|j: int|
                            0 <= j < i ==> #[trigger] entries_view(fields@)[j].0 != key@,
                    {
                    if str_eq(fields[i].0.as_str(), key) {
                        proof {
                            let entries = entries_view(fields@);
                            lemma_lookup_skip(entries, key@, i as int);
                            let rest = entries.skip(i as int);
                            assert(rest.len() > 0);
                            assert(rest[0] == entries[i as int]);
                            assert(entries[i as int].0 == fields@[i as int].0@);
                            assert(rest[0].0 == key@);
                            assert(lookup_field(rest, key@) == Some(rest[0].1));
                            assert(entries[i as int].1 == json_view(fields@[i as int].1));
                            assert(self.obj_entries() =~= entries);
                        }
                        return Some(&fields[i].1);
                    }
                }
                proof {
                    lemma_lookup_skip(entries_view(fields@), key@, n as int);
                    assert(entries_view(fields@).skip(n as int).len() == 0);
                }
                None
            },
            _ => None,
        }
    }

    /// The entries of this object, as the ghost tree sees them. Only
    /// meaningful on [`Json::Obj`].
    pub open spec fn obj_entries(&self) -> Seq<(Seq<char>, JsonVal)> {
        match *self {
            Json::Obj(v) => entries_view(v@),
            _ => Seq::empty(),
        }
    }
}

#[verifier::external_type_specification]
#[verifier::external_body]
pub struct ExValue(serde_json::Value);

/// What a JSON document spells, `None` when the text is not valid JSON.
/// Stands for what `serde_json::from_str` reads from the text, which is a
/// function of the text alone.
pub uninterp spec fn json_parsed(s: Seq<char>) -> Option<JsonVal>;

/// The tree a `serde_json::Value` holds, with each number as the decimal
/// text `serde_json` prints for it.
pub uninterp spec fn value_tree(v: serde_json::Value) -> JsonVal;

/// Relies on `serde_json::from_str::<Value>`: it succeeds exactly on
/// valid JSON text, and the value it reads is a function of the text alone.
#[verifier::external_body]
fn from_str_value(s: &str) -> (r: Option<serde_json::Value>)
    ensures
        r is Some <==> json_parsed(s@) is Some,
        r matches Some(v) ==> json_parsed(s@) == Some(value_tree(v)),
{
    serde_json::from_str::<serde_json::Value>(s).ok()
}

/// Relies on the shape of `serde_json::Value`: each variant is moved into
/// the library's own tree unchanged, a number as the text its `Display`
/// prints, and object entries in the order the map iterates them.
#[verifier::external_body]
fn json_of_value(v: serde_json::Value) -> (j: Json)
    ensures
        json_view(j) == value_tree(v),
{
    match v {
        serde_json::Value::Null => Json::Null,
        serde_json::Value::Bool(b) => Json::Bool(b),
        serde_json::Value::Number(n) => Json::Num(n.to_string()),
        serde_json::Value::String(s) => Json::Str(s),
        serde_json::Value::Array(a) => Json::Arr(a.into_iter().map(json_of_value).collect()),
        serde_json::Value::Object(o) => Json::Obj(
            o.into_iter().map(|e| (e.0, json_of_value(e.1))).collect(),
        ),
    }
}

/// Parse a response body. `Ok` exactly on valid JSON, and the tree handed
/// back is the one the text spells.
pub fn parse_json(s: &str) -> (r: Result<Json, Error>)
    ensures
        match r {
            Ok(j) => json_parsed(s@) == Some(json_view(j)),
            Err(e) => json_parsed(s@) is None && e is Json,
        },
{
    match from_str_value(s) {
        Some(v) => Ok(json_of_value(v)),
        None => Err(Error::Json(String::from_str("the body is not valid JSON"))),
    }
}

/// A hexadecimal digit character, lowercase.
pub open spec fn hex_char(d: int) -> char {
    if d < 10 {
        crate::text::digit_char(d)
    } else if d == 10 {
        'a'
    } else if d == 11 {
        'b'
    } else if d == 12 {
        'c'
    } else if d == 13 {
        'd'
    } else if d == 14 {
        'e'
    } else {
        'f'
    }
}

/// How one character stands inside a JSON string: quotes and backslashes
/// escaped, control characters as their short escape or `\u00XX`, and
/// everything else as itself.
pub open spec fn escape_char(c: char) -> Seq<char> {
    if c == '"' {
        seq!['\\', '"']
    } else if c == '\\' {
        seq!['\\', '\\']
    } else if c == '\u{8}' {
        seq!['\\', 'b']
    } else if c == '\u{c}' {
        seq!['\\', 'f']
    } else if c == '\n' {
        seq!['\\', 'n']
    } else if c == '\r' {
        seq!['\\', 'r']
    } else if c == '\t' {
        seq!['\\', 't']
    } else if (c as u32) < 32 {
        seq!['\\', 'u', '0', '0', hex_char(c as u32 as int / 16), hex_char(c as u32 as int % 16)]
    } else {
        seq![c]
    }
}

/// The body of a JSON string holding the text `s`.
pub open spec fn json_escaped(s: Seq<char>) -> Seq<char>
    decreases s.len(),
{
    if s.len() == 0 {
        Seq::empty()
    } else {
        json_escaped(s.drop_last()) + escape_char(s.last())
    }
}

fn hex_char_of(d: u32) -> (r: char)
    requires
        d < 16,
    ensures
        r == hex_char(d as int),
{
    match d {
        0 => '0',
        1 => '1',
        2 => '2',
        3 => '3',
        4 => '4',
        5 => '5',
        6 => '6',
        7 => '7',
        8 => '8',
        9 => '9',
        10 => 'a',
        11 => 'b',
        12 => 'c',
        13 => 'd',
        14 => 'e',
        _ => 'f',
    }
}

/// Escape text for the inside of a JSON string.
pub fn json_escape(s: &str) -> (r: String)
    ensures
        r@ == json_escaped(s@),
{
    let len = s.unicode_len();
    let mut out = String::new();
    for i in 0..len
        invariant
            len == s@.len(),
            out@ == json_escaped(s@.take(i as int)),
    {
        let ghost prefix = s@.take(i as int);
        let c = s.get_char(i);
        let v = c as u32;
        if c == '"' {
            crate::text::push_char(&mut out, '\\');
            crate::text::push_char(&mut out, '"');
        } else if c == '\\' {
            crate::text::push_char(&mut out, '\\');
            crate::text::push_char(&mut out, '\\');
        } else if v == 8 {
            crate::text::push_char(&mut out, '\\');
            crate::text::push_char(&mut out, 'b');
        } else if v == 12 {
            crate::text::push_char(&mut out, '\\');
            crate::text::push_char(&mut out, 'f');
        } else if v == 10 {
            crate::text::push_char(&mut out, '\\');
            crate::text::push_char(&mut out, 'n');
        } else if v == 13 {
            crate::text::push_char(&mut out, '\\');
            crate::text::push_char(&mut out, 'r');
        } else if v == 9 {
            crate::text::push_char(&mut out, '\\');
            crate::text::push_char(&mut out, 't');
        } else if v < 32 {
            crate::text::push_char(&mut out, '\\');
            crate::text::push_char(&mut out, 'u');
            crate::text::push_char(&mut out, '0');
            crate::text::push_char(&mut out, '0');
            crate::text::push_char(&mut out, hex_char_of(v / 16));
            crate::text::push_char(&mut out, hex_char_of(v % 16));
        } else {
            crate::text::push_char(&mut out, c);
        }
        proof {
            assert(s@.take(i + 1).drop_last() =~= prefix);
            assert(s@.take(i + 1).last() == c);
            assert(out@ =~= json_escaped(prefix) + escape_char(c));
        }
    }
    proof {
        assert(s@.take(len as int) =~= s@);
    }
    out
}

} // verus!
