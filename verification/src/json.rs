//! A JSON document as the library reads it: the values that upstream
//! services answer with, held as plain data.
use crate::text::{
    all_whitespace, decimal, hex_char, i64_to_decimal, int_decimal, is_blank, str_eq, string_of,
    u64_to_decimal,
};
use vstd::prelude::*;

verus! {

/// A JSON value. An object keeps its members in order, each key once; a
/// number is held as a signed integer, an unsigned one above `i64::MAX`, or,
/// for any other number, by two texts: the one it is displayed with and the
/// one it is written with in a JSON document.
#[derive(Debug)]
pub enum JsonValue {
    Null,
    Bool(bool),
    Int(i64),
    UInt(u64),
    Float { display: String, json: String },
    Str(String),
    Array(Vec<JsonValue>),
    Object(Vec<(String, JsonValue)>),
}

/// How `serde_json` writes one character inside a string literal: `"` and
/// `\` behind a backslash; backspace, tab, line feed, form feed and carriage
/// return by their short escapes; every other character below U+0020 as
/// `\u00` and two lower-case hexadecimal digits; any other character as it is.
pub open spec fn json_escaped_char(c: char) -> Seq<char> {
    if c == '"' {
        seq!['\\', '"']
    } else if c == '\\' {
        seq!['\\', '\\']
    } else if c == '\u{8}' {
        seq!['\\', 'b']
    } else if c == '\t' {
        seq!['\\', 't']
    } else if c == '\n' {
        seq!['\\', 'n']
    } else if c == '\u{c}' {
        seq!['\\', 'f']
    } else if c == '\r' {
        seq!['\\', 'r']
    } else if (c as u32) < 0x20 {
        seq!['\\', 'u', '0', '0', hex_char((c as u32 / 16) as nat), hex_char((c as u32 % 16) as nat)]
    } else {
        seq![c]
    }
}

/// The characters of a text as they stand inside a JSON string literal.
pub open spec fn json_escaped(s: Seq<char>) -> Seq<char>
    decreases s.len(),
{
    if s.len() == 0 {
        Seq::empty()
    } else {
        json_escaped(s.drop_last()) + json_escaped_char(s.last())
    }
}

/// The JSON string literal that `serde_json` writes for a string: the
/// escaped text between double quotes.
pub open spec fn json_quoted(s: Seq<char>) -> Seq<char> {
    seq!['"'] + json_escaped(s) + seq!['"']
}

/// Calls `serde_json::to_string` on a string slice, which writes the text
/// between double quotes and escapes it as `json_escaped_char` states, one
/// character at a time. Serializing a `str` cannot fail; the empty text
/// stands in for the error that never comes.
#[verifier::external_body]
pub(crate) fn json_quote(s: &str) -> (r: String)
    ensures
        r@ == json_quoted(s@),
{
    serde_json::to_string(s).unwrap_or_default()
}

/// The value of the first member named `key`.
pub open spec fn find_member(members: Seq<(String, JsonValue)>, key: Seq<char>) -> Option<JsonValue>
    decreases members.len(),
{
    if members.len() == 0 {
        None
    } else if members[0].0@ == key {
        Some(members[0].1)
    } else {
        find_member(members.drop_first(), key)
    }
}

/// The member `key` of an object; nothing for any other value.
pub open spec fn field(v: JsonValue, key: Seq<char>) -> Option<JsonValue> {
    match v {
        JsonValue::Object(members) => find_member(members@, key),
        _ => None,
    }
}

/// The member `key` of a value that may be absent.
pub open spec fn field_of(v: Option<JsonValue>, key: Seq<char>) -> Option<JsonValue> {
    match v {
        Some(x) => field(x, key),
        None => None,
    }
}

/// The text of a string value.
pub open spec fn str_of(v: JsonValue) -> Option<Seq<char>> {
    match v {
        JsonValue::Str(s) => Some(s@),
        _ => None,
    }
}

/// A number that is an integer in the range of `i64`.
pub open spec fn i64_of(v: JsonValue) -> Option<i64> {
    match v {
        JsonValue::Int(i) => Some(i),
        JsonValue::UInt(u) => if u <= i64::MAX {
            Some(u as i64)
        } else {
            None
        },
        _ => None,
    }
}

/// A number that is an integer in the range of `u64`.
pub open spec fn u64_of(v: JsonValue) -> Option<u64> {
    match v {
        JsonValue::Int(i) => if i >= 0 {
            Some(i as u64)
        } else {
            None
        },
        JsonValue::UInt(u) => Some(u),
        _ => None,
    }
}

pub open spec fn bool_of(v: JsonValue) -> Option<bool> {
    match v {
        JsonValue::Bool(b) => Some(b),
        _ => None,
    }
}

/// The elements of an array.
pub open spec fn items_of(v: JsonValue) -> Option<Seq<JsonValue>> {
    match v {
        JsonValue::Array(items) => Some(items@),
        _ => None,
    }
}

/// Lifts a reference result to the value it points at.
pub open spec fn deref_opt(r: Option<&JsonValue>) -> Option<JsonValue> {
    match r {
        Some(x) => Some(*x),
        None => None,
    }
}

impl JsonValue {
    /// The member `key` of an object.
    pub fn get(&self, key: &str) -> (r: Option<&JsonValue>)
        ensures
            deref_opt(r) == field(*self, key@),
    {
        match self {
            JsonValue::Object(members) => {
                let mut i: usize = 0;
                assert(members@.subrange(0, members@.len() as int) =~= members@);
                while i < members.len()
                    invariant
                        i <= members@.len(),
                        field(*self, key@) == find_member(members@, key@),
                        find_member(members@, key@) == find_member(
                            members@.subrange(i as int, members@.len() as int),
                            key@,
                        ),
                    decreases members@.len() - i,
                {
                    let ghost rest = members@.subrange(i as int, members@.len() as int);
                    assert(rest.drop_first() =~= members@.subrange(i + 1, members@.len() as int));
                    assert(rest[0] == members@[i as int]);
                    if str_eq(members[i].0.as_str(), key) {
                        assert(find_member(rest, key@) == Some(members@[i as int].1));
                        return Some(&members[i].1);
                    }
                    i = i + 1;
                }
                None
            },
            _ => None,
        }
    }

    pub fn as_str(&self) -> (r: Option<&str>)
        ensures
            match r {
                Some(s) => str_of(*self) == Some(s@),
                None => str_of(*self) is None,
            },
    {
        match self {
            JsonValue::Str(s) => Some(s.as_str()),
            _ => None,
        }
    }

    pub fn as_i64(&self) -> (r: Option<i64>)
        ensures
            r == i64_of(*self),
    {
        match self {
            JsonValue::Int(i) => Some(*i),
            JsonValue::UInt(u) => if *u <= 9223372036854775807u64 {
                Some(*u as i64)
            } else {
                None
            },
            _ => None,
        }
    }

    pub fn as_u64(&self) -> (r: Option<u64>)
        ensures
            r == u64_of(*self),
    {
        match self {
            JsonValue::Int(i) => if *i >= 0 {
                Some(*i as u64)
            } else {
                None
            },
            JsonValue::UInt(u) => Some(*u),
            _ => None,
        }
    }

    pub fn as_bool(&self) -> (r: Option<bool>)
        ensures
            r == bool_of(*self),
    {
        match self {
            JsonValue::Bool(b) => Some(*b),
            _ => None,
        }
    }

    pub fn as_array(&self) -> (r: Option<&Vec<JsonValue>>)
        ensures
            match r {
                Some(v) => items_of(*self) == Some(v@),
                None => items_of(*self) is None,
            },
    {
        match self {
            JsonValue::Array(items) => Some(items),
            _ => None,
        }
    }

    pub fn is_null(&self) -> (r: bool)
        ensures
            r == (*self is Null),
    {
        match self {
            JsonValue::Null => true,
            _ => false,
        }
    }

    /// Takes the member `key` out of an object, dropping the rest.
    pub fn take_member(self, key: &str) -> (r: Option<JsonValue>)
        ensures
            r == field(self, key@),
    {
        match self {
            JsonValue::Object(members) => {
                let ghost all = members@;
                let mut members = members;
                let mut i: usize = 0;
                assert(all.subrange(0, all.len() as int) =~= all);
                while i < members.len()
                    invariant
                        members@ == all,
                        i <= all.len(),
                        field(self, key@) == find_member(all, key@),
                        find_member(all, key@) == find_member(all.subrange(i as int, all.len() as int), key@),
                    decreases all.len() - i,
                {
                    let ghost rest = all.subrange(i as int, all.len() as int);
                    assert(rest.drop_first() =~= all.subrange(i + 1, all.len() as int));
                    assert(rest[0] == all[i as int]);
                    if str_eq(members[i].0.as_str(), key) {
                        assert(find_member(rest, key@) == Some(all[i as int].1));
                        let (_, v) = members.remove(i);
                        return Some(v);
                    }
                    i = i + 1;
                }
                None
            },
            _ => None,
        }
    }
}


// ---------------------------------------------------------------------------
// Reading optional members
// ---------------------------------------------------------------------------

pub open spec fn str_of_opt(v: Option<JsonValue>) -> Option<Seq<char>> {
    match v {
        Some(x) => str_of(x),
        None => None,
    }
}

/// A string that holds something besides whitespace.
pub open spec fn nonblank_text(v: Option<JsonValue>) -> Option<Seq<char>> {
    match str_of_opt(v) {
        Some(t) => if all_whitespace(t) {
            None
        } else {
            Some(t)
        },
        None => None,
    }
}

/// A copy of the text of a string value.
pub fn text_of(value: Option<&JsonValue>) -> (r: Option<String>)
    ensures
        match r {
            Some(s) => str_of_opt(deref_opt(value)) == Some(s@),
            None => str_of_opt(deref_opt(value)) is None,
        },
{
    match value {
        Some(v) => match v.as_str() {
            Some(s) => Some(string_of(s)),
            None => None,
        },
        None => None,
    }
}

/// The member `key` of a value that may be absent.
pub fn get_opt<'a>(value: Option<&'a JsonValue>, key: &str) -> (r: Option<&'a JsonValue>)
    ensures
        deref_opt(r) == field_of(deref_opt(value), key@),
{
    match value {
        Some(v) => v.get(key),
        None => None,
    }
}

/// A copy of a string value that is not blank.
pub fn nonblank_string(value: Option<&JsonValue>) -> (r: Option<String>)
    ensures
        match r {
            Some(s) => nonblank_text(deref_opt(value)) == Some(s@),
            None => nonblank_text(deref_opt(value)) is None,
        },
{
    let t = text_of(value)?;
    if is_blank(t.as_str()) {
        None
    } else {
        Some(t)
    }
}



// ---------------------------------------------------------------------------
// Compact text
// ---------------------------------------------------------------------------

/// The compact JSON text of a value, as `serde_json` writes it: no
/// whitespace, members in their order, strings quoted by `json_quoted`, a
/// non-integer number in its JSON text.
pub open spec fn json_text(v: JsonValue) -> Seq<char>
    decreases v,
{
    match v {
        JsonValue::Null => "null"@,
        JsonValue::Bool(b) => if b {
            "true"@
        } else {
            "false"@
        },
        JsonValue::Int(i) => int_decimal(i as int),
        JsonValue::UInt(u) => decimal(u as nat),
        JsonValue::Float { json, .. } => json@,
        JsonValue::Str(s) => json_quoted(s@),
        JsonValue::Array(items) => "["@ + items_text(items@) + "]"@,
        JsonValue::Object(members) => "{"@ + members_text(members@) + "}"@,
    }
}

/// The texts of `s`, separated by commas.
pub open spec fn items_text(s: Seq<JsonValue>) -> Seq<char>
    decreases s,
{
    if s.len() == 0 {
        Seq::empty()
    } else if s.len() == 1 {
        json_text(s[0])
    } else {
        items_text(s.drop_last()) + ","@ + json_text(s.last())
    }
}

/// The members of `s` as `"key":value`, separated by commas.
pub open spec fn members_text(s: Seq<(String, JsonValue)>) -> Seq<char>
    decreases s,
{
    if s.len() == 0 {
        Seq::empty()
    } else if s.len() == 1 {
        json_quoted(s[0].0@) + ":"@ + json_text(s[0].1)
    } else {
        members_text(s.drop_last()) + ","@ + json_quoted(s.last().0@) + ":"@ + json_text(
            s.last().1,
        )
    }
}

/// Writes a value as compact JSON text.
pub fn to_json_text(v: &JsonValue) -> (r: String)
    ensures
        r@ == json_text(*v),
    decreases v,
{
    match v {
        JsonValue::Null => string_of("null"),
        JsonValue::Bool(b) => if *b {
            string_of("true")
        } else {
            string_of("false")
        },
        JsonValue::Int(i) => i64_to_decimal(*i),
        JsonValue::UInt(u) => u64_to_decimal(*u),
        JsonValue::Float { json, .. } => json.clone(),
        JsonValue::Str(s) => json_quote(s.as_str()),
        JsonValue::Array(items) => {
            let mut out = string_of("[");
            let mut i: usize = 0;
            while i < items.len()
                invariant
                    i <= items@.len(),
                    *v == JsonValue::Array(*items),
                    out@ == "["@ + items_text(items@.subrange(0, i as int)),
                decreases items.len() - i,
            {
                assert(decreases_to!(*v => (*v)->Array_0));
                assert(decreases_to!(*items => items@));
                assert(decreases_to!(items@ => items@[i as int]));
                assert(decreases_to!(*v => items@[i as int]));
                let t = to_json_text(&items[i]);
                let ghost before = out@;
                if i > 0 {
                    out.append(",");
                }
                out.append(t.as_str());
                assert(items@.subrange(0, i + 1).drop_last() == items@.subrange(0, i as int));
                assert(items@.subrange(0, i + 1).last() == items@[i as int]);
                if i == 0 {
                    assert(items@.subrange(0, 1)[0] == items@[0]);
                }
                i += 1;
            }
            assert(items@.subrange(0, items@.len() as int) == items@);
            out.append("]");
            out
        },
        JsonValue::Object(members) => {
            let mut out = string_of("{");
            let mut i: usize = 0;
            while i < members.len()
                invariant
                    i <= members@.len(),
                    *v == JsonValue::Object(*members),
                    out@ == "{"@ + members_text(members@.subrange(0, i as int)),
                decreases members.len() - i,
            {
                assert(decreases_to!(*v => (*v)->Object_0));
                assert(decreases_to!(*members => members@));
                assert(decreases_to!(members@ => members@[i as int]));
                assert(decreases_to!(members@[i as int] => members@[i as int].1));
                assert(decreases_to!(*v => members@[i as int].1));
                let k = json_quote(members[i].0.as_str());
                let t = to_json_text(&members[i].1);
                if i > 0 {
                    out.append(",");
                }
                out.append(k.as_str());
                out.append(":");
                out.append(t.as_str());
                assert(members@.subrange(0, i + 1).drop_last() == members@.subrange(0, i as int));
                assert(members@.subrange(0, i + 1).last() == members@[i as int]);
                if i == 0 {
                    assert(members@.subrange(0, 1)[0] == members@[0]);
                }
                i += 1;
            }
            assert(members@.subrange(0, members@.len() as int) == members@);
            out.append("}");
            out
        },
    }
}


// ---------------------------------------------------------------------------
// The view of a value
// ---------------------------------------------------------------------------

/// A JSON value as contracts speak of it: texts in place of strings.
pub enum JsonView {
    Null,
    Bool(bool),
    Int(i64),
    UInt(u64),
    Float(Seq<char>, Seq<char>),
    Str(Seq<char>),
    Array(Seq<JsonView>),
    Object(Seq<(Seq<char>, JsonView)>),
}

pub open spec fn json_view(v: JsonValue) -> JsonView
    decreases v,
{
    match v {
        JsonValue::Null => JsonView::Null,
        JsonValue::Bool(b) => JsonView::Bool(b),
        JsonValue::Int(i) => JsonView::Int(i),
        JsonValue::UInt(u) => JsonView::UInt(u),
        JsonValue::Float { display, json } => JsonView::Float(display@, json@),
        JsonValue::Str(s) => JsonView::Str(s@),
        JsonValue::Array(items) => JsonView::Array(items_view(items@)),
        JsonValue::Object(members) => JsonView::Object(members_view(members@)),
    }
}

pub open spec fn items_view(s: Seq<JsonValue>) -> Seq<JsonView>
    decreases s,
{
    if s.len() == 0 {
        Seq::empty()
    } else {
        items_view(s.drop_last()).push(json_view(s.last()))
    }
}

pub open spec fn members_view(s: Seq<(String, JsonValue)>) -> Seq<(Seq<char>, JsonView)>
    decreases s,
{
    if s.len() == 0 {
        Seq::empty()
    } else {
        members_view(s.drop_last()).push((s.last().0@, json_view(s.last().1)))
    }
}

impl View for JsonValue {
    type V = JsonView;

    open spec fn view(&self) -> JsonView {
        json_view(*self)
    }
}

pub proof fn lemma_items_view(s: Seq<JsonValue>)
    ensures
        items_view(s).len() == s.len(),
        forall|i: int| 0 <= i < s.len() ==> #[trigger] items_view(s)[i] == json_view(s[i]),
    decreases s.len(),
{
    if s.len() > 0 {
        lemma_items_view(s.drop_last());
    }
}

pub proof fn lemma_members_view(s: Seq<(String, JsonValue)>)
    ensures
        members_view(s).len() == s.len(),
        forall|i: int| 0 <= i < s.len() ==> #[trigger] members_view(s)[i] == (s[i].0@, json_view(s[i].1)),
    decreases s.len(),
{
    if s.len() > 0 {
        lemma_members_view(s.drop_last());
    }
}

/// An object of the given members.
pub fn object_of(members: Vec<(String, JsonValue)>) -> (r: JsonValue)
    ensures
        r@ == JsonView::Object(members@.map_values(|m: (String, JsonValue)| (m.0@, json_view(m.1)))),
{
    proof {
        lemma_members_view(members@);
        assert(members_view(members@) =~= members@.map_values(
            |m: (String, JsonValue)| (m.0@, json_view(m.1)),
        ));
    }
    JsonValue::Object(members)
}

/// An array of the given items.
pub fn array_of(items: Vec<JsonValue>) -> (r: JsonValue)
    ensures
        r@ == JsonView::Array(items@.map_values(|v: JsonValue| json_view(v))),
{
    proof {
        lemma_items_view(items@);
        assert(items_view(items@) =~= items@.map_values(|v: JsonValue| json_view(v)));
    }
    JsonValue::Array(items)
}

/// A member whose value is a string.
pub fn text_member(key: &str, value: &str) -> (r: (String, JsonValue))
    ensures
        r.0@ == key@,
        json_view(r.1) == JsonView::Str(value@),
{
    (string_of(key), JsonValue::Str(string_of(value)))
}


/// An object of string members, in order.
pub open spec fn string_pairs_view(pairs: Seq<(Seq<char>, Seq<char>)>) -> JsonView {
    JsonView::Object(pairs.map_values(|p: (Seq<char>, Seq<char>)| (p.0, JsonView::Str(p.1))))
}

/// An array of strings, in order.
pub open spec fn string_list_view(items: Seq<Seq<char>>) -> JsonView {
    JsonView::Array(items.map_values(|x: Seq<char>| JsonView::Str(x)))
}

/// An object of string members.
pub fn string_pairs_object(pairs: &Vec<(String, String)>) -> (r: JsonValue)
    ensures
        r@ == string_pairs_view(pairs@.map_values(|p: (String, String)| (p.0@, p.1@))),
{
    let mut members: Vec<(String, JsonValue)> = Vec::new();
    let mut i: usize = 0;
    while i < pairs.len()
        invariant
            i <= pairs@.len(),
            members@.len() == i,
            forall|j: int|
                0 <= j < i ==> (#[trigger] members@[j]).0@ == pairs@[j].0@ && json_view(members@[j].1)
                    == JsonView::Str(pairs@[j].1@),
        decreases pairs.len() - i,
    {
        members.push(text_member(pairs[i].0.as_str(), pairs[i].1.as_str()));
        i += 1;
    }
    assert(members@.map_values(|m: (String, JsonValue)| (m.0@, json_view(m.1))) =~= pairs@.map_values(
        |p: (String, String)| (p.0@, p.1@),
    ).map_values(|p: (Seq<char>, Seq<char>)| (p.0, JsonView::Str(p.1))));
    object_of(members)
}

/// An array of strings.
pub fn string_list(items: &Vec<String>) -> (r: JsonValue)
    ensures
        r@ == string_list_view(items.deep_view()),
{
    let mut out: Vec<JsonValue> = Vec::new();
    let mut i: usize = 0;
    while i < items.len()
        invariant
            i <= items@.len(),
            out@.len() == i,
            forall|j: int| 0 <= j < i ==> json_view(#[trigger] out@[j]) == JsonView::Str(items@[j]@),
        decreases items.len() - i,
    {
        out.push(JsonValue::Str(items[i].clone()));
        i += 1;
    }
    assert(out@.map_values(|v: JsonValue| json_view(v)) =~= items.deep_view().map_values(
        |x: Seq<char>| JsonView::Str(x),
    ));
    array_of(out)
}

} // verus!
