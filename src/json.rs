//! The JSON forms of the payloads and of items.
//!
//! Encoding frames the object text here; string literals are escaped by
//! serde_json. Decoding lets serde_json split the text into members and
//! elements and read scalars; which members an item needs, and of what type,
//! is decided here.
use vstd::prelude::*;
use vstd::string::*;
use crate::ident::{hex_char, uuid_parsed, TodoId};
use crate::types::{opt_text, todo_model, CreateTodo, Todo, UpdateTodo};

verus! {

/// How a JSON string literal writes one character.
pub open spec fn escaped_char(c: char) -> Seq<char> {
    if c == '"' {
        seq!['\\', '"']
    } else if c == '\\' {
        seq!['\\', '\\']
    } else if c == '\u{8}' {
        seq!['\\', 'b']
    } else if c == '\u{c}' {
        seq!['\\', 'f']
    } else if c == '\n' {
        seq!['\\', 'n']
    } else if c == '\r' {
        seq!['\\', 'r']
    } else if c == '\t' {
        seq!['\\', 't']
    } else if (c as u32) < 0x20 {
        seq!['\\', 'u', '0', '0', hex_char((c as u32 / 16) as int), hex_char((c as u32 % 16) as int)]
    } else {
        seq![c]
    }
}

/// The characters of `s`, each written as a JSON string literal writes it.
pub open spec fn escaped(s: Seq<char>) -> Seq<char>
    decreases s.len(),
{
    if s.len() == 0 {
        Seq::empty()
    } else {
        escaped(s.drop_last()) + escaped_char(s.last())
    }
}

/// The JSON string literal for `s`.
pub open spec fn json_quoted(s: Seq<char>) -> Seq<char> {
    seq!['"'] + escaped(s) + seq!['"']
}

/// The JSON literal for a boolean.
pub open spec fn bool_json(b: bool) -> Seq<char> {
    if b {
        "true"@
    } else {
        "false"@
    }
}

/// The JSON object that creates an item.
pub open spec fn create_json(title: Seq<char>, completed: bool) -> Seq<char> {
    "{\"title\":"@ + json_quoted(title) + ",\"completed\":"@ + bool_json(completed) + "}"@
}

/// The JSON object that updates an item: absent fields are left out, not written as null.
pub open spec fn update_json(title: Option<Seq<char>>, completed: Option<bool>) -> Seq<char> {
    let t = match title {
        Some(s) => "\"title\":"@ + json_quoted(s),
        None => Seq::empty(),
    };
    let c = match completed {
        Some(b) => "\"completed\":"@ + bool_json(b),
        None => Seq::empty(),
    };
    let sep = if title is Some && completed is Some {
        ","@
    } else {
        Seq::empty()
    };
    "{"@ + t + sep + c + "}"@
}

/// The JSON object of an item.
pub open spec fn todo_json(id: u128, title: Seq<char>, completed: bool) -> Seq<char> {
    "{\"id\":\""@ + crate::ident::hyphenated(id) + "\",\"title\":"@ + json_quoted(title)
        + ",\"completed\":"@ + bool_json(completed) + "}"@
}

/// Relies on `serde_json::to_string` on a `str`: it writes the string literal,
/// escaping `"`, `\`, and control characters (short forms where JSON has them,
/// else `\u00` and two lower-case hex digits), and nothing else. Writing a
/// string into its in-memory buffer never fails.
#[verifier::external_body]
fn quote(s: &str) -> (r: Result<String, String>)
    ensures
        r is Ok,
        r matches Ok(q) ==> q@ == json_quoted(s@),
{
    match serde_json::to_string(s) {
        Ok(q) => Ok(q),
        Err(e) => Err(e.to_string()),
    }
}

fn bool_text(b: bool) -> (r: &'static str)
    ensures
        r@ == bool_json(b),
{
    if b {
        "true"
    } else {
        "false"
    }
}

/// Encodes a create payload as its JSON object.
pub fn encode_create(input: &CreateTodo) -> (r: Result<String, String>)
    ensures
        r is Ok,
        r matches Ok(s) ==> s@ == create_json(input.title@, input.completed),
{
    let q = quote(input.title.as_str())?;
    let mut s = String::from_str("{\"title\":");
    s.append(q.as_str());
    s.append(",\"completed\":");
    s.append(bool_text(input.completed));
    s.append("}");
    Ok(s)
}

/// Encodes an update payload as its JSON object, leaving absent fields out.
pub fn encode_update(input: &UpdateTodo) -> (r: Result<String, String>)
    ensures
        r is Ok,
        r matches Ok(s) ==> s@ == update_json(
            opt_text(input.title),
            input.completed,
        ),
{
    let mut s = String::from_str("{");
    match &input.title {
        Some(t) => {
            let q = quote(t.as_str())?;
            s.append("\"title\":");
            s.append(q.as_str());
        },
        None => {},
    }
    if input.title.is_some() && input.completed.is_some() {
        s.append(",");
    }
    match input.completed {
        Some(b) => {
            s.append("\"completed\":");
            s.append(bool_text(b));
        },
        None => {},
    }
    s.append("}");
    Ok(s)
}

/// Encodes an item as its JSON object.
pub fn encode_todo(t: &Todo) -> (r: Result<String, String>)
    ensures
        r is Ok,
        r matches Ok(s) ==> s@ == todo_json(t.id.0, t.title@, t.completed),
{
    let q = quote(t.title.as_str())?;
    let mut s = String::from_str("{\"id\":\"");
    let id = t.id.to_text();
    s.append(id.as_str());
    s.append("\",\"title\":");
    s.append(q.as_str());
    s.append(",\"completed\":");
    s.append(bool_text(t.completed));
    s.append("}");
    Ok(s)
}

/// The members of a JSON object text, each key with the raw text of its value,
/// as `serde_json::from_str` reads them into a key-ordered map.
pub uninterp spec fn json_object_members(text: Seq<char>) -> Option<Seq<(Seq<char>, Seq<char>)>>;

/// The raw texts of the elements of a JSON array text, in order.
pub uninterp spec fn json_array_elements(text: Seq<char>) -> Option<Seq<Seq<char>>>;

/// The string that a JSON text holds, if it is a string literal.
pub uninterp spec fn json_string_value(text: Seq<char>) -> Option<Seq<char>>;

/// JSON whitespace.
pub open spec fn json_ws(c: char) -> bool {
    c == ' ' || c == '\n' || c == '\t' || c == '\r'
}

/// Whether `text` is `word` with only JSON whitespace around it.
pub open spec fn padded(text: Seq<char>, word: Seq<char>) -> bool {
    exists|a: int|
        0 <= a && a + word.len() <= text.len() && #[trigger] text.subrange(a, a + word.len())
            == word && forall|i: int|
            0 <= i < text.len() && !(a <= i < a + word.len()) ==> json_ws(#[trigger] text[i])
}

/// The boolean that a JSON text holds: `true` or `false`, with only
/// whitespace around it.
pub open spec fn json_bool_value(text: Seq<char>) -> Option<bool> {
    if padded(text, "true"@) {
        Some(true)
    } else if padded(text, "false"@) {
        Some(false)
    } else {
        None
    }
}

/// Relies on `serde_json::from_str` into a `BTreeMap<String, Box<RawValue>>`:
/// whether the text is one JSON object, and its members, depend on the text alone.
#[verifier::external_body]
fn object_members(text: &str) -> (r: Result<Vec<(String, String)>, String>)
    ensures
        match r {
            Ok(ms) => json_object_members(text@) == Some(
                ms@.map_values(|m: (String, String)| (m.0@, m.1@)),
            ),
            Err(_) => json_object_members(text@) is None,
        },
{
    match serde_json::from_str::<
        std::collections::BTreeMap<String, Box<serde_json::value::RawValue>>,
    >(text) {
        Ok(m) => Ok(m.into_iter().map(|(k, v)| (k, v.get().to_string())).collect()),
        Err(e) => Err(e.to_string()),
    }
}

/// Relies on `serde_json::from_str` into a `Vec<Box<RawValue>>`: whether the
/// text is one JSON array, and its elements, depend on the text alone.
#[verifier::external_body]
fn array_elements(text: &str) -> (r: Result<Vec<String>, String>)
    ensures
        match r {
            Ok(es) => json_array_elements(text@) == Some(es@.map_values(|e: String| e@)),
            Err(_) => json_array_elements(text@) is None,
        },
{
    match serde_json::from_str::<Vec<Box<serde_json::value::RawValue>>>(text) {
        Ok(v) => Ok(v.into_iter().map(|e| e.get().to_string()).collect()),
        Err(e) => Err(e.to_string()),
    }
}

/// Relies on `serde_json::from_str` into a `String`: whether the text is one
/// JSON string literal, and the string it holds, depend on the text alone.
#[verifier::external_body]
fn string_value(text: &str) -> (r: Result<String, String>)
    ensures
        match r {
            Ok(s) => json_string_value(text@) == Some(s@),
            Err(_) => json_string_value(text@) is None,
        },
{
    match serde_json::from_str::<String>(text) {
        Ok(s) => Ok(s),
        Err(e) => Err(e.to_string()),
    }
}

/// Relies on `serde_json::from_str` into a `bool`: it skips whitespace
/// (space, tab, line feed, carriage return), reads `true` or `false`, and
/// accepts nothing but whitespace after it.
#[verifier::external_body]
fn bool_value(text: &str) -> (r: Result<bool, String>)
    ensures
        match r {
            Ok(b) => json_bool_value(text@) == Some(b),
            Err(_) => json_bool_value(text@) is None,
        },
{
    match serde_json::from_str::<bool>(text) {
        Ok(b) => Ok(b),
        Err(e) => Err(e.to_string()),
    }
}

/// Whether a text is one well-formed JSON value, of any shape.
pub uninterp spec fn json_well_formed(text: Seq<char>) -> bool;

/// Relies on `serde_json::from_str` into `serde::de::IgnoredAny`: it succeeds
/// exactly on texts that hold one JSON value; the outcome depends on the text alone.
#[verifier::external_body]
pub(crate) fn well_formed(text: &str) -> (r: bool)
    ensures
        r == json_well_formed(text@),
{
    serde_json::from_str::<serde::de::IgnoredAny>(text).is_ok()
}

/// The raw value of the first member named `key`.
pub open spec fn member_of(ms: Seq<(Seq<char>, Seq<char>)>, key: Seq<char>) -> Option<Seq<char>>
    decreases ms.len(),
{
    if ms.len() == 0 {
        None
    } else if ms[0].0 == key {
        Some(ms[0].1)
    } else {
        member_of(ms.drop_first(), key)
    }
}

/// Identifier, title and completed flag read from the JSON object text of an
/// item; `None` where a member is missing or of the wrong type, or the
/// identifier is no UUID. Other members are ignored.
pub open spec fn todo_from_json(text: Seq<char>) -> Option<(u128, Seq<char>, bool)> {
    match json_object_members(text) {
        None => None,
        Some(ms) => match (member_of(ms, "id"@), member_of(ms, "title"@), member_of(ms, "completed"@)) {
            (Some(i), Some(t), Some(c)) => match (
                json_string_value(i),
                json_string_value(t),
                json_bool_value(c),
            ) {
                (Some(is), Some(ts), Some(b)) => match uuid_parsed(is) {
                    Some(v) => Some((v, ts, b)),
                    None => None,
                },
                _ => None,
            },
            _ => None,
        },
    }
}

/// The items read from the JSON array text of a list; `None` where the text
/// is no array or one element is no item.
pub open spec fn todos_from_json(text: Seq<char>) -> Option<Seq<(u128, Seq<char>, bool)>> {
    match json_array_elements(text) {
        None => None,
        Some(es) => if forall|i: int| 0 <= i < es.len() ==> (#[trigger] todo_from_json(es[i])) is Some {
            Some(Seq::new(es.len(), |i: int| todo_from_json(es[i]).unwrap()))
        } else {
            None
        },
    }
}

fn find_member<'a>(ms: &'a Vec<(String, String)>, key: &str) -> (r: Option<&'a String>)
    ensures
        match r {
            Some(v) => member_of(ms@.map_values(|m: (String, String)| (m.0@, m.1@)), key@) == Some(v@),
            None => member_of(ms@.map_values(|m: (String, String)| (m.0@, m.1@)), key@) is None,
        },
{
    let ghost all = ms@.map_values(|m: (String, String)| (m.0@, m.1@));
    let k = String::from_str(key);
    let mut i: usize = 0;
    assert(all.subrange(0, all.len() as int) =~= all);
    while i < ms.len()
        invariant
            i <= ms.len(),
            k@ == key@,
            all == ms@.map_values(|m: (String, String)| (m.0@, m.1@)),
            member_of(all, key@) == member_of(all.subrange(i as int, all.len() as int), key@),
        decreases ms.len() - i,
    {
        let ghost rest = all.subrange(i as int, all.len() as int);
        assert(rest.drop_first() =~= all.subrange(i + 1, all.len() as int));
        if ms[i].0 == k {
            return Some(&ms[i].1);
        }
        i = i + 1;
    }
    assert(all.subrange(i as int, all.len() as int).len() == 0);
    None
}

/// Reads an item from the JSON object text of an item. Members are read as
/// serde_json reads them into a map, so of a repeated key the last value
/// counts; other members are ignored. Only the object form is an item: a
/// JSON array of the three values is not.
pub fn decode_todo(text: &str) -> (r: Result<Todo, String>)
    ensures
        match r {
            Ok(t) => todo_from_json(text@) == Some(todo_model(t)),
            Err(_) => todo_from_json(text@) is None,
        },
{
    let ms = object_members(text)?;
    let id_raw = match find_member(&ms, "id") {
        Some(v) => v,
        None => return Err(String::from_str("missing field `id`")),
    };
    let title_raw = match find_member(&ms, "title") {
        Some(v) => v,
        None => return Err(String::from_str("missing field `title`")),
    };
    let completed_raw = match find_member(&ms, "completed") {
        Some(v) => v,
        None => return Err(String::from_str("missing field `completed`")),
    };
    let id_text = string_value(id_raw.as_str())?;
    let title = string_value(title_raw.as_str())?;
    let completed = bool_value(completed_raw.as_str())?;
    let id = match TodoId::parse(id_text.as_str()) {
        Some(id) => id,
        None => return Err(String::from_str("invalid UUID in field `id`")),
    };
    Ok(Todo { id, title, completed })
}

/// Reads the items from the JSON array text of a list, in order.
pub fn decode_todo_list(text: &str) -> (r: Result<Vec<Todo>, String>)
    ensures
        match r {
            Ok(ts) => todos_from_json(text@) == Some(ts@.map_values(|t: Todo| todo_model(t))),
            Err(_) => todos_from_json(text@) is None,
        },
{
    let es = array_elements(text)?;
    let ghost raw = es@.map_values(|e: String| e@);
    let mut out: Vec<Todo> = Vec::new();
    let mut i: usize = 0;
    while i < es.len()
        invariant
            i <= es.len(),
            raw == es@.map_values(|e: String| e@),
            json_array_elements(text@) == Some(raw),
            out@.len() == i,
            forall|j: int| 0 <= j < i ==> todo_from_json(raw[j]) == Some(#[trigger] todo_model(out@[j])),
        decreases es.len() - i,
    {
        match decode_todo(es[i].as_str()) {
            Ok(t) => {
                out.push(t);
            },
            Err(e) => {
                assert(todo_from_json(raw[i as int]) is None);
                return Err(e);
            },
        }
        i = i + 1;
    }
    assert(forall|j: int| 0 <= j < raw.len() ==> (#[trigger] todo_from_json(raw[j])) is Some) by {
        assert forall|j: int| 0 <= j < raw.len() implies (#[trigger] todo_from_json(raw[j])) is Some by {
            assert(todo_from_json(raw[j]) == Some(todo_model(out@[j])));
        }
    }
    assert(Seq::new(raw.len(), |j: int| todo_from_json(raw[j]).unwrap()) =~= out@.map_values(
        |t: Todo| todo_model(t),
    ));
    Ok(out)
}

/// Title and completed flag read from the JSON object text of a create
/// payload: the title must be a string; an absent flag is false, a present
/// one must be a boolean.
pub open spec fn create_from_json(text: Seq<char>) -> Option<(Seq<char>, bool)> {
    match json_object_members(text) {
        None => None,
        Some(ms) => match member_of(ms, "title"@) {
            None => None,
            Some(t) => match json_string_value(t) {
                None => None,
                Some(ts) => match member_of(ms, "completed"@) {
                    None => Some((ts, false)),
                    Some(c) => match json_bool_value(c) {
                        Some(b) => Some((ts, b)),
                        None => None,
                    },
                },
            },
        },
    }
}

/// The fields read from the JSON object text of an update payload: an
/// absent member is absent; a present one must have its type (a null is
/// not an absent member).
pub open spec fn update_from_json(text: Seq<char>) -> Option<(Option<Seq<char>>, Option<bool>)> {
    match json_object_members(text) {
        None => None,
        Some(ms) => {
            let t = match member_of(ms, "title"@) {
                None => Some(None),
                Some(raw) => match json_string_value(raw) {
                    Some(ts) => Some(Some(ts)),
                    None => None,
                },
            };
            let c = match member_of(ms, "completed"@) {
                None => Some(None),
                Some(raw) => match json_bool_value(raw) {
                    Some(b) => Some(Some(b)),
                    None => None,
                },
            };
            match (t, c) {
                (Some(tv), Some(cv)) => Some((tv, cv)),
                _ => None,
            }
        },
    }
}

/// Reads a create payload from its JSON object text.
pub fn decode_create(text: &str) -> (r: Result<CreateTodo, String>)
    ensures
        match r {
            Ok(c) => create_from_json(text@) == Some((c.title@, c.completed)),
            Err(_) => create_from_json(text@) is None,
        },
{
    let ms = object_members(text)?;
    let title_raw = match find_member(&ms, "title") {
        Some(v) => v,
        None => return Err(String::from_str("missing field `title`")),
    };
    let title = string_value(title_raw.as_str())?;
    let completed = match find_member(&ms, "completed") {
        Some(v) => bool_value(v.as_str())?,
        None => false,
    };
    Ok(CreateTodo { title, completed })
}

/// Reads an update payload from its JSON object text.
pub fn decode_update(text: &str) -> (r: Result<UpdateTodo, String>)
    ensures
        match r {
            Ok(u) => update_from_json(text@) == Some(
                (
                    opt_text(u.title),
                    u.completed,
                ),
            ),
            Err(_) => update_from_json(text@) is None,
        },
{
    let ms = object_members(text)?;
    let title = match find_member(&ms, "title") {
        Some(v) => Some(string_value(v.as_str())?),
        None => None,
    };
    let completed = match find_member(&ms, "completed") {
        Some(v) => Some(bool_value(v.as_str())?),
        None => None,
    };
    Ok(UpdateTodo { title, completed })
}

} // verus!
