//! The text form of a task at rest and of the response bodies: flat JSON
//! objects, whose string literals serde_json writes and reads.
use vstd::prelude::*;
use crate::error::TaskError;
use crate::task::{Task, TaskView};

verus! {

#[verifier::external_type_specification]
#[verifier::external_body]
pub struct ExJsonError(serde_json::Error);

/// The lower-case hexadecimal digit of a value below 16.
pub open spec fn hex_digit(d: int) -> char {
    "0123456789abcdef"@[d]
}

/// How one character stands inside a JSON string literal: quote and backslash
/// behind a backslash, the five control characters that have a short escape
/// by it, every other control character as `\u00` and two hexadecimal digits,
/// and all else as it is.
pub open spec fn escaped_char(c: char) -> Seq<char> {
    if c == '"' {
        seq!['\\', '"']
    } else if c == '\\' {
        seq!['\\', '\\']
    } else if c == '\u{8}' {
        seq!['\\', 'b']
    } else if c == '\t' {
        seq!['\\', 't']
    } else if c == '\n' {
        seq!['\\', 'n']
    } else if c == '\u{c}' {
        seq!['\\', 'f']
    } else if c == '\r' {
        seq!['\\', 'r']
    } else if (c as u32) < 0x20 {
        seq!['\\', 'u', '0', '0', hex_digit((c as u32) as int / 16), hex_digit((c as u32) as int % 16)]
    } else {
        seq![c]
    }
}

/// The JSON string literal of a text: between quotes, each character escaped.
pub open spec fn json_string_of(s: Seq<char>) -> Seq<char> {
    seq!['"'] + s.map_values(|c: char| escaped_char(c)).flatten() + seq!['"']
}

/// What serde_json reads from a text as a JSON object: `None` where the text
/// is neither an object nor `null`, else the entries that its map holds (none
/// for `null`), each key once, with its value's text where that value is a
/// string, and `None` where it is anything else.
pub uninterp spec fn json_object_of(s: Seq<char>) -> Option<Seq<(Seq<char>, Option<Seq<char>>)>>;

/// Relies on `serde_json::to_string` applied to a `str`: it writes the
/// string's escaped JSON literal into a `Vec`, which never fails.
#[verifier::external_body]
fn json_string(s: &str) -> (r: Result<String, serde_json::Error>)
    ensures
        r is Ok,
        r matches Ok(q) ==> q@ == json_string_of(s@),
{
    serde_json::to_string(s)
}

/// Relies on `serde_json::from_str` into a `serde_json::Map`: it succeeds
/// exactly on a JSON object, or `null` as an empty map, whose entries the map
/// hands out; each value is kept as its text where `Value::as_str` finds a
/// string.
#[verifier::external_body]
fn json_object(s: &str) -> (r: Result<Vec<(String, Option<String>)>, serde_json::Error>)
    ensures
        r matches Ok(v) ==> json_object_of(s@) == Some(entries_view(v@)),
        r is Err ==> json_object_of(s@) is None,
{
    let map = serde_json::from_str::<serde_json::Map<String, serde_json::Value>>(s)?;
    Ok(map.into_iter().map(|(k, v)| (k, v.as_str().map(String::from))).collect())
}

pub open spec fn entry_view(e: (String, Option<String>)) -> (Seq<char>, Option<Seq<char>>) {
    (
        e.0@,
        match e.1 {
            Some(s) => Some(s@),
            None => None,
        },
    )
}

pub open spec fn entries_view(v: Seq<(String, Option<String>)>) -> Seq<(Seq<char>, Option<Seq<char>>)> {
    v.map_values(|e: (String, Option<String>)| entry_view(e))
}

/// The text of the first entry under `key`, where that entry holds a string.
pub open spec fn field_text(es: Seq<(Seq<char>, Option<Seq<char>>)>, key: Seq<char>) -> Option<Seq<char>>
    decreases es.len(),
{
    if es.len() == 0 {
        None
    } else if es[0].0 == key {
        es[0].1
    } else {
        field_text(es.drop_first(), key)
    }
}

/// The task that a set of object entries describes, if all three fields are
/// there as strings. Other keys are ignored.
pub open spec fn task_of_entries(es: Seq<(Seq<char>, Option<Seq<char>>)>) -> Option<TaskView> {
    let n = field_text(es, "name"@);
    let p = field_text(es, "priority"@);
    let d = field_text(es, "details"@);
    if n is Some && p is Some && d is Some {
        Some(TaskView { name: n->Some_0, priority: p->Some_0, details: d->Some_0 })
    } else {
        None
    }
}

/// The task that a stored text holds, if any.
pub open spec fn decoded(text: Seq<char>) -> Option<TaskView> {
    match json_object_of(text) {
        Some(es) => task_of_entries(es),
        None => None,
    }
}

/// The object that holds a task's three fields, given as JSON literals.
pub open spec fn task_json(name: Seq<char>, priority: Seq<char>, details: Seq<char>) -> Seq<char> {
    "{\"name\":"@ + name + ",\"priority\":"@ + priority + ",\"details\":"@ + details + "}"@
}

/// The text that a task is stored as.
pub open spec fn encoded(t: TaskView) -> Seq<char> {
    task_json(json_string_of(t.name), json_string_of(t.priority), json_string_of(t.details))
}

/// Literals joined by commas, in order.
pub open spec fn comma_joined(items: Seq<Seq<char>>) -> Seq<char>
    decreases items.len(),
{
    if items.len() == 0 {
        Seq::empty()
    } else if items.len() == 1 {
        items[0]
    } else {
        comma_joined(items.drop_last()) + ","@ + items.last()
    }
}

/// The object that lists task file names, given as JSON literals.
pub open spec fn task_list_json(quoted: Seq<Seq<char>>) -> Seq<char> {
    "{\"task_ids\":["@ + comma_joined(quoted) + "]}"@
}

/// The body that lists the given file names.
pub open spec fn encoded_list(names: Seq<Seq<char>>) -> Seq<char> {
    task_list_json(names.map_values(|n: Seq<char>| json_string_of(n)))
}

/// Puts three JSON literals in place as the task object's fields.
pub fn frame_task(name: &str, priority: &str, details: &str) -> (r: String)
    ensures
        r@ == task_json(name@, priority@, details@),
{
    let mut r = String::from_str("{\"name\":");
    r.append(name);
    r.append(",\"priority\":");
    r.append(priority);
    r.append(",\"details\":");
    r.append(details);
    r.append("}");
    r
}

/// Writes a task as the JSON object it is stored as.
pub fn encode_task(t: &Task) -> (r: Result<String, TaskError>)
    ensures
        r matches Ok(s) && s@ == encoded(t@),
{
    let name = match json_string(t.name.as_str()) {
        Ok(q) => q,
        Err(_) => return Err(TaskError::Serialization),
    };
    let priority = match json_string(t.priority.as_str()) {
        Ok(q) => q,
        Err(_) => return Err(TaskError::Serialization),
    };
    let details = match json_string(t.details.as_str()) {
        Ok(q) => q,
        Err(_) => return Err(TaskError::Serialization),
    };
    Ok(frame_task(name.as_str(), priority.as_str(), details.as_str()))
}

/// The text of the first entry under `key`, where that entry holds a string.
pub fn find_field(entries: &Vec<(String, Option<String>)>, key: &str) -> (r: Option<String>)
    ensures
        r matches Some(s) ==> field_text(entries_view(entries@), key@) == Some(s@),
        r is None ==> field_text(entries_view(entries@), key@) is None,
{
    let ghost es = entries_view(entries@);
    let wanted = String::from_str(key);
    let mut i: usize = 0;
    assert(es.subrange(0, es.len() as int) =~= es);
    while i < entries.len()
        invariant
            es == entries_view(entries@),
            i <= entries.len(),
            field_text(es, key@) == field_text(es.subrange(i as int, es.len() as int), key@),
            wanted@ == key@,
        decreases entries.len() - i,
    {
        let ghost rest = es.subrange(i as int, es.len() as int);
        assert(rest.drop_first() =~= es.subrange(i + 1, es.len() as int));
        assert(rest[0] == entry_view(entries@[i as int]));
        if entries[i].0 == wanted {
            assert(field_text(rest, key@) == rest[0].1);
            return match &entries[i].1 {
                Some(s) => {
                    assert(rest[0].1 == Some(s@));
                    Some(s.clone())
                },
                None => None,
            };
        }
        i = i + 1;
    }
    None
}

/// Reads the three task fields out of object entries; a field that is missing,
/// or not a string, makes it fail.
pub fn task_from_entries(entries: &Vec<(String, Option<String>)>) -> (r: Result<Task, TaskError>)
    ensures
        r matches Ok(t) ==> task_of_entries(entries_view(entries@)) == Some(t@),
        r is Err ==> task_of_entries(entries_view(entries@)) is None,
        r matches Err(e) ==> e == TaskError::Deserialization,
{
    let name = find_field(entries, "name");
    let priority = find_field(entries, "priority");
    let details = find_field(entries, "details");
    match (name, priority, details) {
        (Some(name), Some(priority), Some(details)) => Ok(Task { name, priority, details }),
        _ => Err(TaskError::Deserialization),
    }
}

/// Reads a stored task back from its text.
pub fn decode_task(text: &str) -> (r: Result<Task, TaskError>)
    ensures
        r matches Ok(t) ==> decoded(text@) == Some(t@),
        r is Err ==> decoded(text@) is None,
        r matches Err(e) ==> e == TaskError::Deserialization,
{
    match json_object(text) {
        Ok(entries) => task_from_entries(&entries),
        Err(_) => Err(TaskError::Deserialization),
    }
}

/// Puts JSON literals in place as the list object's `task_ids`.
pub fn frame_task_list(quoted: &Vec<String>) -> (r: String)
    ensures
        r@ == task_list_json(quoted@.map_values(|q: String| q@)),
{
    let ghost qs = quoted@.map_values(|q: String| q@);
    let mut body = String::new();
    let mut i: usize = 0;
    while i < quoted.len()
        invariant
            qs == quoted@.map_values(|q: String| q@),
            i <= quoted.len(),
            body@ == comma_joined(qs.subrange(0, i as int)),
        decreases quoted.len() - i,
    {
        assert(qs.subrange(0, i + 1).drop_last() =~= qs.subrange(0, i as int));
        if i > 0 {
            body.append(",");
        }
        body.append(quoted[i].as_str());
        i = i + 1;
    }
    assert(qs.subrange(0, quoted.len() as int) =~= qs);
    let mut r = String::from_str("{\"task_ids\":[");
    r.append(body.as_str());
    r.append("]}");
    r
}

/// Writes the body that lists the given file names.
pub fn encode_task_list(names: &Vec<String>) -> (r: Result<String, TaskError>)
    ensures
        r matches Ok(s) && s@ == encoded_list(names@.map_values(|n: String| n@)),
{
    let ghost ns = names@.map_values(|n: String| n@);
    let mut quoted: Vec<String> = Vec::new();
    let mut i: usize = 0;
    while i < names.len()
        invariant
            ns == names@.map_values(|n: String| n@),
            i <= names.len(),
            quoted@.len() == i,
            forall|j: int| 0 <= j < i ==> #[trigger] quoted@[j]@ == json_string_of(ns[j]),
        decreases names.len() - i,
    {
        match json_string(names[i].as_str()) {
            Ok(q) => quoted.push(q),
            Err(_) => return Err(TaskError::Serialization),
        }
        i = i + 1;
    }
    let r = frame_task_list(&quoted);
    assert(quoted@.map_values(|q: String| q@) =~= ns.map_values(|n: Seq<char>| json_string_of(n)));
    Ok(r)
}

} // verus!
