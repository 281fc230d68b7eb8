//! `config get`: one value of the daemon's effective configuration, found by
//! its dotted key in the configuration document.

use vstd::prelude::*;
use crate::commands::{key_parts, split_key};
use crate::text::str_equal;

verus! {

/// A JSON document, as far as a lookup by key reads it.
pub enum JsonValue {
    Null,
    Bool(bool),
    /// A number, as its JSON text.
    Number(String),
    Text(String),
    Array(Vec<JsonValue>),
    /// An object's members, in order.
    Object(Vec<(String, JsonValue)>),
}

/// The value of the first member named `key`.
pub open spec fn member(members: Seq<(String, JsonValue)>, key: Seq<char>) -> Option<JsonValue>
    decreases members.len(),
{
    if members.len() == 0 {
        None
    } else if members[0].0@ == key {
        Some(members[0].1)
    } else {
        member(members.drop_first(), key)
    }
}

/// What `serde_json::Value::get` gives for a key: an object's member, and
/// nothing from any other value.
pub open spec fn json_get(v: JsonValue, key: Seq<char>) -> Option<JsonValue> {
    match v {
        JsonValue::Object(members) => member(members@, key),
        _ => None,
    }
}

/// The value reached by following `parts` from `v`, one member per part.
pub open spec fn json_path(v: JsonValue, parts: Seq<Seq<char>>) -> Option<JsonValue>
    decreases parts.len(),
{
    if parts.len() == 0 {
        Some(v)
    } else {
        match json_get(v, parts[0]) {
            Some(next) => json_path(next, parts.drop_first()),
            None => None,
        }
    }
}

pub open spec fn unknown_key_message(key: Seq<char>) -> Seq<char> {
    "Unknown configuration key: "@ + key
}

fn get_member<'a>(v: &'a JsonValue, key: &str) -> (r: Option<&'a JsonValue>)
    ensures
        match json_get(*v, key@) {
            Some(found) => r matches Some(f) && *f == found,
            None => r is None,
        },
{
    match v {
        JsonValue::Object(members) => {
            assert(json_get(*v, key@) == member(members@, key@));
            let mut i: usize = 0;
            assert(members@.skip(0) =~= members@);
            while i < members.len()
                invariant
                    i <= members@.len(),
                    json_get(*v, key@) == member(members@, key@),
                    member(members@, key@) == member(members@.skip(i as int), key@),
                decreases members.len() - i,
            {
                assert(members@.skip(i as int).drop_first() =~= members@.skip(i + 1));
                assert(members@.skip(i as int)[0] == members@[i as int]);
                if str_equal(members[i].0.as_str(), key) {
                    assert(member(members@.skip(i as int), key@) == Some(members@[i as int].1));
                    let found = &members[i].1;
                    assert(*found == members@[i as int].1);
                    return Some(found);
                }
                i = i + 1;
            }
            assert(members@.skip(members@.len() as int).len() == 0);
            None
        },
        _ => None,
    }
}

/// Follow a dotted key through the configuration document; a key that names
/// nothing is reported by name.
pub fn config_value<'a>(data: &'a JsonValue, key: &str) -> (r: Result<&'a JsonValue, String>)
    ensures
        match json_path(*data, key_parts(key@)) {
            Some(found) => r matches Ok(f) && *f == found,
            None => r matches Err(m) && m@ == unknown_key_message(key@),
        },
{
    let parts = split_key(key);
    let ghost all = parts@.map_values(|s: String| s@);
    let mut current: &JsonValue = data;
    let mut i: usize = 0;
    assert(all.skip(0) =~= all);
    while i < parts.len()
        invariant
            i <= parts@.len(),
            all == parts@.map_values(|s: String| s@),
            all == key_parts(key@),
            json_path(*data, all) == json_path(*current, all.skip(i as int)),
        decreases parts.len() - i,
    {
        assert(all.skip(i as int)[0] == parts@[i as int]@);
        assert(all.skip(i as int).drop_first() =~= all.skip(i + 1));
        match get_member(current, parts[i].as_str()) {
            Some(next) => {
                current = next;
            },
            None => {
                let mut m = String::from_str("Unknown configuration key: ");
                m.append(key);
                return Err(m);
            },
        }
        i = i + 1;
    }
    assert(all.skip(parts@.len() as int).len() == 0);
    Ok(current)
}

/// How a found value is printed in table form: a string bare (so it reads
/// straight into a shell variable), an object as indented JSON, anything
/// else as compact JSON.
pub enum ValueForm {
    Bare(String),
    Pretty,
    Compact,
}

pub fn value_form(v: &JsonValue) -> (r: ValueForm)
    ensures
        match *v {
            JsonValue::Text(s) => r matches ValueForm::Bare(b) && b@ == s@,
            JsonValue::Object(_) => r is Pretty,
            _ => r is Compact,
        },
{
    match v {
        JsonValue::Text(s) => ValueForm::Bare(s.clone()),
        JsonValue::Object(_) => ValueForm::Pretty,
        _ => ValueForm::Compact,
    }
}

} // verus!
