//! The JSON documents that the remote endpoint answers with.
use vstd::prelude::*;

verus! {

/// A JSON value, as the adapter reads it.
#[derive(Debug)]
pub enum Json {
    Null,
    Bool(bool),
    /// A number that fits an `i64`.
    Int(i64),
    /// Any other number, kept as its JSON text.
    Number(String),
    Str(String),
    Array(Vec<Json>),
    /// An object's members, in the order the parser keeps them.
    Object(Vec<(String, Json)>),
}

/// The mathematical model of a [`Json`] value.
pub enum JsonView {
    Null,
    Bool(bool),
    Int(i64),
    Number(Seq<char>),
    Str(Seq<char>),
    Array(Seq<JsonView>),
    Object(Seq<(Seq<char>, JsonView)>),
}

impl Json {
    pub open spec fn view(&self) -> JsonView
        decreases self,
    {
        match self {
            Json::Null => JsonView::Null,
            Json::Bool(b) => JsonView::Bool(*b),
            Json::Int(i) => JsonView::Int(*i),
            Json::Number(s) => JsonView::Number(s@),
            Json::Str(s) => JsonView::Str(s@),
            Json::Array(items) => JsonView::Array(
                Seq::new(
                    items@.len(),
                    |i: int|
                        if 0 <= i < items@.len() {
                            items@[i].view()
                        } else {
                            JsonView::Null
                        },
                ),
            ),
            Json::Object(members) => JsonView::Object(
                Seq::new(
                    members@.len(),
                    |i: int|
                        if 0 <= i < members@.len() {
                            (members@[i].0@, members@[i].1.view())
                        } else {
                            (Seq::empty(), JsonView::Null)
                        },
                ),
            ),
        }
    }
}

/// The member named `name` of an object: the first one that carries that name.
pub open spec fn member_from(
    members: Seq<(Seq<char>, JsonView)>,
    name: Seq<char>,
    i: int,
) -> Option<JsonView>
    decreases members.len() - i,
{
    if i < 0 || i >= members.len() {
        None
    } else if members[i].0 == name {
        Some(members[i].1)
    } else {
        member_from(members, name, i + 1)
    }
}

/// What `v[name]` is when `v` is an object; `None` for any other value.
pub open spec fn member_of(v: JsonView, name: Seq<char>) -> Option<JsonView> {
    match v {
        JsonView::Object(members) => member_from(members, name, 0),
        _ => None,
    }
}

/// The position, among the members of `v`, of the member named `name`
/// (case-sensitive; the first one where several carry the name).
pub fn member_position(v: &Json, name: &String) -> (r: Option<usize>)
    ensures
        match r {
            Some(i) => v is Object && i < v->Object_0@.len() && member_of(v@, name@) == Some(
                v->Object_0@[i as int].1@,
            ),
            None => member_of(v@, name@) is None,
        },
{
    match v {
        Json::Object(members) => {
            let ghost ms = match v@ {
                JsonView::Object(ms) => ms,
                _ => Seq::empty(),
            };
            let mut i: usize = 0;
            while i < members.len()
                invariant
                    i <= members@.len(),
                    ms.len() == members@.len(),
                    forall|j: int|
                        0 <= j < ms.len() ==> #[trigger] ms[j] == (members@[j].0@, members@[j].1@),
                    member_of(v@, name@) == member_from(ms, name@, i as int),
                    v is Object && v->Object_0@ == members@,
                decreases members.len() - i,
            {
                assert(ms[i as int] == (members@[i as int].0@, members@[i as int].1@));
                if members[i].0 == *name {
                    return Some(i);
                }
                i = i + 1;
            }
            None
        },
        _ => None,
    }
}

/// Looks a member up by its exact name (case-sensitive).
pub fn member<'a>(v: &'a Json, name: &String) -> (r: Option<&'a Json>)
    ensures
        match r {
            Some(x) => member_of(v@, name@) == Some(x@),
            None => member_of(v@, name@) is None,
        },
{
    match member_position(v, name) {
        Some(i) => match v {
            Json::Object(members) => Some(&members[i].1),
            _ => None,
        },
        None => None,
    }
}

/// Takes the member named `name` out of `v`.
pub fn take_member(v: Json, name: &String) -> (r: Option<Json>)
    ensures
        match r {
            Some(x) => member_of(v@, name@) == Some(x@),
            None => member_of(v@, name@) is None,
        },
{
    match member_position(&v, name) {
        Some(i) => match v {
            Json::Object(mut members) => Some(members.remove(i).1),
            _ => None,
        },
        None => None,
    }
}

/// serde_json's value type, carried through the parsing and printing wrappers.
#[verifier::external_type_specification]
#[verifier::external_body]
pub struct ExJsonValue(serde_json::Value);

/// Builds the [`Json`] mirror of a serde_json value, variant for variant.
#[verifier::external_body]
fn json_from_value(v: serde_json::Value) -> Json {
    match v {
        serde_json::Value::Null => Json::Null,
        serde_json::Value::Bool(b) => Json::Bool(b),
        serde_json::Value::Number(n) => n.as_i64().map_or_else(|| Json::Number(n.to_string()), Json::Int),
        serde_json::Value::String(s) => Json::Str(s),
        serde_json::Value::Array(a) => Json::Array(a.into_iter().map(json_from_value).collect()),
        serde_json::Value::Object(m) => Json::Object(m.into_iter().map(|(k, x)| (k, json_from_value(x))).collect()),
    }
}

/// Builds the serde_json value that a [`Json`] mirrors, variant for variant.
#[verifier::external_body]
fn json_to_value(v: &Json) -> serde_json::Value {
    match v {
        Json::Null => serde_json::Value::Null,
        Json::Bool(b) => serde_json::Value::Bool(*b),
        Json::Int(i) => serde_json::Value::Number((*i).into()),
        Json::Number(s) => s.parse().map_or(serde_json::Value::Null, serde_json::Value::Number),
        Json::Str(s) => serde_json::Value::String(s.clone()),
        Json::Array(a) => serde_json::Value::Array(a.iter().map(json_to_value).collect()),
        Json::Object(m) => serde_json::Value::Object(m.iter().map(|(k, x)| (k.clone(), json_to_value(x))).collect()),
    }
}

/// The value that a JSON text denotes, or `None` where the text is not JSON.
pub uninterp spec fn json_decode(text: Seq<char>) -> Option<JsonView>;

/// The compact JSON text of a value.
pub uninterp spec fn json_encode(v: JsonView) -> Seq<char>;

/// Relies on `serde_json::from_str` into `serde_json::Value`: it accepts a
/// text exactly when it is JSON, and the value depends on the text alone.
#[verifier::external_body]
pub(crate) fn parse_json(text: &str) -> (r: Result<Json, String>)
    ensures
        match r {
            Ok(v) => json_decode(text@) == Some(v@),
            Err(_) => json_decode(text@) is None,
        },
{
    match serde_json::from_str::<serde_json::Value>(text) {
        Ok(v) => Ok(json_from_value(v)),
        Err(e) => Err(e.to_string()),
    }
}

/// Relies on `Display` of `serde_json::Value`: the compact text of the value,
/// which depends on the value alone.
#[verifier::external_body]
pub(crate) fn encode_json(v: &Json) -> (r: String)
    ensures
        r@ == json_encode(v@),
{
    json_to_value(v).to_string()
}

} // verus!
