use vstd::prelude::*;
use vstd::string::StringExecFns;

verus! {

#[verifier::external_type_specification]
#[verifier::external_body]
pub struct ExValue(serde_json::Value);

/// A JSON document as mathematical values. A number is kept as the
/// non-negative integer it is, or `None` where it is negative or fractional.
pub enum JsonView {
    Null,
    Bool(bool),
    Number(Option<u64>),
    Text(Seq<char>),
    Array(Seq<JsonView>),
    Object(Seq<(Seq<char>, JsonView)>),
}

/// A JSON document. An object lists its members in the order of its keys,
/// each key once.
pub enum Json {
    Null,
    Bool(bool),
    Number(Option<u64>),
    Text(String),
    Array(Vec<Json>),
    Object(Vec<(String, Json)>),
}

/// What a document holds, as mathematical values.
pub open spec fn json_view(j: Json) -> JsonView
    decreases j,
{
    match j {
        Json::Null => JsonView::Null,
        Json::Bool(b) => JsonView::Bool(b),
        Json::Number(n) => JsonView::Number(n),
        Json::Text(t) => JsonView::Text(t@),
        Json::Array(items) => JsonView::Array(
            Seq::new(
                items.len() as nat,
                |i: int|
                    if 0 <= i < items.len() {
                        json_view(items[i])
                    } else {
                        JsonView::Null
                    },
            ),
        ),
        Json::Object(members) => JsonView::Object(
            Seq::new(
                members.len() as nat,
                |i: int|
                    if 0 <= i < members.len() {
                        (members[i].0@, json_view(members[i].1))
                    } else {
                        (Seq::empty(), JsonView::Null)
                    },
            ),
        ),
    }
}

impl View for Json {
    type V = JsonView;

    open spec fn view(&self) -> JsonView {
        json_view(*self)
    }
}

/// The document that `serde_json` reads from the text, or `None` where the
/// text is not one JSON document.
pub uninterp spec fn json_of(text: Seq<char>) -> Option<JsonView>;

/// Relies on `serde_json::Value`'s variants and on `serde_json::Number::as_u64`:
/// a value turned, variant by variant, into the library's document.
#[verifier::external_body]
fn from_value(v: serde_json::Value) -> Json {
    match v {
        serde_json::Value::Null => Json::Null,
        serde_json::Value::Bool(b) => Json::Bool(b),
        serde_json::Value::Number(n) => Json::Number(n.as_u64()),
        serde_json::Value::String(s) => Json::Text(s),
        serde_json::Value::Array(a) => Json::Array(a.into_iter().map(from_value).collect()),
        serde_json::Value::Object(o) => Json::Object(o.into_iter().map(|(k, x)| (k, from_value(x))).collect()),
    }
}

/// Relies on `serde_json::from_str` into a `serde_json::Value`: whether the
/// text holds one JSON document, and which, depends on the text alone.
#[verifier::external_body]
pub(crate) fn parse_json(text: &str) -> (r: Option<Json>)
    ensures
        r is Some <==> json_of(text@) is Some,
        r is Some ==> json_of(text@) == Some(r->0@),
{
    serde_json::from_str::<serde_json::Value>(text).ok().map(from_value)
}

/// The value of the first member named `key` at or after position `i`.
pub open spec fn member_from(members: Seq<(Seq<char>, JsonView)>, key: Seq<char>, i: int) -> Option<JsonView>
    decreases members.len() - i,
{
    if i < 0 || i >= members.len() {
        None
    } else if members[i].0 == key {
        Some(members[i].1)
    } else {
        member_from(members, key, i + 1)
    }
}

/// The member named `key` of an object; `None` for any other document.
pub open spec fn member_of(d: JsonView, key: Seq<char>) -> Option<JsonView> {
    match d {
        JsonView::Object(members) => member_from(members, key, 0),
        _ => None,
    }
}

/// The integer that a member holds, where it is a non-negative integer.
pub open spec fn integer_of(v: Option<JsonView>) -> Option<u64> {
    match v {
        Some(JsonView::Number(n)) => n,
        _ => None,
    }
}

/// The text that a member holds, where it is a string.
pub open spec fn text_of(v: Option<JsonView>) -> Option<Seq<char>> {
    match v {
        Some(JsonView::Text(t)) => Some(t),
        _ => None,
    }
}

/// The document that an optional reference points to.
pub open spec fn viewed(v: Option<&Json>) -> Option<JsonView> {
    match v {
        Some(j) => Some(j@),
        None => None,
    }
}

/// The member named `key` of an object.
pub fn member<'a>(v: &'a Json, key: &str) -> (r: Option<&'a Json>)
    ensures
        viewed(r) == member_of(v@, key@),
{
    match v {
        Json::Object(members) => {
            let ghost ms = match v@ {
                JsonView::Object(ms) => ms,
                _ => Seq::empty(),
            };
            assert(v@ == JsonView::Object(ms));
            let k = String::from_str(key);
            let mut i: usize = 0;
            while i < members.len()
                invariant
                    i <= members.len(),
                    ms.len() == members.len(),
                    k@ == key@,
                    v@ == JsonView::Object(ms),
                    forall|j: int| 0 <= j < members.len() ==> #[trigger] ms[j] == (members[j].0@, members[j].1@),
                    member_from(ms, key@, 0) == member_from(ms, key@, i as int),
                decreases members.len() - i,
            {
                assert(ms[i as int] == (members[i as int].0@, members[i as int].1@));
                if members[i].0 == k {
                    assert(member_from(ms, key@, i as int) == Some(ms[i as int].1));
                    return Some(&members[i].1);
                }
                i = i + 1;
            }
            None
        },
        _ => None,
    }
}

/// The integer that a document holds, where it is a non-negative integer.
pub fn as_u64(v: Option<&Json>) -> (r: Option<u64>)
    ensures
        r == integer_of(viewed(v)),
{
    match v {
        Some(Json::Number(n)) => *n,
        _ => None,
    }
}

/// The text that a document holds, where it is a string.
pub fn as_text(v: Option<&Json>) -> (r: Option<String>)
    ensures
        r.deep_view() == text_of(viewed(v)),
{
    match v {
        Some(Json::Text(t)) => Some(t.clone()),
        _ => None,
    }
}

} // verus!
