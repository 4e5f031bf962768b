//! A JSON document tree, its parsing, and the look-ups that registry responses are
//! read with.

use vstd::prelude::*;

verus! {

/// A JSON value.
pub enum JsonValue {
    Null,
    Bool(bool),
    /// A number, held as the `u64` it equals when it is a non-negative integer in the
    /// range of `u64`, and as `None` otherwise.
    Number(Option<u64>),
    Str(String),
    Array(Vec<JsonValue>),
    /// An object's members in order; a look-up finds the first member with the key.
    Object(Vec<(String, JsonValue)>),
}

/// The contents of a [`JsonValue`] as plain values.
pub enum JsonView {
    Null,
    Bool(bool),
    Number(Option<u64>),
    Str(Seq<char>),
    Array(Seq<JsonView>),
    Object(Seq<(Seq<char>, JsonView)>),
}

/// The views of the values in `s`.
pub open spec fn views_of(s: Seq<JsonValue>) -> Seq<JsonView>
    decreases s,
{
    if s.len() == 0 {
        Seq::empty()
    } else {
        seq![json_view(s[0])] + views_of(s.drop_first())
    }
}

/// The views of the members in `s`.
pub open spec fn member_views(s: Seq<(String, JsonValue)>) -> Seq<(Seq<char>, JsonView)>
    decreases s,
{
    if s.len() == 0 {
        Seq::empty()
    } else {
        seq![(s[0].0@, json_view(s[0].1))] + member_views(s.drop_first())
    }
}

/// The view of a JSON value.
pub open spec fn json_view(v: JsonValue) -> JsonView
    decreases v,
{
    match v {
        JsonValue::Null => JsonView::Null,
        JsonValue::Bool(b) => JsonView::Bool(b),
        JsonValue::Number(n) => JsonView::Number(n),
        JsonValue::Str(s) => JsonView::Str(s@),
        JsonValue::Array(a) => JsonView::Array(views_of(a@)),
        JsonValue::Object(m) => JsonView::Object(member_views(m@)),
    }
}

impl View for JsonValue {
    type V = JsonView;

    open spec fn view(&self) -> JsonView {
        json_view(*self)
    }
}

/// The view of each value is the value at the same place of the views.
pub proof fn lemma_views_of(s: Seq<JsonValue>)
    ensures
        views_of(s).len() == s.len(),
        forall|i: int| 0 <= i < s.len() ==> #[trigger] views_of(s)[i] == json_view(s[i]),
    decreases s.len(),
{
    if s.len() > 0 {
        lemma_views_of(s.drop_first());
        assert forall|i: int| 0 <= i < s.len() implies #[trigger] views_of(s)[i] == json_view(s[i]) by {
            if i > 0 {
                assert(views_of(s)[i] == views_of(s.drop_first())[i - 1]);
            }
        }
    }
}

/// The view of each member is the member at the same place of the views.
pub proof fn lemma_member_views(s: Seq<(String, JsonValue)>)
    ensures
        member_views(s).len() == s.len(),
        forall|i: int|
            0 <= i < s.len() ==> #[trigger] member_views(s)[i] == (s[i].0@, json_view(s[i].1)),
    decreases s.len(),
{
    if s.len() > 0 {
        lemma_member_views(s.drop_first());
        assert forall|i: int| 0 <= i < s.len() implies #[trigger] member_views(s)[i] == (
            s[i].0@,
            json_view(s[i].1),
        ) by {
            if i > 0 {
                assert(member_views(s)[i] == member_views(s.drop_first())[i - 1]);
            }
        }
    }
}

/// The JSON document that `serde_json` reads from the text `body`, or `None` when
/// `body` is not JSON.
pub uninterp spec fn json_document(body: Seq<char>) -> Option<JsonView>;

/// The message of the `serde_json` error for the text `body`.
pub uninterp spec fn json_error(body: Seq<char>) -> Seq<char>;

/// `serde_json::Value`, a parsed JSON document.
#[verifier::external_type_specification]
#[verifier::external_body]
pub struct ExSerdeJsonValue(serde_json::Value);

/// Converts a `serde_json::Value` into the library's tree, variant by variant
/// (`as_u64` for numbers). No contract of its own: `parse_json` states what the
/// parse and this conversion give together.
#[verifier::external_body]
fn from_serde(v: &serde_json::Value) -> JsonValue {
    match v {
        serde_json::Value::Null => JsonValue::Null,
        serde_json::Value::Bool(b) => JsonValue::Bool(*b),
        serde_json::Value::Number(n) => JsonValue::Number(n.as_u64()),
        serde_json::Value::String(s) => JsonValue::Str(s.clone()),
        serde_json::Value::Array(items) => JsonValue::Array(items.iter().map(from_serde).collect()),
        serde_json::Value::Object(members) => {
            let mut out = Vec::new();
            for (k, x) in members {
                out.push((k.clone(), from_serde(x)));
            }
            JsonValue::Object(out)
        },
    }
}

/// Calls `serde_json::from_str::<serde_json::Value>` and converts the document.
/// Claimed: the named document when `body` is JSON, else the named message of the
/// `serde_json` error (its `Display` text); both are functions of `body` alone.
#[verifier::external_body]
pub(crate) fn parse_json(body: &str) -> (r: Result<JsonValue, String>)
    ensures
        match r {
            Ok(v) => json_document(body@) == Some(v@),
            Err(m) => json_document(body@) is None && m@ == json_error(body@),
        },
{
    match serde_json::from_str::<serde_json::Value>(body) {
        Ok(v) => Ok(from_serde(&v)),
        Err(e) => Err(e.to_string()),
    }
}

/// The value of the first member of `members` named `key`.
pub open spec fn member_lookup(members: Seq<(Seq<char>, JsonView)>, key: Seq<char>) -> Option<JsonView>
    decreases members.len(),
{
    if members.len() == 0 {
        None
    } else if members[0].0 == key {
        Some(members[0].1)
    } else {
        member_lookup(members.drop_first(), key)
    }
}

/// The member `key` of `v` when `v` is an object that has one.
pub open spec fn json_get(v: JsonView, key: Seq<char>) -> Option<JsonView> {
    match v {
        JsonView::Object(members) => member_lookup(members, key),
        _ => None,
    }
}

/// The characters of `v` when `v` is a string.
pub open spec fn json_as_str(v: JsonView) -> Option<Seq<char>> {
    match v {
        JsonView::Str(s) => Some(s),
        _ => None,
    }
}

/// The elements of `v` when `v` is an array.
pub open spec fn json_as_array(v: JsonView) -> Option<Seq<JsonView>> {
    match v {
        JsonView::Array(a) => Some(a),
        _ => None,
    }
}

/// The number `v` holds when it is a non-negative integer in the range of `u64`.
pub open spec fn json_as_u64(v: JsonView) -> Option<u64> {
    match v {
        JsonView::Number(n) => n,
        _ => None,
    }
}

/// The string under `key` in `v`, if `v` has such a member and it is a string.
pub open spec fn json_str_at(v: JsonView, key: Seq<char>) -> Option<Seq<char>> {
    match json_get(v, key) {
        Some(x) => json_as_str(x),
        None => None,
    }
}

/// The elements under `key` in `v`, if `v` has such a member and it is an array.
pub open spec fn json_array_at(v: JsonView, key: Seq<char>) -> Option<Seq<JsonView>> {
    match json_get(v, key) {
        Some(x) => json_as_array(x),
        None => None,
    }
}

/// The view of an optional reference to a value.
pub open spec fn view_opt(o: Option<&JsonValue>) -> Option<JsonView> {
    match o {
        Some(x) => Some(json_view(*x)),
        None => None,
    }
}

proof fn lemma_member_lookup_smaller(members: Seq<(Seq<char>, JsonView)>, key: Seq<char>)
    ensures
        member_lookup(members, key) matches Some(x) ==> decreases_to!(members => x),
    decreases members.len(),
{
    if members.len() > 0 {
        if members[0].0 == key {
            assert(decreases_to!(members => members[0]));
            assert(decreases_to!(members[0] => members[0].1));
        } else {
            lemma_member_lookup_smaller(members.drop_first(), key);
        }
    }
}

/// A member's value lies strictly inside the object that holds it.
pub proof fn lemma_get_smaller(v: JsonView, key: Seq<char>)
    ensures
        json_get(v, key) matches Some(x) ==> decreases_to!(v => x),
{
    if let JsonView::Object(members) = v {
        lemma_member_lookup_smaller(members, key);
        assert(decreases_to!(v => members));
    }
}

impl JsonValue {
    /// The member `key` of this value, as `serde_json::Value::get` gives it for a
    /// string index.
    pub fn get(&self, key: &str) -> (r: Option<&JsonValue>)
        ensures
            view_opt(r) == json_get(self@, key@),
    {
        match self {
            JsonValue::Object(members) => {
                let ghost ms = member_views(members@);
                proof {
                    lemma_member_views(members@);
                }
                let n = members.len();
                let mut i: usize = 0;
                assert(ms.skip(0) == ms);
                while i < n
                    invariant
                        n == members@.len(),
                        ms == member_views(members@),
                        ms.len() == n,
                        forall|k: int| 0 <= k < n ==> #[trigger] ms[k] == (members@[k].0@, json_view(members@[k].1)),
                        i <= n,
                        json_get(self@, key@) == member_lookup(ms, key@),
                        member_lookup(ms, key@) == member_lookup(ms.skip(i as int), key@),
                    decreases n - i,
                {
                    assert(ms.skip(i as int).drop_first() == ms.skip(i + 1));
                    assert(ms.skip(i as int)[0] == ms[i as int]);
                    if crate::text::str_eq(members[i].0.as_str(), key) {
                        assert(member_lookup(ms.skip(i as int), key@) == Some(json_view(members@[i as int].1)));
                        return Some(&members[i].1);
                    }
                    i = i + 1;
                }
                None
            },
            _ => None,
        }
    }

    /// This value's characters when it is a string.
    pub fn as_str(&self) -> (r: Option<&str>)
        ensures
            match r {
                Some(s) => json_as_str(self@) == Some(s@),
                None => json_as_str(self@) is None,
            },
    {
        match self {
            JsonValue::Str(s) => Some(s.as_str()),
            _ => None,
        }
    }

    /// This value's elements when it is an array.
    pub fn as_array(&self) -> (r: Option<&Vec<JsonValue>>)
        ensures
            match r {
                Some(a) => json_as_array(self@) == Some(views_of(a@)),
                None => json_as_array(self@) is None,
            },
    {
        match self {
            JsonValue::Array(a) => Some(a),
            _ => None,
        }
    }

    /// This value's number when it is a non-negative integer in the range of `u64`.
    pub fn as_u64(&self) -> (r: Option<u64>)
        ensures
            r == json_as_u64(self@),
    {
        match self {
            JsonValue::Number(n) => *n,
            _ => None,
        }
    }
}

} // verus!
