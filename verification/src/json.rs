//! The JSON model the library reads: values as `serde_json` parses them,
//! member lookup, and the parse itself.
use vstd::prelude::*;
use crate::text::str_eq;

verus! {

/// A JSON value, as the event stream's frames and config.json carry it. Numbers keep
/// their text; an object keeps its members in order (keys are unique).
#[derive(Debug)]
pub enum Json {
    Null,
    Bool(bool),
    Number(String),
    Str(String),
    Array(Vec<Json>),
    Object(Vec<(String, Json)>),
}

/// The value of the first member named `key` among `members`.
pub open spec fn find_member(members: Seq<(String, Json)>, key: Seq<char>) -> Option<Json>
    decreases members.len(),
{
    if members.len() == 0 {
        None
    } else if members[0].0@ == key {
        Some(members[0].1)
    } else {
        find_member(members.skip(1), key)
    }
}

/// Member `key` of `v` when `v` is an object (JSON pointer step).
pub open spec fn json_get(v: Json, key: Seq<char>) -> Option<Json> {
    match v {
        Json::Object(members) => find_member(members@, key),
        _ => None,
    }
}

/// Member `key` of an optional value.
pub open spec fn json_get_opt(v: Option<Json>, key: Seq<char>) -> Option<Json> {
    match v {
        Some(x) => json_get(x, key),
        None => None,
    }
}

/// The text of an optional value that is a JSON string.
pub open spec fn json_str(v: Option<Json>) -> Option<Seq<char>> {
    match v {
        Some(Json::Str(s)) => Some(s@),
        _ => None,
    }
}

proof fn lemma_find_member_skip(members: Seq<(String, Json)>, key: Seq<char>, i: int)
    requires
        0 <= i <= members.len(),
        forall|j: int| 0 <= j < i ==> members[j].0@ != key,
    ensures
        find_member(members, key) == find_member(members.skip(i), key),
    decreases i,
{
    if i > 0 {
        assert(members.skip(1).skip(i - 1) =~= members.skip(i));
        lemma_find_member_skip(members.skip(1), key, i - 1);
    } else {
        assert(members.skip(0) =~= members);
    }
}

/// Looks up member `key` of `v`.
pub fn get<'a>(v: &'a Json, key: &str) -> (r: Option<&'a Json>)
    ensures
        match r {
            Some(x) => json_get(*v, key@) == Some(*x),
            None => json_get(*v, key@) is None,
        },
{
    match v {
        Json::Object(members) => {
            let n = members.len();
            let mut i: usize = 0;
            while i < n
                invariant
                    n == members@.len(),
                    i <= n,
                    json_get(*v, key@) == find_member(members@, key@),
                    forall|j: int| 0 <= j < i ==> members@[j].0@ != key@,
                decreases n - i,
            {
                if str_eq(members[i].0.as_str(), key) {
                    proof {
                        lemma_find_member_skip(members@, key@, i as int);
                        assert(members@.skip(i as int)[0] == members@[i as int]);
                    }
                    return Some(&members[i].1);
                }
                i = i + 1;
            }
            proof {
                lemma_find_member_skip(members@, key@, n as int);
            }
            None
        },
        _ => None,
    }
}

/// The text of `v` when it is a JSON string.
pub fn as_str<'a>(v: Option<&'a Json>) -> (r: Option<&'a String>)
    ensures
        match r {
            Some(s) => json_str(match v {
                Some(x) => Some(*x),
                None => None,
            }) == Some(s@),
            None => json_str(match v {
                Some(x) => Some(*x),
                None => None,
            }) is None,
        },
{
    match v {
        Some(Json::Str(s)) => Some(s),
        _ => None,
    }
}

// ---------------------------------------------------------------- parsing

/// The JSON value type of `serde_json` (`serde_json::Value`), carried opaque.
#[verifier::external_type_specification]
#[verifier::external_body]
pub struct ExJsonValue(serde_json::Value);

/// What `serde_json::from_str::<serde_json::Value>` makes of `raw`, as a
/// [`Json`]: `None` when `raw` is not one JSON value.
pub uninterp spec fn json_text(raw: Seq<char>) -> Option<Json>;

/// Moves a `serde_json::Value` into a [`Json`], variant for variant; a
/// number keeps the text `serde_json` prints for it, an object its members in
/// the order the map hands them out.
#[verifier::external_body]
fn value_to_json(v: serde_json::Value) -> Json {
    match v {
        serde_json::Value::Null => Json::Null,
        serde_json::Value::Bool(b) => Json::Bool(b),
        serde_json::Value::Number(n) => Json::Number(n.to_string()),
        serde_json::Value::String(s) => Json::Str(s),
        serde_json::Value::Array(a) => Json::Array(a.into_iter().map(value_to_json).collect()),
        serde_json::Value::Object(m) => Json::Object(
            m.into_iter().map(|(k, x)| (k, value_to_json(x))).collect(),
        ),
    }
}

/// JSON text of a boolean.
pub open spec fn bool_text(b: bool) -> Seq<char> {
    if b {
        "true"@
    } else {
        "false"@
    }
}

/// One member line of a pretty-printed object: two spaces, the quoted key,
/// a colon, a space and the boolean.
pub open spec fn bool_member_text(m: (Seq<char>, bool)) -> Seq<char> {
    "  \""@ + m.0 + "\": "@ + bool_text(m.1)
}

/// The member lines of `ms`, separated by a comma and a line break.
pub open spec fn bool_members_text(ms: Seq<(Seq<char>, bool)>) -> Seq<char>
    decreases ms.len(),
{
    if ms.len() == 0 {
        Seq::empty()
    } else if ms.len() == 1 {
        bool_member_text(ms[0])
    } else {
        bool_member_text(ms[0]) + ",\n"@ + bool_members_text(ms.skip(1))
    }
}

/// The text `serde_json::to_string_pretty` writes for an object whose members
/// are the booleans `ms`, in that order.
pub open spec fn bool_object_text(ms: Seq<(Seq<char>, bool)>) -> Seq<char> {
    if ms.len() == 0 {
        "{}"@
    } else {
        "{\n"@ + bool_members_text(ms) + "\n}"@
    }
}

/// Keys written as they are: each is non-empty, made of lower-case ASCII
/// letters and '_', and no key comes twice.
pub open spec fn plain_keys(ms: Seq<(Seq<char>, bool)>) -> bool {
    &&& forall|i: int|
        0 <= i < ms.len() ==> #[trigger] ms[i].0.len() > 0 && forall|j: int|
            0 <= j < ms[i].0.len() ==> ('a' <= #[trigger] ms[i].0[j] <= 'z' || ms[i].0[j] == '_')
    &&& forall|i: int, j: int| 0 <= i < j < ms.len() ==> #[trigger] ms[i].0 != #[trigger] ms[j].0
}

/// `v` is an object whose members are exactly the keys of `ms`, each with
/// its boolean.
pub open spec fn holds_bools(v: Option<Json>, ms: Seq<(Seq<char>, bool)>) -> bool {
    &&& v matches Some(Json::Object(_))
    &&& forall|i: int| 0 <= i < ms.len() ==> json_get_opt(v, #[trigger] ms[i].0) == Some(Json::Bool(ms[i].1))
    &&& forall|k: Seq<char>|
        (forall|i: int| 0 <= i < ms.len() ==> #[trigger] ms[i].0 != k) ==> #[trigger] json_get_opt(v, k) is None
}

/// Parses `raw` with `serde_json::from_str` into a `serde_json::Value` and
/// converts it. The result is a function of the text alone; which values
/// `serde_json` accepts and how it orders an object's members is not written
/// out here: the result is named `json_text(raw)`. One fact is stated, that a
/// read gives back what `serde_json::to_string_pretty` wrote for an object of
/// booleans under plain, distinct keys: that text parses to an object with
/// exactly those members.
#[verifier::external_body]
pub(crate) fn parse_json(raw: &str) -> (r: Option<Json>)
    ensures
        r == json_text(raw@),
        forall|ms: Seq<(Seq<char>, bool)>|
            #[trigger] bool_object_text(ms) == raw@ && plain_keys(ms) ==> holds_bools(r, ms),
{
    serde_json::from_str::<serde_json::Value>(raw).ok().map(value_to_json)
}

} // verus!
