//! JSON frames: what a `serde_json::Value` holds, and the calls that read and build one.

use vstd::prelude::*;

verus! {

/// What a JSON value holds. A number that is no negative integer is known by the unsigned
/// integer it is, if any.
pub enum Json {
    Null,
    Bool(bool),
    Number(Option<u64>),
    Negative(i64),
    Text(Seq<char>),
    Array(Seq<Json>),
    Object(Map<Seq<char>, Json>),
}

impl Json {
    /// The member of an object under `key`; null where there is none.
    pub open spec fn member(self, key: Seq<char>) -> Json {
        match self {
            Json::Object(m) => if m.contains_key(key) {
                m[key]
            } else {
                Json::Null
            },
            _ => Json::Null,
        }
    }

    /// The text, of a text.
    pub open spec fn text(self) -> Option<Seq<char>> {
        match self {
            Json::Text(s) => Some(s),
            _ => None,
        }
    }

    /// The truth value, of a truth value.
    pub open spec fn flag(self) -> Option<bool> {
        match self {
            Json::Bool(b) => Some(b),
            _ => None,
        }
    }

    /// The unsigned integer, of a number that is one.
    pub open spec fn count(self) -> Option<u64> {
        match self {
            Json::Number(n) => n,
            _ => None,
        }
    }

    /// The text under `key`.
    pub open spec fn text_at(self, key: Seq<char>) -> Option<Seq<char>> {
        self.member(key).text()
    }

    /// The truth value under `key`.
    pub open spec fn flag_at(self, key: Seq<char>) -> Option<bool> {
        self.member(key).flag()
    }

    /// The unsigned integer under `key`.
    pub open spec fn count_at(self, key: Seq<char>) -> Option<u64> {
        self.member(key).count()
    }

    /// It holds no number but integers, and nothing in it does.
    pub open spec fn is_whole(self) -> bool
        decreases self,
    {
        match self {
            Json::Number(n) => n is Some,
            Json::Array(s) => forall|i: int| 0 <= i < s.len() ==> (#[trigger] s[i]).is_whole(),
            Json::Object(m) => forall|k: Seq<char>|
                m.contains_key(k) ==> (#[trigger] m[k]).is_whole(),
            _ => true,
        }
    }

    /// An object with `key` set to `v`.
    pub open spec fn with(self, key: Seq<char>, v: Json) -> Json {
        match self {
            Json::Object(m) => Json::Object(m.insert(key, v)),
            _ => self,
        }
    }
}

/// Setting a member changes that member and no other.
pub broadcast proof fn with_sets_one_member(o: Json, key: Seq<char>, v: Json, k: Seq<char>)
    requires
        o is Object,
    ensures
        o.with(key, v) is Object,
        #[trigger] o.with(key, v).member(k) == if k == key {
            v
        } else {
            o.member(k)
        },
{
}

/// The object without members.
pub open spec fn empty_object() -> Json {
    Json::Object(Map::empty())
}

/// `serde_json::Value`, known only by what it holds.
#[verifier::external_type_specification]
#[verifier::external_body]
pub struct ExValue(serde_json::Value);

/// What a `serde_json::Value` holds.
pub uninterp spec fn json(v: serde_json::Value) -> Json;

/// `serde_json::Value`'s indexing by a text gives the member under that key, and null
/// where the value is no object or has no such member.
#[verifier::external_body]
pub(crate) fn member<'a>(v: &'a serde_json::Value, key: &str) -> (r: &'a serde_json::Value)
    ensures
        json(*r) == json(*v).member(key@),
{
    &v[key]
}

/// `serde_json::Value::as_str` gives the text of a text and nothing of anything else.
#[verifier::external_body]
pub(crate) fn as_text(v: &serde_json::Value) -> (r: Option<&str>)
    ensures
        r is Some <==> json(*v).text() is Some,
        r matches Some(s) ==> json(*v).text() == Some(s@),
{
    v.as_str()
}

/// `serde_json::Value::as_bool` gives the truth value of a truth value and nothing of
/// anything else.
#[verifier::external_body]
pub(crate) fn as_flag(v: &serde_json::Value) -> (r: Option<bool>)
    ensures
        r == json(*v).flag(),
{
    v.as_bool()
}

/// `serde_json::Value::as_u64` gives the number of a number that is an unsigned
/// integer and nothing of anything else.
#[verifier::external_body]
pub(crate) fn as_count(v: &serde_json::Value) -> (r: Option<u64>)
    ensures
        r == json(*v).count(),
{
    v.as_u64()
}

/// `serde_json::Value::as_array` gives the elements of an array and nothing of anything
/// else.
#[verifier::external_body]
pub(crate) fn elements(v: &serde_json::Value) -> (r: Option<&Vec<serde_json::Value>>)
    ensures
        r is Some <==> json(*v) is Array,
        r matches Some(a) ==> a@.len() == json(*v)->Array_0.len() && forall|i: int|
            0 <= i < a@.len() ==> json(#[trigger] a@[i]) == json(*v)->Array_0[i],
{
    v.as_array()
}

/// `serde_json::Value::is_object` holds of an object and of nothing else.
#[verifier::external_body]
pub(crate) fn is_object(v: &serde_json::Value) -> (r: bool)
    ensures
        r == (json(*v) is Object),
{
    v.is_object()
}

/// `serde_json::Map::new` wrapped in `serde_json::Value::Object` is the object
/// without members.
#[verifier::external_body]
pub(crate) fn object() -> (r: serde_json::Value)
    ensures
        json(r) == empty_object(),
{
    serde_json::Value::Object(serde_json::Map::new())
}

/// `serde_json::Value::from` a text holds that text.
#[verifier::external_body]
pub(crate) fn of_text(s: &str) -> (r: serde_json::Value)
    ensures
        json(r) == Json::Text(s@),
{
    serde_json::Value::from(s)
}

/// `serde_json::Value::from` a truth value holds that truth value.
#[verifier::external_body]
pub(crate) fn of_flag(b: bool) -> (r: serde_json::Value)
    ensures
        json(r) == Json::Bool(b),
{
    serde_json::Value::from(b)
}

/// `serde_json::Value::from` an unsigned integer holds that number.
#[verifier::external_body]
pub(crate) fn of_count(n: u64) -> (r: serde_json::Value)
    ensures
        json(r) == Json::Number(Some(n)),
{
    serde_json::Value::from(n)
}

/// `serde_json::Value::from` a list of texts is the array of those texts.
#[verifier::external_body]
pub(crate) fn of_texts(v: Vec<String>) -> (r: serde_json::Value)
    ensures
        json(r) == Json::Array(v@.map_values(|s: String| Json::Text(s@))),
{
    serde_json::Value::from(v)
}

/// `serde_json::Value`'s `clone` holds what the value holds.
#[verifier::external_body]
pub(crate) fn copy(v: &serde_json::Value) -> (r: serde_json::Value)
    ensures
        json(r) == json(*v),
{
    v.clone()
}

/// Assigning through `serde_json::Value`'s indexing by a text sets that member of an
/// object and leaves the others. On a value that is neither an object nor null the
/// indexing panics, so an object is asked for.
#[verifier::external_body]
pub(crate) fn put(v: &mut serde_json::Value, key: &str, m: serde_json::Value)
    requires
        json(*old(v)) is Object,
    ensures
        json(*final(v)) == json(*old(v)).with(key@, json(m)),
{
    v[key] = m;
}

/// `serde_json::Value`'s `==` holds of values only that hold the same, and whenever they do, as
/// long as no number in them is other than an integer. Of other numbers it is not said when
/// it holds.
#[verifier::external_body]
pub(crate) fn same_value(a: &serde_json::Value, b: &serde_json::Value) -> (r: bool)
    ensures
        r ==> json(*a) == json(*b),
        json(*a).is_whole() ==> r == (json(*a) == json(*b)),
{
    a == b
}

/// The text under `key`, if there is one.
pub fn text_at<'a>(v: &'a serde_json::Value, key: &str) -> (r: Option<&'a str>)
    ensures
        r is Some <==> json(*v).text_at(key@) is Some,
        r matches Some(s) ==> json(*v).text_at(key@) == Some(s@),
{
    as_text(member(v, key))
}

/// The truth value under `key`, if there is one.
pub fn flag_at(v: &serde_json::Value, key: &str) -> (r: Option<bool>)
    ensures
        r == json(*v).flag_at(key@),
{
    as_flag(member(v, key))
}

/// The unsigned integer under `key`, if there is one.
pub fn count_at(v: &serde_json::Value, key: &str) -> (r: Option<u64>)
    ensures
        r == json(*v).count_at(key@),
{
    as_count(member(v, key))
}

/// The texts among some values, in order.
pub open spec fn texts(a: Seq<Json>) -> Seq<Seq<char>>
    decreases a.len(),
{
    if a.len() == 0 {
        Seq::empty()
    } else {
        match a.last() {
            Json::Text(s) => texts(a.drop_last()).push(s),
            _ => texts(a.drop_last()),
        }
    }
}

/// The texts in an array; none in anything else.
pub open spec fn texts_of(v: Json) -> Seq<Seq<char>> {
    match v {
        Json::Array(a) => texts(a),
        _ => Seq::empty(),
    }
}

/// What some strings hold.
pub open spec fn views(v: Seq<String>) -> Seq<Seq<char>> {
    Seq::new(v.len(), |i: int| v[i]@)
}

/// The texts in an array; none in anything else.
pub fn text_list(v: &serde_json::Value) -> (r: Vec<String>)
    ensures
        views(r@) == texts_of(json(*v)),
{
    let mut out: Vec<String> = Vec::new();
    if let Some(a) = elements(v) {
        let ghost all = json(*v)->Array_0;
        let mut i: usize = 0;
        proof {
            assert(all.subrange(0, 0) =~= Seq::<Json>::empty());
            assert(views(out@) =~= texts(all.subrange(0, 0)));
        }
        while i < a.len()
            invariant
                i <= a@.len(),
                a@.len() == all.len(),
                forall|k: int| 0 <= k < a@.len() ==> json(#[trigger] a@[k]) == all[k],
                views(out@) == texts(all.subrange(0, i as int)),
            decreases a.len() - i,
        {
            let ghost before = views(out@);
            let ghost upto = all.subrange(0, i + 1);
            proof {
                assert(upto.drop_last() =~= all.subrange(0, i as int));
                assert(upto.last() == json(a@[i as int]));
            }
            if let Some(s) = as_text(&a[i]) {
                out.push(s.to_owned());
                proof {
                    assert(views(out@) =~= before.push(s@));
                }
            }
            i += 1;
        }
        proof {
            assert(all.subrange(0, all.len() as int) =~= all);
        }
    } else {
        proof {
            assert(views(out@) =~= Seq::<Seq<char>>::empty());
        }
    }
    out
}

} // verus!
