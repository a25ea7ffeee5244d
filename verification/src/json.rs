//! JSON trees as `serde_json` holds them, and what the protocol asks of them.
//!
//! The payload of a frame is JSON text. Reading and writing that text, and
//! holding the tree in between, is `serde_json`'s work; this module states
//! what each of its operations that the protocol calls does to the tree's
//! mathematical value, a [`JsonView`]. The members of an object keep the
//! order in which they were put in, and the text is written in that order:
//! `serde_json` is built with its feature `preserve_order`, and what is said
//! here of objects holds of that build only.

use vstd::prelude::*;

verus! {

/// Mathematical value of a JSON tree.
pub ghost enum JsonView {
    Null,
    Bool(bool),
    /// A number written as an integer, between `i64::MIN` and `u64::MAX`.
    Int(int),
    /// Any other number, by the bits of its double.
    Float(u64),
    Str(Seq<char>),
    Array(Seq<JsonView>),
    /// An object: its members in their order, each a key and a value. No key
    /// stands twice.
    Object(Seq<(Seq<char>, JsonView)>),
}

/// Whether a member stands under `key`.
pub open spec fn has_key(members: Seq<(Seq<char>, JsonView)>, key: Seq<char>) -> bool {
    exists|i: int| 0 <= i < members.len() && (#[trigger] members[i]).0 == key
}

/// Where the member under `key` stands.
pub open spec fn key_index(members: Seq<(Seq<char>, JsonView)>, key: Seq<char>) -> int {
    choose|i: int| 0 <= i < members.len() && (#[trigger] members[i]).0 == key
}

/// The value under `key`.
pub open spec fn lookup(members: Seq<(Seq<char>, JsonView)>, key: Seq<char>) -> JsonView {
    members[key_index(members, key)].1
}

/// Whether no key stands twice.
pub open spec fn distinct_keys(members: Seq<(Seq<char>, JsonView)>) -> bool {
    forall|i: int, j: int|
        0 <= i < j < members.len() ==> (#[trigger] members[i]).0 != (#[trigger] members[j]).0
}

/// The members after `value` was put under `key`: in the place of the value
/// that stood there, or behind all members where none did.
pub open spec fn put(
    members: Seq<(Seq<char>, JsonView)>,
    key: Seq<char>,
    value: JsonView,
) -> Seq<(Seq<char>, JsonView)> {
    if has_key(members, key) {
        members.update(key_index(members, key), (key, value))
    } else {
        members.push((key, value))
    }
}

/// A member is found under its own key, where no key stands twice.
pub proof fn lemma_lookup(members: Seq<(Seq<char>, JsonView)>, at: int)
    requires
        distinct_keys(members),
        0 <= at < members.len(),
    ensures
        has_key(members, members[at].0),
        key_index(members, members[at].0) == at,
        lookup(members, members[at].0) == members[at].1,
{
    let found = key_index(members, members[at].0);
    if found < at {
        assert(members[found].0 != members[at].0);
    }
    if at < found {
        assert(members[at].0 != members[found].0);
    }
}

/// Putting a value under a key that is new puts the member last.
pub proof fn lemma_put_new(members: Seq<(Seq<char>, JsonView)>, key: Seq<char>, value: JsonView)
    requires
        forall|i: int| 0 <= i < members.len() ==> (#[trigger] members[i]).0 != key,
    ensures
        put(members, key, value) == members.push((key, value)),
{
}

/// `serde_json::Value`, a JSON tree. Nothing of its inside is read here; what
/// it holds is told by [`value_view`].
#[verifier::external_type_specification]
#[verifier::external_body]
pub struct ExValue(serde_json::Value);

/// The tree that a `serde_json::Value` holds.
pub uninterp spec fn value_view(v: serde_json::Value) -> JsonView;

/// The compact JSON text that `serde_json::to_vec` writes for a tree. The
/// members of an object stand in it in their order.
pub uninterp spec fn json_text(tree: JsonView) -> Seq<u8>;

/// The tree that `serde_json::from_slice` reads from a text, where the text
/// is JSON.
pub uninterp spec fn json_parse(text: Seq<u8>) -> Option<JsonView>;

/// The views of the items of an array.
pub open spec fn items_view(items: Seq<serde_json::Value>) -> Seq<JsonView> {
    items.map_values(|item: serde_json::Value| value_view(item))
}

/// `serde_json::Value::is_null`: true for `null` and for nothing else.
#[verifier::external_body]
pub(crate) fn json_is_null(v: &serde_json::Value) -> (r: bool)
    ensures
        r == (value_view(*v) is Null),
{
    v.is_null()
}

/// `serde_json::Value::as_bool`: the boolean, if the value is one.
#[verifier::external_body]
pub(crate) fn json_as_bool(v: &serde_json::Value) -> (r: Option<bool>)
    ensures
        r == (match value_view(*v) {
            JsonView::Bool(b) => Some(b),
            _ => None,
        }),
{
    v.as_bool()
}

/// `serde_json::Value::as_i64`: the number, if the value is an integer that
/// an `i64` can hold.
#[verifier::external_body]
pub(crate) fn json_as_i64(v: &serde_json::Value) -> (r: Option<i64>)
    ensures
        r == (match value_view(*v) {
            JsonView::Int(n) => if i64::MIN <= n <= i64::MAX {
                Some(n as i64)
            } else {
                None
            },
            _ => None,
        }),
{
    v.as_i64()
}

/// `serde_json::Value::as_str`: the text, if the value is a string.
#[verifier::external_body]
pub(crate) fn json_as_str(v: &serde_json::Value) -> (r: Option<&str>)
    ensures
        match r {
            Some(s) => value_view(*v) == JsonView::Str(s@),
            None => !(value_view(*v) is Str),
        },
{
    v.as_str()
}

/// `serde_json::Value::as_array`: the items, if the value is an array.
#[verifier::external_body]
pub(crate) fn json_as_array(v: &serde_json::Value) -> (r: Option<&Vec<serde_json::Value>>)
    ensures
        match r {
            Some(items) => value_view(*v) == JsonView::Array(items_view(items@)),
            None => !(value_view(*v) is Array),
        },
{
    v.as_array()
}

/// `serde_json::Value::get` with a string: the value under `key`, if the
/// value is an object that has one. No key stands twice in an object.
#[verifier::external_body]
pub(crate) fn json_get<'a>(v: &'a serde_json::Value, key: &str) -> (r: Option<&'a serde_json::Value>)
    ensures
        match r {
            Some(entry) => value_view(*v) is Object && distinct_keys(value_view(*v)->Object_0)
                && has_key(value_view(*v)->Object_0, key@) && lookup(
                value_view(*v)->Object_0,
                key@,
            ) == value_view(*entry),
            None => !(value_view(*v) is Object && has_key(value_view(*v)->Object_0, key@)),
        },
{
    v.get(key)
}

/// `serde_json::Value::as_object` and `serde_json::Map::len`: how many
/// members the value has, if it is an object.
#[verifier::external_body]
pub(crate) fn json_object_len(v: &serde_json::Value) -> (r: Option<usize>)
    ensures
        match r {
            Some(n) => value_view(*v) is Object && value_view(*v)->Object_0.len() == n,
            None => !(value_view(*v) is Object),
        },
{
    v.as_object().map(|entries| entries.len())
}

/// `serde_json::Value::Null`.
#[verifier::external_body]
pub(crate) fn json_null() -> (r: serde_json::Value)
    ensures
        value_view(r) == JsonView::Null,
{
    serde_json::Value::Null
}

/// `serde_json::Value::Bool`.
#[verifier::external_body]
pub(crate) fn json_bool(b: bool) -> (r: serde_json::Value)
    ensures
        value_view(r) == JsonView::Bool(b),
{
    serde_json::Value::Bool(b)
}

/// `serde_json::Value::from` for an `i64`: the integer as a JSON number.
#[verifier::external_body]
pub(crate) fn json_int(n: i64) -> (r: serde_json::Value)
    ensures
        value_view(r) == JsonView::Int(n as int),
{
    serde_json::Value::from(n)
}

/// `serde_json::Value::String`.
#[verifier::external_body]
pub(crate) fn json_string(s: String) -> (r: serde_json::Value)
    ensures
        value_view(r) == JsonView::Str(s@),
{
    serde_json::Value::String(s)
}

/// `serde_json::Value::Array`.
#[verifier::external_body]
pub(crate) fn json_array(items: Vec<serde_json::Value>) -> (r: serde_json::Value)
    ensures
        value_view(r) == JsonView::Array(items_view(items@)),
{
    serde_json::Value::Array(items)
}

/// `serde_json::Value::Object` of `serde_json::Map::new`: the object without
/// members.
#[verifier::external_body]
pub(crate) fn json_object() -> (r: serde_json::Value)
    ensures
        value_view(r) == JsonView::Object(Seq::<(Seq<char>, JsonView)>::empty()),
{
    serde_json::Value::Object(serde_json::Map::new())
}

/// `serde_json::Map::insert` on the members of an object, which keep the
/// order in which they came: `entry` stands under `key` afterwards, in the
/// place of the value that stood there or, where none did, behind all
/// members. The other members stay as they are and where they are.
#[verifier::external_body]
pub(crate) fn json_insert(object: &mut serde_json::Value, key: &str, entry: serde_json::Value)
    requires
        value_view(*old(object)) is Object,
    ensures
        value_view(*final(object)) == JsonView::Object(
            put(value_view(*old(object))->Object_0, key@, value_view(entry)),
        ),
{
    if let serde_json::Value::Object(entries) = object {
        entries.insert(key.to_string(), entry);
    }
}

/// `serde_json::to_vec` on a tree: its compact JSON text. A text is always
/// written: the serializer of a tree reports no error of its own, and
/// writing into a vector cannot fail.
#[verifier::external_body]
pub(crate) fn json_to_bytes(v: &serde_json::Value) -> (r: Option<Vec<u8>>)
    ensures
        r is Some,
        r->Some_0@ == json_text(value_view(*v)),
{
    serde_json::to_vec(v).ok()
}

/// `serde_json::from_slice` for a tree: the tree that the text spells, or
/// nothing where the text is not JSON.
#[verifier::external_body]
pub(crate) fn json_from_bytes(text: &[u8]) -> (r: Option<serde_json::Value>)
    ensures
        match r {
            Some(v) => json_parse(text@) == Some(value_view(v)),
            None => json_parse(text@) is None,
        },
{
    serde_json::from_slice::<serde_json::Value>(text).ok()
}

} // verus!
