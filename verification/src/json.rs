//! JSON values. They are built and printed by `serde_json`; what one holds is
//! spoken of by [`content`].
use vstd::prelude::*;

verus! {

/// `serde_json::Value`, carried through as it is.
#[verifier::external_type_specification]
#[verifier::external_body]
pub struct ExValue(serde_json::Value);

/// `serde_json::Map`, the members of a JSON object.
#[verifier::external_type_specification]
#[verifier::external_body]
#[verifier::reject_recursive_types(K)]
#[verifier::reject_recursive_types(V)]
pub struct ExMembers<K, V>(serde_json::Map<K, V>);

/// What a JSON value holds. A number that is no integer is given as it is
/// printed.
pub enum Json {
    Null,
    Flag(bool),
    Number(int),
    Decimal(Seq<char>),
    Text(Seq<char>),
    Array(Seq<Json>),
    Object(Map<Seq<char>, Json>),
}

/// What a `serde_json::Value` holds.
pub uninterp spec fn content(value: serde_json::Value) -> Json;

/// The members of an object, by their keys.
pub uninterp spec fn members(object: serde_json::Map<String, serde_json::Value>) -> Map<
    Seq<char>,
    Json,
>;

/// The compact text that `serde_json` prints for a value.
pub uninterp spec fn json_text(value: Json) -> Seq<char>;

/// `serde_json::Value::from` of a `&str`: the text, as a JSON value.
#[verifier::external_body]
pub(crate) fn text_value(text: &str) -> (value: serde_json::Value)
    ensures
        content(value) == Json::Text(text@),
{
    serde_json::Value::from(text)
}

/// `serde_json::Value::from` of a `u64`: the number, as a JSON value.
#[verifier::external_body]
pub(crate) fn number_value(number: u64) -> (value: serde_json::Value)
    ensures
        content(value) == Json::Number(number as int),
{
    serde_json::Value::from(number)
}

/// `serde_json::Value::from` of a `bool`: the truth value, as a JSON value.
#[verifier::external_body]
pub(crate) fn flag_value(flag: bool) -> (value: serde_json::Value)
    ensures
        content(value) == Json::Flag(flag),
{
    serde_json::Value::from(flag)
}

/// `serde_json::Value::from` of a `serde_json::Map`: the object with these
/// members.
#[verifier::external_body]
pub(crate) fn object_value(object: serde_json::Map<String, serde_json::Value>) -> (value:
    serde_json::Value)
    ensures
        content(value) == Json::Object(members(object)),
{
    serde_json::Value::from(object)
}

/// `serde_json::Map::new`: no members.
#[verifier::external_body]
pub(crate) fn no_members() -> (object: serde_json::Map<String, serde_json::Value>)
    ensures
        (members(object) == Map::<Seq<char>, Json>::empty()),
{
    serde_json::Map::new()
}

/// `serde_json::Map::insert`: the member at `key` becomes `value`, the others
/// stay. The value that stood there before, if any, is returned.
#[verifier::external_body]
pub(crate) fn set_member(
    object: &mut serde_json::Map<String, serde_json::Value>,
    key: &str,
    value: serde_json::Value,
) -> (before: Option<serde_json::Value>)
    ensures
        members(*final(object)) == members(*old(object)).insert(key@, content(value)),
        before is Some <==> members(*old(object)).contains_key(key@),
        before matches Some(was) ==> content(was) == members(*old(object))[key@],
{
    object.insert(key.to_string(), value)
}

/// `serde_json::Value::to_string`: the text is a function of what the value
/// holds. The members of an object are printed in the order of their keys, as
/// `serde_json` is used without its feature `preserve_order`.
#[verifier::external_body]
pub(crate) fn value_text(value: &serde_json::Value) -> (text: String)
    ensures
        text@ == json_text(content(*value)),
{
    value.to_string()
}

} // verus!
