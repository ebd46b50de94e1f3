//! JSON values as the exporter sees them.
//!
//! Deployment metadata arrives as a [`serde_json::Value`]. The exporter only
//! looks members up by name and reads strings, integers and booleans, so
//! contracts speak of the model [`Json`] of such a value.
use serde_json::Value;
use vstd::prelude::*;

verus! {

/// What the exporter can tell about a JSON value.
pub enum Json {
    /// `true` or `false`.
    Bool(bool),
    /// A number held as an integer.
    Integer(int),
    /// A string.
    Text(Seq<char>),
    /// An object, with its members by name.
    Object(Map<Seq<char>, Json>),
    /// `null`, an array, or a number held as a float.
    Other,
}

impl Json {
    /// The member called `name`, if this is an object that has one.
    pub open spec fn member(self, name: Seq<char>) -> Option<Json> {
        match self {
            Json::Object(members) => if members.contains_key(name) {
                Some(members[name])
            } else {
                None
            },
            _ => None,
        }
    }
}

/// `serde_json`'s tree of JSON values.
#[verifier::external_type_specification]
#[verifier::external_body]
pub struct ExValue(serde_json::Value);

/// `serde_json`'s object: values by name.
#[verifier::external_type_specification]
#[verifier::external_body]
#[verifier::reject_recursive_types(K)]
#[verifier::reject_recursive_types(V)]
pub struct ExMap<K, V>(serde_json::Map<K, V>);

/// What a `serde_json` value holds.
pub uninterp spec fn json_of(v: serde_json::Value) -> Json;

/// What a `serde_json` object holds.
pub uninterp spec fn members_of(m: serde_json::Map<String, serde_json::Value>) -> Map<Seq<char>, Json>;

/// [`Value::as_object`] gives the members of an object, and nothing for any
/// other value.
pub assume_specification[ Value::as_object ](v: &Value) -> (r: Option<
    &serde_json::Map<String, Value>,
>)
    ensures
        r is Some <==> json_of(*v) is Object,
        r is Some ==> json_of(*v) == Json::Object(members_of(*r->0)),
;

/// [`Value::as_str`] gives the text of a string, and nothing for any other
/// value.
pub assume_specification[ Value::as_str ](v: &Value) -> (r: Option<&str>)
    ensures
        r is Some <==> json_of(*v) is Text,
        r is Some ==> json_of(*v) == Json::Text(r->0@),
;

/// [`Value::as_i64`] gives the value of a number that is held as an integer
/// and fits in an `i64`, and nothing for any other value.
pub assume_specification[ Value::as_i64 ](v: &Value) -> (r: Option<i64>)
    ensures
        r is Some <==> (json_of(*v) matches Json::Integer(n) && i64::MIN <= n <= i64::MAX),
        r is Some ==> json_of(*v) == Json::Integer(r->0 as int),
;

/// [`Value::as_bool`] gives the value of a boolean, and nothing for any other
/// value.
pub assume_specification[ Value::as_bool ](v: &Value) -> (r: Option<bool>)
    ensures
        r is Some <==> json_of(*v) is Bool,
        r is Some ==> json_of(*v) == Json::Bool(r->0),
;

/// [`Value::get`] with a string: the member of that name, and nothing if `v`
/// is no object or has no such member.
#[verifier::external_body]
pub(crate) fn value_member<'a>(v: &'a Value, name: &str) -> (r: Option<&'a Value>)
    ensures
        r is Some <==> json_of(*v).member(name@) is Some,
        r is Some ==> json_of(*v).member(name@) == Some(json_of(*r->0)),
{
    v.get(name)
}

/// [`serde_json::Map::get`]: the member of that name, and nothing if there is
/// no such member.
#[verifier::external_body]
pub(crate) fn object_member<'a>(m: &'a serde_json::Map<String, Value>, name: &str) -> (r: Option<
    &'a Value,
>)
    ensures
        r is Some <==> members_of(*m).contains_key(name@),
        r is Some ==> members_of(*m)[name@] == json_of(*r->0),
{
    m.get(name)
}

} // verus!
