//! The little this library needs of JSON: settings are carried as opaque
//! JSON values, and the defaults are objects of string members.

use vstd::prelude::*;
use vstd::string::*;

verus! {

/// A JSON value of `serde_json`. Its contents are not visible here; a value
/// is only built and handed on.
#[verifier::external_type_specification]
#[verifier::external_body]
pub struct ExJsonValue(serde_json::Value);

/// `Clone` of `serde_json::Value` is derived there, so a copy holds what the
/// value it was made from holds.
pub assume_specification[ <serde_json::Value as Clone>::clone ](
    value: &serde_json::Value,
) -> (copy: serde_json::Value)
    ensures
        copy == *value,
;

/// The JSON object that `serde_json` makes of the given pairs of key and
/// string value.
pub uninterp spec fn string_object(members: Seq<(Seq<char>, Seq<char>)>) -> serde_json::Value;

/// The members of a list of pairs as plain texts.
pub open spec fn member_texts(members: Seq<(String, String)>) -> Seq<(Seq<char>, Seq<char>)> {
    Seq::new(members.len(), |i: int| (members[i].0@, members[i].1@))
}

/// Builds a JSON object from pairs of key and string value by collecting
/// them into a `serde_json::Value`, which makes an object with each key
/// mapped to the JSON string of its value. The result depends on the pairs
/// alone.
#[verifier::external_body]
pub(crate) fn object_of_strings(members: Vec<(String, String)>) -> (value: serde_json::Value)
    ensures
        value == string_object(member_texts(members@)),
{
    members.into_iter().collect()
}

} // verus!
