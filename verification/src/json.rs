//! Pretty-printed JSON text of a flat object, produced by `serde_json`.

use vstd::prelude::*;

verus! {

/// The text that `serde_json::to_string_pretty` gives for the flat object with
/// these members (a name and a string or null each, in this order), or `None`
/// where it reports an error.
pub uninterp spec fn pretty_object(members: Seq<(Seq<char>, Option<Seq<char>>)>) -> Option<
    Seq<char>,
>;

#[verifier::external_type_specification]
#[verifier::external_body]
pub struct ExJsonError(serde_json::Error);

/// The JSON encoder reported an error.
#[derive(Clone, Copy, Debug, PartialEq, Eq, Structural)]
pub struct EncodeError {}

/// Collects the members into a `serde_json::Value` object (an absent value
/// becomes `null`) and calls `serde_json::to_string_pretty` on it.
///
/// Believed, not proved: the call's outcome is a function of the members
/// alone, so it is the one that `pretty_object` names.
#[verifier::external_body]
fn to_string_pretty(members: Vec<(String, Option<String>)>) -> (text: Result<
    String,
    serde_json::Error,
>)
    ensures
        match text {
            Ok(json) => pretty_object(members.deep_view()) == Some(json@),
            Err(_) => pretty_object(members.deep_view()) is None,
        },
{
    let object: serde_json::Value = members.into_iter().collect();
    serde_json::to_string_pretty(&object)
}

/// Pretty-prints the object that has `members`, in their order.
pub fn pretty(members: Vec<(String, Option<String>)>) -> (text: Result<String, EncodeError>)
    ensures
        match pretty_object(members.deep_view()) {
            Some(json) => text matches Ok(t) && t@ == json,
            None => text is Err,
        },
{
    match to_string_pretty(members) {
        Ok(json) => Ok(json),
        Err(_) => Err(EncodeError {  }),
    }
}

} // verus!
