//! Decoding of the answers that other contracts give, which arrive as JSON.

use vstd::prelude::*;

verus! {

#[verifier::external_type_specification]
#[verifier::external_body]
pub struct ExJsonError(near_sdk::serde_json::Error);

/// The text that a byte string denotes when it is read as one JSON string
/// value, or `None` where it is not one.
pub uninterp spec fn json_string(bytes: Seq<u8>) -> Option<Seq<char>>;

/// Calls `serde_json::from_slice::<String>`: decodes `bytes` as a single JSON
/// string value. The result depends on the bytes alone; `json_string` names it.
#[verifier::external_body]
pub(crate) fn decode_json_string(bytes: &Vec<u8>) -> (decoded: Result<String, near_sdk::serde_json::Error>)
    ensures
        decoded is Ok <==> json_string(bytes@) is Some,
        decoded matches Ok(text) ==> json_string(bytes@) == Some(text@),
{
    near_sdk::serde_json::from_slice::<String>(bytes.as_slice())
}

} // verus!
