//! The text and byte encodings that the protocol builds on: base64, PEM and
//! JSON. Each is the work of another crate. What this module states of them
//! is not proved here: each function below says in its comment what is taken
//! on trust.

use vstd::prelude::*;

verus! {

/// The base64 text (standard alphabet, padded) of a byte string.
pub uninterp spec fn base64_text(bytes: Seq<u8>) -> Seq<char>;

/// The byte string that a base64 text (standard alphabet, padded) stands
/// for, if it stands for one.
pub uninterp spec fn base64_bytes(text: Seq<char>) -> Option<Seq<u8>>;

/// The PEM text with the given label around the given contents.
pub uninterp spec fn pem_text(label: Seq<char>, contents: Seq<u8>) -> Seq<char>;

/// The label and the contents of the first PEM block in a text, if it holds
/// a well-formed one.
pub uninterp spec fn pem_parsed(text: Seq<char>) -> Option<(Seq<char>, Seq<u8>)>;

/// The JSON text of an array of three strings.
pub uninterp spec fn json_triple_text(first: Seq<char>, second: Seq<char>, third: Seq<char>) -> Seq<u8>;

/// The three strings of a JSON text, if it is an array of exactly three
/// strings.
pub uninterp spec fn json_triple_parsed(bytes: Seq<u8>) -> Option<(Seq<char>, Seq<char>, Seq<char>)>;

/// The JSON text of an object whose members are the given names and string
/// values.
pub uninterp spec fn json_object_text(fields: Seq<(Seq<char>, Seq<char>)>) -> Seq<u8>;

/// The members of a JSON text, if it is an object whose values are all
/// strings.
pub uninterp spec fn json_object_parsed(bytes: Seq<u8>) -> Option<Seq<(Seq<char>, Seq<char>)>>;

/// A PEM label of capital letters and spaces, not empty.
pub open spec fn pem_label_is_plain(label: Seq<char>) -> bool {
    &&& label.len() > 0
    &&& forall|i: int| 0 <= i < label.len() ==> ('A' <= #[trigger] label[i] <= 'Z' || label[i] == ' ')
}

/// The value of the last member called `name`, if there is one.
pub open spec fn field_value(fields: Seq<(Seq<char>, Seq<char>)>, name: Seq<char>) -> Option<Seq<char>>
    decreases fields.len(),
{
    if fields.len() == 0 {
        None
    } else if fields.last().0 == name {
        Some(fields.last().1)
    } else {
        field_value(fields.drop_last(), name)
    }
}

/// No two members have the same name.
pub open spec fn names_are_distinct(fields: Seq<(Seq<char>, Seq<char>)>) -> bool {
    forall|i: int, j: int| 0 <= i < j < fields.len() ==> (#[trigger] fields[i]).0 != (#[trigger] fields[j]).0
}

/// Calls `Engine::encode` of `base64` on its `STANDARD` engine.
///
/// Taken on trust: the result is the base64 text of `bytes`; decoding it
/// gives `bytes` back; and, the alphabet being letters, digits, `+`, `/` and
/// `=`, no character of it is a hyphen. The call fails only where the length
/// of the text would not fit in `usize`, which no slice in memory reaches.
#[verifier::external_body]
pub(crate) fn base64_encode(bytes: &[u8]) -> (text: String)
    ensures
        text@ == base64_text(bytes@),
        base64_bytes(text@) == Some(bytes@),
        forall|i: int| 0 <= i < text@.len() ==> text@[i] != '-',
{
    base64::Engine::encode(&base64::engine::general_purpose::STANDARD, bytes)
}

/// Calls `Engine::decode` of `base64` on its `STANDARD` engine.
///
/// Taken on trust: the call succeeds exactly on the texts that stand for a
/// byte string, and then returns that byte string.
#[verifier::external_body]
pub(crate) fn base64_decode(text: &str) -> (decoded: Result<Vec<u8>, base64::DecodeError>)
    ensures
        decoded is Ok <==> base64_bytes(text@) is Some,
        decoded matches Ok(bytes) ==> base64_bytes(text@) == Some(bytes@),
{
    base64::Engine::decode(&base64::engine::general_purpose::STANDARD, text)
}

/// Calls `pem::encode` on a block without headers.
///
/// Taken on trust: the result is the PEM text of the block; it starts with
/// the hyphens of the opening line; and parsing it gives the label and the
/// contents back.
#[verifier::external_body]
pub(crate) fn pem_encode(label: &str, contents: &[u8]) -> (text: String)
    requires
        pem_label_is_plain(label@),
    ensures
        text@ == pem_text(label@, contents@),
        pem_parsed(text@) == Some((label@, contents@)),
        text@.len() > 0 && text@[0] == '-',
{
    pem::encode(&pem::Pem::new(label, contents))
}

/// Calls `pem::parse`, and hands out the label and the contents of the block.
///
/// Taken on trust: the call succeeds exactly on the texts that hold a
/// well-formed block, and then returns the label and contents of the first.
#[verifier::external_body]
pub(crate) fn pem_decode(text: &str) -> (parsed: Result<(String, Vec<u8>), pem::PemError>)
    ensures
        parsed is Ok <==> pem_parsed(text@) is Some,
        parsed matches Ok(block) ==> pem_parsed(text@) == Some((block.0@, block.1@)),
{
    match pem::parse(text) {
        Ok(block) => Ok((block.tag().to_string(), block.into_contents())),
        Err(cause) => Err(cause),
    }
}

/// Calls `serde_json::to_vec` on a tuple of three strings.
///
/// Taken on trust: a tuple of strings always serialises; the result is the
/// JSON text of the array; and parsing it gives the three strings back.
#[verifier::external_body]
pub(crate) fn json_triple_encode(first: &str, second: &str, third: &str) -> (text: Result<
    Vec<u8>,
    serde_json::Error,
>)
    ensures
        text is Ok,
        text matches Ok(bytes) ==> bytes@ == json_triple_text(first@, second@, third@),
        text matches Ok(bytes) ==> json_triple_parsed(bytes@) == Some((first@, second@, third@)),
{
    serde_json::to_vec(&(first, second, third))
}

/// Calls `serde_json::from_slice` for a tuple of three strings.
///
/// Taken on trust: the call succeeds exactly on the JSON texts that are an
/// array of three strings, and then returns them.
#[verifier::external_body]
pub(crate) fn json_triple_decode(bytes: &[u8]) -> (parsed: Result<
    (String, String, String),
    serde_json::Error,
>)
    ensures
        parsed is Ok <==> json_triple_parsed(bytes@) is Some,
        parsed matches Ok(triple) ==> json_triple_parsed(bytes@) == Some(
            (triple.0@, triple.1@, triple.2@),
        ),
{
    serde_json::from_slice::<(String, String, String)>(bytes)
}

/// Collects the members into a `serde_json::Map` and calls
/// `serde_json::to_vec` on it.
///
/// Taken on trust: a map of strings always serialises; the result is the
/// JSON text of the object, in the order in which the map keeps its members;
/// and parsing it gives as many members back, with the same value under
/// every name.
#[verifier::external_body]
pub(crate) fn json_object_encode(fields: &Vec<(String, String)>) -> (text: Result<
    Vec<u8>,
    serde_json::Error,
>)
    requires
        names_are_distinct(fields.deep_view()),
    ensures
        text is Ok,
        text matches Ok(bytes) ==> bytes@ == json_object_text(fields.deep_view()),
        text matches Ok(bytes) ==> (json_object_parsed(bytes@) matches Some(members)
            && members.len() == fields.len() && forall|name: Seq<char>|
            field_value(members, name) == field_value(fields.deep_view(), name)),
{
    let members: serde_json::Map<String, serde_json::Value> = fields.iter().map(
        |member| (member.0.clone(), serde_json::Value::String(member.1.clone())),
    ).collect();
    serde_json::to_vec(&members)
}

/// Calls `serde_json::from_slice` for a map from names to strings, and hands
/// out its members.
///
/// Taken on trust: the call succeeds exactly on the JSON texts that are an
/// object whose values are all strings, and then returns its members.
#[verifier::external_body]
pub(crate) fn json_object_decode(bytes: &[u8]) -> (parsed: Result<
    Vec<(String, String)>,
    serde_json::Error,
>)
    ensures
        parsed is Ok <==> json_object_parsed(bytes@) is Some,
        parsed matches Ok(members) ==> json_object_parsed(bytes@) == Some(members.deep_view()),
{
    match serde_json::from_slice::<std::collections::BTreeMap<String, String>>(bytes) {
        Ok(members) => Ok(members.into_iter().collect()),
        Err(cause) => Err(cause),
    }
}

} // verus!
