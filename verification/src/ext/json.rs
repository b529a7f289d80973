//! Functions of the serde_json crate.
use bitcoin::Txid;
use serde_json::Error as JsonError;
use vstd::prelude::*;

verus! {

#[verifier::external_type_specification]
#[verifier::external_body]
pub struct ExJsonError(JsonError);

/// What `serde_json::from_slice` reads from bytes as a list of transaction ids.
pub uninterp spec fn json_txids(bytes: Seq<u8>) -> Result<Seq<Txid>, JsonError>;

/// Whether JSON writes the character `c` inside a string as it is.
pub open spec fn is_unescaped(c: char) -> bool {
    ' ' <= c <= '~' && c != '"' && c != '\\'
}

/// Whether JSON writes every character of `text` as it is.
pub open spec fn is_plain(text: Seq<char>) -> bool {
    forall|i: int| 0 <= i < text.len() ==> is_unescaped(#[trigger] text[i])
}

/// The texts in double quotes, with commas between them.
pub open spec fn json_items(texts: Seq<Seq<char>>) -> Seq<char>
    decreases texts.len(),
{
    if texts.len() == 0 {
        Seq::empty()
    } else if texts.len() == 1 {
        seq!['"'] + texts[0] + seq!['"']
    } else {
        json_items(texts.drop_last()) + seq![',', '"'] + texts.last() + seq!['"']
    }
}

/// The JSON list of `texts`, where none of them needs escaping.
pub open spec fn json_list(texts: Seq<Seq<char>>) -> Seq<char> {
    seq!['['] + json_items(texts) + seq![']']
}

/// Calls `serde_json::to_string` on a list of texts that need no escaping: it
/// succeeds, and gives the texts in double quotes, with commas between them and
/// brackets around them, and no spaces.
#[verifier::external_body]
pub(crate) fn string_list_to_json(texts: &Vec<String>) -> (r: Result<String, JsonError>)
    requires
        forall|i: int| 0 <= i < texts@.len() ==> is_plain(#[trigger] texts@[i]@),
    ensures
        r is Ok,
        r matches Ok(s) ==> s@ == json_list(texts@.map_values(|t: String| t@)),
{
    serde_json::to_string(texts)
}

/// Calls `serde_json::from_slice` for a list of transaction ids: what comes
/// back, list or error, depends on the bytes alone.
#[verifier::external_body]
pub(crate) fn txids_from_json(bytes: &[u8]) -> (r: Result<Vec<Txid>, JsonError>)
    ensures
        match r {
            Ok(txids) => json_txids(bytes@) == Ok::<Seq<Txid>, JsonError>(txids@),
            Err(e) => json_txids(bytes@) == Err::<Seq<Txid>, JsonError>(e),
        },
{
    serde_json::from_slice(bytes)
}

} // verus!
