//! Text helpers shared by the other modules.

use vstd::prelude::*;
use vstd::string::StringExecFns;
use vstd::utf8::{decode_utf8, valid_utf8};

verus! {

/// The lowercase form of a text, as `str::to_lowercase` of the standard
/// library computes it from the characters alone.
pub uninterp spec fn lowercase(text: Seq<char>) -> Seq<char>;

/// Calls `str::to_lowercase`.  The contract only names the result: it is the
/// lowercase form of the characters given, whatever that form is.
#[verifier::external_body]
pub(crate) fn to_lowercase(text: &str) -> (lowered: String)
    ensures
        lowered@ == lowercase(text@),
{
    text.to_lowercase()
}

/// Calls `String::from_utf8`.  The contract claims what the standard library
/// documents: the bytes are checked, a text comes back exactly when they are
/// valid UTF-8, and that text is then made of the characters that the bytes
/// encode.
#[verifier::external_body]
pub(crate) fn decode(bytes: Vec<u8>) -> (text: Option<String>)
    ensures
        text is Some <==> valid_utf8(bytes@),
        text matches Some(decoded) ==> decoded@ == decode_utf8(bytes@),
{
    match String::from_utf8(bytes) {
        Ok(decoded) => Some(decoded),
        Err(_) => None,
    }
}

/// Whether two texts hold the same characters.
pub(crate) fn same_text(left: &str, right: &str) -> (same: bool)
    ensures
        same == (left@ == right@),
{
    let left_owned = String::from_str(left);
    let right_owned = String::from_str(right);
    left_owned == right_owned
}

/// The arguments of a command line in their order, each one with a single
/// space in front of it.
pub open spec fn joined(arguments: Seq<Seq<char>>) -> Seq<char>
    decreases arguments.len(),
{
    if arguments.len() == 0 {
        Seq::empty()
    } else {
        joined(arguments.drop_last()) + " "@ + arguments.last()
    }
}

/// A copy of a list of texts.
pub(crate) fn copy_texts(texts: &Vec<String>) -> (copy: Vec<String>)
    ensures
        copy.deep_view() == texts.deep_view(),
{
    let mut copy: Vec<String> = Vec::new();
    let mut index: usize = 0;
    while index < texts.len()
        invariant
            index <= texts.len(),
            copy.len() == index,
            forall|i: int| 0 <= i < index ==> copy[i]@ == texts[i]@,
        decreases texts.len() - index,
    {
        copy.push(texts[index].clone());
        index += 1;
    }
    assert(copy.deep_view() =~= texts.deep_view());
    copy
}

} // verus!
