//! Contracts over the calls into the `tokenizers` crate.
//!
//! A loaded tokenizer is an opaque value: the vocabulary and the rules inside
//! it are the wrapped library's own business. Encoding may draw random
//! numbers (byte-pair merge dropout), so nothing is promised of the
//! identifiers it yields; decoding is computed from the tokenizer's tables
//! and the identifier alone, so its result carries a name that contracts can
//! speak of.

use vstd::prelude::*;

verus! {

#[verifier::external_type_specification]
#[verifier::external_body]
pub struct ExTokenizer(tokenizers::Tokenizer);

/// The text that the tokenizer decodes a single identifier to, with special
/// tokens skipped, or nothing where the wrapped library reports an error.
pub uninterp spec fn decoded_text(t: tokenizers::Tokenizer, id: u32) -> Option<Seq<char>>;

/// Relies on `Tokenizer::encode` with special-token insertion disabled. Its
/// outcome may depend on more than its arguments (byte-pair merge dropout
/// draws random numbers), so no clause ties the identifiers to the text:
/// callers state what holds of whatever comes back.
#[verifier::external_body]
pub(crate) fn tokenize_ids(t: &tokenizers::Tokenizer, text: &str) -> Option<Vec<u32>> {
    t.encode(text, false).ok().map(|e| e.get_ids().to_vec())
}

/// Relies on `Tokenizer::decode` over a single identifier with special tokens
/// skipped: the result is looked up in the tokenizer's tables and rewritten
/// by its decoder, so it is computed from the tokenizer value and the
/// identifier alone.
#[verifier::external_body]
pub(crate) fn decode_id(t: &tokenizers::Tokenizer, id: u32) -> (r: Option<String>)
    ensures
        r is Some <==> decoded_text(*t, id) is Some,
        r matches Some(s) ==> decoded_text(*t, id) == Some(s@),
{
    t.decode(&[id], true).ok()
}

} // verus!
