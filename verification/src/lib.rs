//! Verified core of a foreign-function shim around the `tokenizers` crate:
//! text-to-token encoding and token-to-text decoding over null-terminated
//! byte buffers, with the marshalling logic proved and the tokenizer calls
//! stated as contracts.
//!
//! Each operation takes an already loaded tokenizer; reading the tokenizer
//! configuration from disk, and the raw-pointer boundary itself, stay with
//! the unverified caller.

pub mod marshal;
pub mod tokenizer;

use vstd::prelude::*;
use vstd::utf8::{decode_utf8, encode_utf8, valid_utf8};

use crate::marshal::{has_nul, lemma_nul_pos_at, nul_prefix, safetify, to_c_bytes, CBytes};
use crate::tokenizer::{decode_id, decoded_text, tokenize_ids};

verus! {

/// An owned buffer of token identifiers together with its reported length.
pub struct TokenBuffer {
    /// The token identifiers, widened to the native unsigned integer width,
    /// in left-to-right token order.
    pub ids: Vec<usize>,
    /// The number of identifiers in the buffer.
    pub count: usize,
}

impl TokenBuffer {
    /// The reported count matches the number of identifiers in the buffer.
    pub open spec fn wf(&self) -> bool {
        self.count == self.ids@.len()
    }
}

/// Widens raw token identifiers to the native unsigned integer width and
/// collects them, in order, into a buffer whose reported count matches.
pub fn collect_ids(raw: &Vec<u32>) -> (r: TokenBuffer)
    ensures
        r.wf(),
        r.ids@.len() == raw@.len(),
        forall|k: int| 0 <= k < raw@.len() ==> r.ids@[k] == raw@[k] as usize,
{
    let n = raw.len();
    let mut ids: Vec<usize> = Vec::new();
    let mut i: usize = 0;
    while i < n
        invariant
            0 <= i <= n,
            n == raw@.len(),
            ids@.len() == i,
            forall|k: int| 0 <= k < i ==> ids@[k] == raw@[k] as usize,
        decreases n - i,
    {
        ids.push(raw[i] as usize);
        i = i + 1;
    }
    TokenBuffer { ids, count: n }
}

/// Loads nothing and frees nothing: encodes the null-terminated prompt with
/// the given tokenizer, with special-token insertion disabled. The prompt is
/// marshalled first, substituting a replacement marker for invalid byte
/// sequences rather than failing; only the tokenizer itself can refuse. Each
/// identifier in the returned buffer is a widened 32-bit identifier, and the
/// reported count matches the buffer.
pub fn encode(tokenizer: &tokenizers::Tokenizer, prompt: &[u8]) -> (r: Option<TokenBuffer>)
    requires
        has_nul(prompt@),
    ensures
        r matches Some(buf) ==> {
            &&& buf.wf()
            &&& forall|k: int| 0 <= k < buf.ids@.len() ==> #[trigger] buf.ids@[k] <= u32::MAX as usize
        },
{
    let text = safetify(prompt);
    match tokenize_ids(tokenizer, text.as_str()) {
        Some(raw) => Some(collect_ids(&raw)),
        None => None,
    }
}

/// Decodes a single token identifier with the given tokenizer, skipping
/// special tokens, and lays the text out as a null-terminated byte buffer
/// whose reported length excludes the terminator. Returns nothing exactly
/// when the tokenizer reports an error or the decoded text holds an embedded
/// null byte.
pub fn decode(tokenizer: &tokenizers::Tokenizer, token: u32) -> (r: Option<CBytes>)
    ensures
        match decoded_text(*tokenizer, token) {
            Some(text) => {
                &&& (r is Some <==> !has_nul(encode_utf8(text)))
                &&& (r matches Some(c) ==> {
                    &&& c.wf()
                    &&& c.bytes@ == encode_utf8(text).push(0)
                    &&& c.len == encode_utf8(text).len()
                })
            },
            None => r is None,
        },
{
    match decode_id(tokenizer, token) {
        Some(s) => to_c_bytes(s.as_str()),
        None => None,
    }
}

/// Law: a null-free text laid out as a null-terminated byte buffer marshals
/// back to the same text. The first null of the buffer is its terminator, so
/// the prefix before it is exactly the text's UTF-8 bytes, and those bytes
/// decode to the text itself.
pub proof fn lemma_round_trip(text: Seq<char>)
    requires
        !has_nul(encode_utf8(text)),
    ensures
        nul_prefix(encode_utf8(text).push(0)) == encode_utf8(text),
        valid_utf8(encode_utf8(text)),
        decode_utf8(encode_utf8(text)) == text,
{
    broadcast use vstd::utf8::encode_utf8_valid_utf8, vstd::utf8::encode_utf8_decode_utf8;

    let laid_out = encode_utf8(text).push(0);
    assert forall|j: int| 0 <= j < encode_utf8(text).len() implies laid_out[j] != 0 by {
        if laid_out[j] == 0 {
            assert(encode_utf8(text)[j] == 0);
            assert(has_nul(encode_utf8(text)));
        }
    }
    lemma_nul_pos_at(laid_out, encode_utf8(text).len() as int);
    assert(nul_prefix(laid_out) =~= encode_utf8(text));
}

} // verus!
