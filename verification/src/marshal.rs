//! Marshalling between null-terminated byte buffers and owned text.
//!
//! A prompt arrives as a null-terminated byte buffer and is turned into an
//! owned `String`, replacing invalid byte sequences instead of failing; a
//! decoded text leaves as a null-terminated byte buffer whose reported length
//! excludes the terminator.

use vstd::prelude::*;
use vstd::slice::slice_subrange;
use vstd::string::StringSliceAdditionalSpecFns;
use vstd::utf8::{decode_utf8, encode_utf8, valid_utf8};

verus! {

/// Whether the byte sequence holds a null byte anywhere.
pub open spec fn has_nul(bytes: Seq<u8>) -> bool {
    exists|i: int| 0 <= i < bytes.len() && bytes[i] == 0
}

/// Index of the first null byte, or the length when there is none.
pub open spec fn nul_pos(bytes: Seq<u8>) -> int
    decreases bytes.len(),
{
    if bytes.len() == 0 {
        0
    } else if bytes[0] == 0 {
        0
    } else {
        1 + nul_pos(bytes.drop_first())
    }
}

/// The bytes before the first null terminator.
pub open spec fn nul_prefix(bytes: Seq<u8>) -> Seq<u8> {
    bytes.take(nul_pos(bytes))
}

/// The first null byte of a sequence stands at `i` exactly when `i` holds a
/// null and nothing before it does.
pub proof fn lemma_nul_pos_at(bytes: Seq<u8>, i: int)
    requires
        0 <= i < bytes.len(),
        bytes[i] == 0,
        forall|j: int| 0 <= j < i ==> bytes[j] != 0,
    ensures
        nul_pos(bytes) == i,
    decreases i,
{
    if i > 0 {
        let tail = bytes.drop_first();
        assert(tail[i - 1] == 0);
        assert forall|j: int| 0 <= j < i - 1 implies tail[j] != 0 by {
            assert(bytes[j + 1] != 0);
        }
        lemma_nul_pos_at(tail, i - 1);
    }
}

/// Relies on `String::from_utf8_lossy`: the result is computed from the bytes
/// alone, and bytes that already are valid UTF-8 convert without change.
#[verifier::external_body]
fn lossy_string(bytes: &[u8]) -> (r: String)
    ensures
        r@ == lossy_chars(bytes@),
        valid_utf8(bytes@) ==> r@ == decode_utf8(bytes@),
{
    String::from_utf8_lossy(bytes).into_owned()
}

/// The text that lossy UTF-8 conversion yields for the given bytes: invalid
/// byte sequences become replacement markers, valid ones their own characters.
pub uninterp spec fn lossy_chars(bytes: Seq<u8>) -> Seq<char>;

/// Turns a null-terminated byte buffer into owned text: reads the bytes up to
/// (not including) the first null and converts them, substituting a
/// replacement marker for invalid byte sequences rather than failing.
pub fn safetify(c_bytes: &[u8]) -> (r: String)
    requires
        has_nul(c_bytes@),
    ensures
        r@ == lossy_chars(nul_prefix(c_bytes@)),
        valid_utf8(nul_prefix(c_bytes@)) ==> r@ == decode_utf8(nul_prefix(c_bytes@)),
{
    let mut i: usize = 0;
    while i < c_bytes.len() && c_bytes[i] != 0
        invariant
            0 <= i <= c_bytes@.len(),
            forall|j: int| 0 <= j < i ==> c_bytes@[j] != 0,
        decreases c_bytes@.len() - i,
    {
        i = i + 1;
    }
    proof {
        if i == c_bytes@.len() {
            let k = choose|k: int| 0 <= k < c_bytes@.len() && c_bytes@[k] == 0;
            assert(false);
        }
        lemma_nul_pos_at(c_bytes@, i as int);
    }
    let prefix = slice_subrange(c_bytes, 0, i);
    lossy_string(prefix)
}

/// An owned null-terminated byte buffer together with its reported length.
///
/// The reported length counts the text bytes only, never the terminator, and
/// the text bytes hold no null of their own.
pub struct CBytes {
    /// The text bytes followed by a single terminating null byte.
    pub bytes: Vec<u8>,
    /// The number of text bytes, excluding the terminator.
    pub len: usize,
}

impl CBytes {
    /// The reported length matches the buffer: everything before the final
    /// null byte is text, and none of it is null.
    pub open spec fn wf(&self) -> bool {
        &&& self.bytes@.len() == self.len + 1
        &&& self.bytes@[self.len as int] == 0
        &&& !has_nul(self.bytes@.take(self.len as int))
    }
}

/// Lays text out as an owned null-terminated byte buffer, reporting the byte
/// length without the terminator. Fails exactly when the text itself holds an
/// embedded null byte, which no null-terminated buffer can carry.
pub fn to_c_bytes(text: &str) -> (r: Option<CBytes>)
    ensures
        r is Some <==> !has_nul(encode_utf8(text@)),
        r matches Some(c) ==> {
            &&& c.wf()
            &&& c.bytes@ == encode_utf8(text@).push(0)
            &&& c.len == encode_utf8(text@).len()
        },
{
    let bytes = text.as_bytes();
    let n = bytes.len();
    let mut out: Vec<u8> = Vec::new();
    let mut i: usize = 0;
    while i < n
        invariant
            0 <= i <= n,
            n == bytes@.len(),
            bytes@ == encode_utf8(text@),
            out@ == bytes@.take(i as int),
            forall|j: int| 0 <= j < i ==> bytes@[j] != 0,
        decreases n - i,
    {
        let b = bytes[i];
        if b == 0 {
            proof {
                assert(bytes@[i as int] == 0);
                assert(has_nul(bytes@));
            }
            return None;
        }
        out.push(b);
        i = i + 1;
    }
    assert(out@ =~= bytes@);
    out.push(0);
    Some(CBytes { bytes: out, len: n })
}

} // verus!
