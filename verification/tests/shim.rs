use tokenizers::models::bpe::{Vocab, BPE};
use tokenizers::models::wordlevel::WordLevel;
use tokenizers::Tokenizer;
use tokenizers_wrapper::marshal::{safetify, to_c_bytes};
use tokenizers_wrapper::{collect_ids, decode, encode};

/// A byte-pair-encoding vocabulary where "hello" maps to token 15 and the
/// replacement marker has a token of its own.
fn hello_tokenizer() -> Tokenizer {
    let mut vocab = Vocab::new();
    for (token, id) in [
        ("h", 0u32),
        ("e", 1),
        ("l", 2),
        ("o", 3),
        ("he", 4),
        ("hel", 5),
        ("hell", 6),
        ("\u{FFFD}", 7),
        ("hello", 15),
    ] {
        vocab.insert(token.to_string(), id);
    }
    let merges = vec![
        ("h".to_string(), "e".to_string()),
        ("he".to_string(), "l".to_string()),
        ("hel".to_string(), "l".to_string()),
        ("hell".to_string(), "o".to_string()),
    ];
    let bpe = BPE::builder()
        .vocab_and_merges(vocab, merges)
        .build()
        .expect("building the vocabulary failed");
    Tokenizer::new(bpe)
}

/// A word-level vocabulary with no unknown-token fallback: any word outside
/// the vocabulary makes encoding fail.
fn strict_tokenizer() -> Tokenizer {
    let mut vocab = Vocab::new();
    vocab.insert("hello".to_string(), 15);
    let model = WordLevel::builder()
        .vocab(vocab)
        .build()
        .expect("building the vocabulary failed");
    Tokenizer::new(model)
}

#[test]
fn encode_hello_returns_single_token() {
    let tok = hello_tokenizer();
    let buf = encode(&tok, b"hello\0").expect("encoding failed");
    assert_eq!(buf.count, 1);
    assert_eq!(buf.ids, vec![15]);
}

#[test]
fn decode_known_token_text_and_length() {
    let tok = hello_tokenizer();
    let out = decode(&tok, 15).expect("decoding failed");
    assert_eq!(out.len, 5);
    assert_eq!(out.bytes, b"hello\0".to_vec());
}

#[test]
fn encode_empty_prompt_yields_zero_count() {
    let tok = hello_tokenizer();
    let buf = encode(&tok, b"\0").expect("encoding failed");
    assert_eq!(buf.count, 0);
    assert!(buf.ids.is_empty());
}

#[test]
fn invalid_bytes_are_replaced_not_fatal() {
    let tok = hello_tokenizer();
    // 0xFF is never valid UTF-8: it must become the replacement marker,
    // whose token the vocabulary maps to 7.
    let buf = encode(&tok, b"\xFF\0").expect("encoding failed");
    assert_eq!(buf.ids, vec![7]);
}

#[test]
fn invalid_bytes_inside_prompt_do_not_abort() {
    let tok = hello_tokenizer();
    let buf = encode(&tok, b"he\xFFllo\0").expect("encoding failed");
    // The marker interrupts the merges: he, marker, l, l, o.
    assert_eq!(buf.ids, vec![4, 7, 2, 2, 3]);
}

#[test]
fn round_trip_reproduces_prompt() {
    let tok = hello_tokenizer();
    let buf = encode(&tok, b"helloo\0").expect("encoding failed");
    assert_eq!(buf.ids, vec![15, 3]);
    let mut rebuilt = Vec::new();
    for &id in &buf.ids {
        let piece = decode(&tok, id as u32).expect("decoding failed");
        rebuilt.extend_from_slice(&piece.bytes[..piece.len]);
    }
    assert_eq!(rebuilt, b"helloo".to_vec());
}

#[test]
fn decode_unknown_token_yields_empty_text() {
    let tok = hello_tokenizer();
    let out = decode(&tok, 999).expect("decoding failed");
    assert_eq!(out.len, 0);
    assert_eq!(out.bytes, vec![0]);
}

#[test]
fn encode_failure_yields_none() {
    let tok = strict_tokenizer();
    assert!(encode(&tok, b"bye\0").is_none());
    let buf = encode(&tok, b"hello\0").expect("encoding failed");
    assert_eq!(buf.ids, vec![15]);
}

#[test]
fn safetify_reads_to_first_null() {
    assert_eq!(safetify(b"hello\0world"), "hello");
    assert_eq!(safetify(b"\0"), "");
}

#[test]
fn safetify_replaces_invalid_sequences() {
    assert_eq!(safetify(b"\xFFabc\0"), "\u{FFFD}abc");
}

#[test]
fn to_c_bytes_appends_terminator() {
    let out = to_c_bytes("hello").expect("conversion failed");
    assert_eq!(out.len, 5);
    assert_eq!(out.bytes, b"hello\0".to_vec());
    let empty = to_c_bytes("").expect("conversion failed");
    assert_eq!(empty.len, 0);
    assert_eq!(empty.bytes, vec![0]);
}

#[test]
fn to_c_bytes_rejects_embedded_null() {
    assert!(to_c_bytes("a\0b").is_none());
}

#[test]
fn collect_ids_widens_in_order() {
    let buf = collect_ids(&vec![1u32, 2, u32::MAX]);
    assert_eq!(buf.count, 3);
    assert_eq!(buf.ids, vec![1usize, 2, u32::MAX as usize]);
}
