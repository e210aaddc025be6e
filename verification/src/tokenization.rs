//! Trusted view of the tokenizer library: the opaque tokenizer type and
//! wrappers for loading, encoding and decoding. What a tokenizer returns
//! depends on its loaded vocabulary, which stays opaque here, so nothing
//! is promised of the produced ids or text.

use vstd::prelude::*;

verus! {

#[verifier::external_type_specification]
#[verifier::external_body]
pub struct ExTokenizer(tokenizers::Tokenizer);

/// Relies on tokenizers::Tokenizer::from_file: reads and parses a
/// tokenizer definition; what comes back depends on what is on disk.
#[verifier::external_body]
pub(crate) fn tokenizer_from_file(path: &str) -> Option<tokenizers::Tokenizer> {
    tokenizers::Tokenizer::from_file(path).ok()
}

/// Relies on tokenizers::Tokenizer::encode: the token ids of the given
/// text, with special tokens added.
#[verifier::external_body]
pub(crate) fn tokenizer_encode(tok: &tokenizers::Tokenizer, text: &str) -> Option<Vec<u32>> {
    match tok.encode(text, true) {
        Ok(enc) => Some(enc.get_ids().to_vec()),
        Err(_) => None,
    }
}

/// Relies on tokenizers::Tokenizer::decode: the text fragment of one token
/// id, with special tokens skipped.
#[verifier::external_body]
pub(crate) fn tokenizer_decode(tok: &tokenizers::Tokenizer, id: u32) -> Option<String> {
    tok.decode(&[id], true).ok()
}

} // verus!
