//! The payload of a `Data` frame: TCP bytes in base64, standard alphabet,
//! padded.

use vstd::prelude::*;
use base64::Engine;

verus! {

/// The base64 text of `bytes`.
pub uninterp spec fn base64_encoding(bytes: Seq<u8>) -> Seq<char>;

/// The bytes that the base64 text `text` stands for, if it is well formed.
pub uninterp spec fn base64_decoding(text: Seq<char>) -> Option<Seq<u8>>;

/// What an optional byte vector holds.
pub open spec fn bytes_view(b: Option<Vec<u8>>) -> Option<Seq<u8>> {
    match b {
        Some(v) => Some(v@),
        None => None,
    }
}

/// The largest chunk that is ever encoded into one frame: the size of the
/// buffer a stream is read with.
pub const READ_CHUNK_SIZE: usize = 8192;

/// `Engine::encode` of the `base64` crate on its `STANDARD` engine: the
/// base64 text of `bytes`. It has four characters for every three bytes
/// begun, as the crate's `encoded_len` computes for a padded engine, and it
/// decodes to `bytes` again: the round trip that the crate documents for
/// this engine. The crate fails on inputs whose text would be longer than
/// a `usize` can say; those are left out.
#[verifier::external_body]
pub(crate) fn encode_payload(bytes: &Vec<u8>) -> (r: String)
    requires
        bytes@.len() <= usize::MAX / 2,
    ensures
        r@ == base64_encoding(bytes@),
        r@.len() == (bytes@.len() + 2) / 3 * 4,
        base64_decoding(r@) == Some(bytes@),
{
    base64::engine::general_purpose::STANDARD.encode(bytes)
}

/// `Engine::decode` of the `base64` crate on its `STANDARD` engine, with
/// its error dropped: the bytes that `text` stands for, or nothing if
/// `text` is not well formed. The second clause is the round trip that the
/// crate documents for this engine: the text that `encode` makes of some
/// bytes decodes to those bytes.
#[verifier::external_body]
pub(crate) fn decode_payload(text: &str) -> (r: Option<Vec<u8>>)
    ensures
        bytes_view(r) == base64_decoding(text@),
        forall|b: Seq<u8>| text@ == #[trigger] base64_encoding(b) ==> bytes_view(r) == Some(b),
{
    base64::engine::general_purpose::STANDARD.decode(text).ok()
}

} // verus!
