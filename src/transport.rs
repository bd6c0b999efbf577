//! File contents encoded as base64 text for transport to the front-end.
use vstd::prelude::*;
use base64::Engine;
use crate::error::{FileError, OsError};

verus! {

/// The standard, padded base64 encoding of a byte sequence, as
/// `base64::engine::general_purpose::STANDARD` writes it.
pub uninterp spec fn base64_of(bytes: Seq<u8>) -> Seq<char>;

/// The length of the padded encoding of `n` bytes: four characters for each
/// started group of three bytes.
pub open spec fn encoded_len(n: nat) -> nat {
    4 * ((n + 2) / 3)
}

/// A character of the standard base64 alphabet, or the padding `=`.
pub open spec fn is_base64_char(c: char) -> bool {
    ||| ('A' <= c && c <= 'Z')
    ||| ('a' <= c && c <= 'z')
    ||| ('0' <= c && c <= '9')
    ||| c == '+'
    ||| c == '/'
    ||| c == '='
}

/// The inputs that the encoder can size without overflow.
pub open spec fn encodable(n: nat) -> bool {
    4 * (n / 3) + 4 <= usize::MAX
}

/// The message that a failed read starts with.
pub open spec fn read_context() -> Seq<char> {
    "Failed to read image file: "@
}

/// Relies on `Engine::encode` of `base64::engine::general_purpose::STANDARD`:
/// standard alphabet, padded output, whose length `base64::encoded_len` gives.
/// It panics only where that length overflows `usize`.
#[verifier::external_body]
fn encode_standard(bytes: &[u8]) -> (r: String)
    requires
        encodable(bytes@.len()),
    ensures
        r@ == base64_of(bytes@),
        r@.len() == encoded_len(bytes@.len()),
        forall|i: int| 0 <= i < r@.len() ==> is_base64_char(#[trigger] r@[i]),
{
    base64::engine::general_purpose::STANDARD.encode(bytes)
}

/// Relies on `Engine::decode` of `base64::engine::general_purpose::STANDARD`:
/// the engine's own canonical output decodes back to the bytes it encoded.
#[verifier::external_body]
fn decode_standard(text: &str) -> (r: Option<Vec<u8>>)
    ensures
        forall|b: Seq<u8>| #[trigger] base64_of(b) == text@ ==> (r is Some && r->Some_0@ == b),
{
    base64::engine::general_purpose::STANDARD.decode(text).ok()
}

/// The contents of a file as base64 text, from the result of reading it.
pub fn read_image_file(contents: Result<Vec<u8>, OsError>) -> (r: Result<String, FileError>)
    requires
        contents matches Ok(b) ==> encodable(b@.len()),
    ensures
        contents is Ok <==> r is Ok,
        r matches Ok(s) ==> s@ == base64_of(contents->Ok_0@) && s@.len() == encoded_len(
            contents->Ok_0@.len(),
        ),
        r matches Err(e) ==> {
            &&& contents->Err_0.not_found <==> e is NotFound
            &&& e.message_spec() == read_context() + contents->Err_0.detail@
        },
{
    match contents {
        Ok(bytes) => Ok(encode_standard(bytes.as_slice())),
        Err(e) => Err(FileError::from_os("Failed to read image file: ", e)),
    }
}

/// A thumbnail of the image no larger than `max_size` on its longer side.
/// No image is decoded, so the whole file is returned, encoded as
/// `read_image_file` encodes it.
pub fn generate_thumbnail(contents: Result<Vec<u8>, OsError>, max_size: u32) -> (r: Result<
    String,
    FileError,
>)
    requires
        contents matches Ok(b) ==> encodable(b@.len()),
    ensures
        contents is Ok <==> r is Ok,
        r matches Ok(s) ==> s@ == base64_of(contents->Ok_0@),
        r matches Err(e) ==> {
            &&& contents->Err_0.not_found <==> e is NotFound
            &&& e.message_spec() == read_context() + contents->Err_0.detail@
        },
{
    read_image_file(contents)
}

/// The bytes that a base64 text produced by `read_image_file` stands for.
/// Decoding the encoding of any bytes gives those bytes back.
pub fn decode_payload(text: &str) -> (r: Option<Vec<u8>>)
    ensures
        forall|b: Seq<u8>| #[trigger] base64_of(b) == text@ ==> (r is Some && r->Some_0@ == b),
{
    decode_standard(text)
}

} // verus!
