//! The contents of a file as the contents endpoint hands them out.

use crate::json::Json;
use crate::text::{
    concat_all, join_text, split_on, split_text, str_eq, strip_prefixes, stripped, trim, trimmed,
    utf8_text,
};
use vstd::prelude::*;
use vstd::utf8::*;

verus! {

#[verifier::external_type_specification]
#[verifier::external_body]
pub struct ExDecodeError(base64::DecodeError);

/// The bytes that the standard base64 engine of the `base64` crate decodes
/// from a text, `None` where it rejects the text.
pub uninterp spec fn base64_decoded(text: Seq<char>) -> Option<Seq<u8>>;

/// Calls `Engine::decode` on `base64::prelude::BASE64_STANDARD`. The engine
/// reads nothing but its argument: the contract names the bytes and says no
/// more of them.
#[verifier::external_body]
fn decode_base64(text: &str) -> (r: Result<Vec<u8>, base64::DecodeError>)
    ensures
        r is Ok <==> base64_decoded(text@) is Some,
        r matches Ok(bytes) ==> base64_decoded(text@) == Some(bytes@),
{
    base64::Engine::decode(&base64::prelude::BASE64_STANDARD, text)
}

/// Why the contents of a file could not be had.
#[derive(Clone, Copy, Debug, PartialEq, Eq, Structural, Hash)]
pub enum FileError {
    /// The document is no file, or its contents are not base64.
    UnexpectedShape,
    /// The document has no contents.
    NoContent,
    /// The contents are announced as base64 and are none.
    NotBase64,
    /// The decoded contents are no UTF-8 text.
    NotUtf8,
}

/// A text member, `Not available` where the document has none.
pub open spec fn text_or_unavailable(doc: Json, key: Seq<char>) -> Seq<char> {
    match doc.field_text(key) {
        Some(t) => t,
        None => "Not available"@,
    }
}

/// Base64 contents as they are decoded: without the white space at the
/// ends and without the line breaks in between.
pub open spec fn packed(content: Seq<char>) -> Seq<char> {
    join_text(split_text(trimmed(content), '\n'), Seq::<char>::empty())
}

/// The text that decoded bytes stand for.
pub open spec fn bytes_text(bytes: Seq<u8>) -> Result<Seq<char>, FileError> {
    if valid_utf8(bytes) {
        Ok(decode_utf8(bytes))
    } else {
        Err(FileError::NotUtf8)
    }
}

/// The text that packed base64 contents stand for.
pub open spec fn decoded_text(packed: Seq<char>) -> Result<Seq<char>, FileError> {
    match base64_decoded(packed) {
        Some(bytes) => bytes_text(bytes),
        None => Err(FileError::NotBase64),
    }
}

/// The text of the file that a document of the contents endpoint holds.
pub open spec fn file_text(doc: Json) -> Result<Seq<char>, FileError> {
    if text_or_unavailable(doc, "type"@) != "file"@ || text_or_unavailable(doc, "encoding"@)
        != "base64"@ {
        Err(FileError::UnexpectedShape)
    } else {
        match doc.field_text("content"@) {
            Some(content) => decoded_text(packed(content)),
            None => Err(FileError::NoContent),
        }
    }
}

/// The text that decoded bytes stand for.
pub fn text_of_bytes(bytes: Vec<u8>) -> (r: Result<String, FileError>)
    ensures
        r is Ok <==> bytes_text(bytes@) is Ok,
        r matches Ok(s) ==> bytes_text(bytes@) == Ok::<Seq<char>, FileError>(s@),
        r matches Err(e) ==> bytes_text(bytes@) == Err::<Seq<char>, FileError>(e),
{
    match utf8_text(bytes) {
        Some(s) => Ok(s),
        None => Err(FileError::NotUtf8),
    }
}

/// Whether the member `key` is the text `expected`, a missing member
/// counting as `Not available`.
fn member_is(doc: &Json, key: &str, expected: &str) -> (r: bool)
    ensures
        r == (text_or_unavailable(*doc, key@) == expected@),
{
    match doc.get_str(key) {
        Some(t) => str_eq(t, expected),
        None => str_eq("Not available", expected),
    }
}

/// The text of the file that a document of the contents endpoint holds.
pub fn process_fetch_file_result(res: &Json) -> (r: Result<String, FileError>)
    ensures
        r is Ok <==> file_text(*res) is Ok,
        r matches Ok(s) ==> file_text(*res) == Ok::<Seq<char>, FileError>(s@),
        r matches Err(e) ==> file_text(*res) == Err::<Seq<char>, FileError>(e),
{
    if !member_is(res, "type", "file") || !member_is(res, "encoding", "base64") {
        return Err(FileError::UnexpectedShape);
    }
    match res.get_str("content") {
        None => Err(FileError::NoContent),
        Some(content) => {
            let pieces = split_on(trim(content), '\n');
            let joined = concat_all(&pieces);
            match decode_base64(joined.as_str()) {
                Ok(bytes) => text_of_bytes(bytes),
                Err(_) => Err(FileError::NotBase64),
            }
        },
    }
}

/// The host that the addresses of the API begin with.
pub open spec fn api_prefix() -> Seq<char> {
    "https://api.github.com"@
}

/// The path of a file's contents, from the address that a search hands out:
/// the address without the host.
pub fn fetch_file_content(url: &str) -> (r: &str)
    ensures
        r@ == stripped(url@, api_prefix()),
{
    strip_prefixes(url, "https://api.github.com")
}

} // verus!
