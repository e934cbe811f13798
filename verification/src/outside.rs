//! What the library takes from elsewhere: the path behind a URL, and lossy decoding.

use vstd::prelude::*;
use vstd::utf8::{decode_utf8, valid_utf8};

verus! {

/// The view of an optional byte string.
pub open spec fn optional_bytes(bytes: Option<Vec<u8>>) -> Option<Seq<u8>> {
    match bytes {
        Some(b) => Some(b@),
        None => None,
    }
}

/// The file path that a URL stands for, if it stands for one, on the platform that the
/// crate is built for.
pub uninterp spec fn url_file_path(url: Seq<char>) -> Option<Seq<u8>>;

/// Calls `url::Url::to_file_path` on the URL that `url::Url::parse` makes of its text.
///
/// The claim is that the path, or the lack of one, depends on the text alone. What does not
/// parse as a URL has no path. The path is handed out as the bytes that encode it; how they
/// come from the text is left to the `url` crate.
#[verifier::external_body]
pub(crate) fn to_file_path(url: &str) -> (path: Option<Vec<u8>>)
    ensures
        optional_bytes(path) == url_file_path(url@),
{
    let url = url::Url::parse(url).ok()?;
    let path = url.to_file_path().ok()?;
    Some(path.into_os_string().into_encoded_bytes())
}

/// The text that `bytes` decode to, with replacement characters for what is not UTF-8.
pub uninterp spec fn lossy_chars(bytes: Seq<u8>) -> Seq<char>;

/// Calls `String::from_utf8_lossy`.
///
/// The claim is that the text depends on the bytes alone, and that UTF-8 is decoded as such.
/// Where the replacement characters fall in other input is left to the standard library.
#[verifier::external_body]
pub(crate) fn lossy_text(bytes: &[u8]) -> (text: String)
    ensures
        text@ == lossy_chars(bytes@),
        valid_utf8(bytes@) ==> text@ == decode_utf8(bytes@),
{
    String::from_utf8_lossy(bytes).into_owned()
}

/// The view of an optional byte string is there exactly where the byte string is.
pub proof fn byte_views_are_faithful(bytes: Option<Vec<u8>>)
    ensures
        bytes matches Some(b) ==> optional_bytes(bytes) == Some(b@),
        bytes is None ==> optional_bytes(bytes) is None,
{
}

} // verus!
