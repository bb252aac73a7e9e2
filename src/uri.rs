//! `file://` URIs of paths, percent-encoded.
use vstd::prelude::*;
use crate::errors::AmpError;
use crate::ide_ops::is_absolute;
use crate::text::is_prefix;

verus! {

/// The `file://` URI that the url crate builds for an absolute path.
pub uninterp spec fn file_uri_of(path: Seq<char>) -> Seq<char>;

/// The path that the url crate reads from a `file://` URI, where it reads one.
pub uninterp spec fn path_of_file_uri(uri: Seq<char>) -> Option<Seq<char>>;

/// Relies on url::Url::from_file_path and the URL's text: on Unix it
/// accepts exactly the absolute paths, percent-encodes each segment, and
/// the text starts with `file://`.
#[verifier::external_body]
fn url_from_path(path: &str) -> (r: Option<String>)
    ensures
        r is Some <==> is_absolute(path@),
        r matches Some(u) ==> u@ == file_uri_of(path@) && is_prefix("file://"@, u@),
{
    url::Url::from_file_path(path).ok().map(|u| u.as_str().to_owned())
}

/// Relies on url::Url::parse and Url::to_file_path: the percent-decoded path
/// of a local `file://` URI; what it reads depends on the text alone.
#[verifier::external_body]
fn path_from_url(uri: &str) -> (r: Option<String>)
    ensures
        match r {
            Some(p) => path_of_file_uri(uri@) == Some(p@),
            None => path_of_file_uri(uri@) is None,
        },
{
    url::Url::parse(uri).ok().and_then(|u| u.to_file_path().ok()).map(|p| p.to_string_lossy().into_owned())
}

/// The percent-encoded `file://` URI of an absolute path; a relative path
/// is an error.
pub fn to_uri(path: &str) -> (r: Result<String, AmpError>)
    ensures
        is_absolute(path@) ==> (r matches Ok(u) && u@ == file_uri_of(path@) && is_prefix("file://"@, u@)),
        !is_absolute(path@) ==> r matches Err(AmpError::Other(_)),
{
    match url_from_path(path) {
        Some(u) => Ok(u),
        None => Err(AmpError::Other("Invalid URI format".to_owned())),
    }
}

/// The path of a `file://` URI. A URI of another scheme, or one the url
/// crate reads no local path from, is an error.
pub fn from_uri(uri: &str) -> (r: Result<String, AmpError>)
    ensures
        !is_prefix("file://"@, uri@) ==> r matches Err(AmpError::Other(_)),
        is_prefix("file://"@, uri@) ==> match path_of_file_uri(uri@) {
            Some(p) => r matches Ok(q) && q@ == p,
            None => r matches Err(AmpError::Other(_)),
        },
{
    if !crate::text::starts_with(uri, "file://") {
        return Err(AmpError::Other("Invalid URI format".to_owned()));
    }
    match path_from_url(uri) {
        Some(p) => Ok(p),
        None => Err(AmpError::Other("Invalid URI format".to_owned())),
    }
}

} // verus!
