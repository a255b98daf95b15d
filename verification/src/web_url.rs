//! Absolute URLs, as far as the scrape logic reads them: the serialization and
//! the path. Parsing and rewriting are the `url` crate's.

use vstd::prelude::*;
use vstd::string::*;
use vstd::utf8::encode_utf8;
use crate::text::{nth_piece, nth_piece_of, opt_str};

verus! {

/// What is read of a URL: its serialization and its path.
pub struct UrlView {
    pub text: Seq<char>,
    pub path: Seq<char>,
}

/// The URL that `url::Url::parse` makes of `input`, or `None` where it rejects
/// the input.
pub uninterp spec fn url_parse(input: Seq<char>) -> Option<UrlView>;

/// The URL that results when `url::Url::parse` reads `base` and
/// `url::Url::set_path` then replaces its path by `path`; `None` where `base`
/// is rejected.
pub uninterp spec fn url_set_path(base: Seq<char>, path: Seq<char>) -> Option<UrlView>;

/// The longest serialization, in bytes, whose path `WebUrl::with_path` replaces.
pub const MAX_BASE_BYTES: usize = 0x1000_0000;

/// The longest replacement path, in bytes, that `WebUrl::with_path` takes.
pub const MAX_PATH_BYTES: usize = 0x1000_0000;

/// Whether a serialization and a replacement path are short enough for the path
/// to be replaced: the rewritten URL must stay under four gibibytes even if
/// every byte of the path is percent-encoded.
pub open spec fn rewritable(base: Seq<char>, path: Seq<char>) -> bool {
    encode_utf8(base).len() <= MAX_BASE_BYTES && encode_utf8(path).len() <= MAX_PATH_BYTES
}

/// An absolute URL.
#[derive(Debug)]
pub struct WebUrl {
    text: String,
    path: String,
}

impl View for WebUrl {
    type V = UrlView;

    closed spec fn view(&self) -> UrlView {
        UrlView { text: self.text@, path: self.path@ }
    }
}

/// The view of an optional URL.
pub open spec fn opt_url(u: Option<WebUrl>) -> Option<UrlView> {
    match u {
        Some(u) => Some(u@),
        None => None,
    }
}

/// Calls `url::Url::parse` and hands out the serialization (`Url::as_str`) and
/// the path (`Url::path`) of what it returns. The contract names that result
/// `url_parse`; nothing is claimed of what it holds.
#[verifier::external_body]
fn parse_parts(input: &str) -> (r: Option<(String, String)>)
    ensures
        r is Some == url_parse(input@) is Some,
        r matches Some(p) ==> url_parse(input@) == Some(UrlView { text: p.0@, path: p.1@ }),
{
    match url::Url::parse(input) {
        Ok(u) => Some((u.as_str().to_string(), u.path().to_string())),
        Err(_) => None,
    }
}

/// Calls `url::Url::parse` on `base` and `url::Url::set_path` with `path` on the
/// result, and hands out the new serialization and path. `set_path` panics
/// where the rewritten serialization needs more than `u32::MAX` bytes, which
/// the bounds rule out. The contract names that result `url_set_path`.
#[verifier::external_body]
fn set_path_parts(base: &str, path: &str) -> (r: Option<(String, String)>)
    requires
        rewritable(base@, path@),
    ensures
        r is Some == url_set_path(base@, path@) is Some,
        r matches Some(p) ==> url_set_path(base@, path@) == Some(
            UrlView { text: p.0@, path: p.1@ },
        ),
{
    match url::Url::parse(base) {
        Ok(mut u) => {
            u.set_path(path);
            Some((u.as_str().to_string(), u.path().to_string()))
        },
        Err(_) => None,
    }
}

impl WebUrl {
    /// Parses an absolute URL.
    pub fn parse(input: &str) -> (r: Option<WebUrl>)
        ensures
            opt_url(r) == url_parse(input@),
    {
        match parse_parts(input) {
            Some((text, path)) => Some(WebUrl { text, path }),
            None => None,
        }
    }

    /// The serialization.
    pub fn as_str(&self) -> (r: &str)
        ensures
            r@ == self@.text,
    {
        self.text.as_str()
    }

    /// The path.
    pub fn path(&self) -> (r: &str)
        ensures
            r@ == self@.path,
    {
        self.path.as_str()
    }

    /// This URL with its path replaced by `path`. `None` where either text is
    /// too long to rewrite, or the serialization does not parse again.
    pub fn with_path(&self, path: &str) -> (r: Option<WebUrl>)
        ensures
            opt_url(r) == if rewritable(self@.text, path@) {
                url_set_path(self@.text, path@)
            } else {
                None
            },
    {
        if self.text.as_str().as_bytes().len() > MAX_BASE_BYTES || path.as_bytes().len()
            > MAX_PATH_BYTES {
            return None;
        }
        match set_path_parts(self.text.as_str(), path) {
            Some((text, path)) => Some(WebUrl { text, path }),
            None => None,
        }
    }

    /// The piece of the path at position `n` when the path is split on `/`.
    /// The path of `https://host/a/b` is `/a/b`, so its piece 0 is empty, piece
    /// 1 is `a` and piece 2 is `b`.
    pub fn path_piece(&self, n: usize) -> (r: Option<String>)
        ensures
            opt_str(r) == nth_piece(self@.path, '/', n as int),
    {
        nth_piece_of(self.path.as_str(), '/', n)
    }
}

impl Clone for WebUrl {
    fn clone(&self) -> (r: Self)
        ensures
            r == *self,
    {
        WebUrl { text: self.text.clone(), path: self.path.clone() }
    }
}

} // verus!
