//! URLs, as far as the rest of the library reads them: the text of a URL, its
//! scheme and its host. Parsing and joining are the `url` crate's.

use crate::text::text_view;
use vstd::prelude::*;

verus! {

/// A parsed URL.
#[derive(Debug, PartialEq, Eq)]
pub struct Url {
    serialization: String,
    scheme: String,
    host: Option<String>,
}

/// What a `Url` holds.
pub struct UrlView {
    /// The URL written out, in the `url` crate's normal form.
    pub text: Seq<char>,
    /// The scheme, in lower case and without the colon.
    pub scheme: Seq<char>,
    /// The host, if the URL has one.
    pub host: Option<Seq<char>>,
}

impl View for Url {
    type V = UrlView;

    closed spec fn view(&self) -> UrlView {
        UrlView {
            text: self.serialization@,
            scheme: self.scheme@,
            host: text_view(self.host),
        }
    }
}

/// `url` with the view of what it holds.
pub open spec fn url_view(url: Option<Url>) -> Option<UrlView> {
    match url {
        Some(url) => Some(url@),
        None => None,
    }
}

impl Clone for Url {
    fn clone(&self) -> (r: Self)
        ensures
            r@ == self@,
    {
        Url {
            serialization: self.serialization.clone(),
            scheme: self.scheme.clone(),
            host: match &self.host {
                Some(host) => Some(host.clone()),
                None => None,
            },
        }
    }
}

/// What `url::Url::parse` makes of `input`: the text, the scheme and the host
/// of the URL that it returns, and `None` where it rejects the text.
pub uninterp spec fn url_parse(input: Seq<char>) -> Option<UrlView>;

/// What `url::Url::join` makes of `reference` on the URL with the text `base`:
/// the text, the scheme and the host of the URL that it returns, and `None`
/// where `base` is no URL or the reference cannot be resolved against it.
pub uninterp spec fn url_join(base: Seq<char>, reference: Seq<char>) -> Option<UrlView>;

/// What `url::Url::from_directory_path` makes of the directory `path`, which
/// it reads by the rules of the platform that the library is built for: the
/// text, the scheme and the host of the URL that it returns, and `None` where
/// it rejects the path, as it does for one that is not absolute.
pub uninterp spec fn url_from_directory_path(path: Seq<char>) -> Option<UrlView>;

/// The path that `url::Url::to_file_path` gives for the URL with the text
/// `text`, written by the rules of the platform that the library is built
/// for: `None` where `text` is no URL, where the URL names no local file, or
/// where the path is not Unicode text.
pub uninterp spec fn url_to_file_path(text: Seq<char>) -> Option<Seq<char>>;

/// Parses `input` with `url::Url::parse`. The result is the URL's text
/// (`as_str`), scheme (`scheme`) and host (`host_str`), copied out of the URL
/// that the call returned; nothing is claimed of them but that the same input
/// gives the same result.
#[verifier::external_body]
fn parse_text(input: &str) -> (r: Option<Url>)
    ensures
        url_view(r) == url_parse(input@),
{
    match url::Url::parse(input) {
        Ok(parsed) => Some(
            Url {
                serialization: parsed.as_str().to_string(),
                scheme: parsed.scheme().to_string(),
                host: parsed.host_str().map(|host| host.to_string()),
            },
        ),
        Err(_) => None,
    }
}

/// Resolves `reference` with `url::Url::join` against the URL that
/// `url::Url::parse` makes of `base`. The result is the text, the scheme and
/// the host of the URL that the call returned; nothing is claimed of them but
/// that the same base and reference give the same result.
#[verifier::external_body]
fn join_text(base: &str, reference: &str) -> (r: Option<Url>)
    ensures
        url_view(r) == url_join(base@, reference@),
{
    match url::Url::parse(base) {
        Ok(parsed) => match parsed.join(reference) {
            Ok(joined) => Some(
                Url {
                    serialization: joined.as_str().to_string(),
                    scheme: joined.scheme().to_string(),
                    host: joined.host_str().map(|host| host.to_string()),
                },
            ),
            Err(_) => None,
        },
        Err(_) => None,
    }
}

/// Makes the URL of the directory `path` with `url::Url::from_directory_path`.
/// The result is the text, the scheme and the host of the URL that the call
/// returned; nothing is claimed of them but that the same path gives the same
/// result.
#[verifier::external_body]
fn directory_url(path: &str) -> (r: Option<Url>)
    ensures
        url_view(r) == url_from_directory_path(path@),
{
    match url::Url::from_directory_path(path) {
        Ok(made) => Some(
            Url {
                serialization: made.as_str().to_string(),
                scheme: made.scheme().to_string(),
                host: made.host_str().map(|host| host.to_string()),
            },
        ),
        Err(_) => None,
    }
}

/// Asks `url::Url::to_file_path` for the path of the URL that
/// `url::Url::parse` makes of `text`, and hands the path back as text, or
/// `None` for a path that is no Unicode text. Nothing is claimed of the path
/// but that the same URL gives the same one.
#[verifier::external_body]
fn file_path_text(text: &str) -> (r: Option<String>)
    ensures
        text_view(r) == url_to_file_path(text@),
{
    match url::Url::parse(text) {
        Ok(parsed) => match parsed.to_file_path() {
            Ok(path) => path.to_str().map(|path| path.to_string()),
            Err(_) => None,
        },
        Err(_) => None,
    }
}

impl Url {
    /// Parses an absolute URL.
    pub fn parse(input: &str) -> (r: Option<Url>)
        ensures
            url_view(r) == url_parse(input@),
    {
        parse_text(input)
    }

    /// Resolves `reference` against this URL, as a browser resolves a link.
    pub fn join(&self, reference: &str) -> (r: Option<Url>)
        ensures
            url_view(r) == url_join(self@.text, reference@),
    {
        join_text(self.serialization.as_str(), reference)
    }

    /// The `file` URL of the directory `path`, with a slash at its end.
    pub fn from_directory_path(path: &str) -> (r: Option<Url>)
        ensures
            url_view(r) == url_from_directory_path(path@),
    {
        directory_url(path)
    }

    /// The path of the local file that this URL names.
    pub fn to_file_path(&self) -> (r: Option<String>)
        ensures
            text_view(r) == url_to_file_path(self@.text),
    {
        file_path_text(self.serialization.as_str())
    }

    /// The URL written out.
    pub fn as_str(&self) -> (r: &str)
        ensures
            r@ == self@.text,
    {
        self.serialization.as_str()
    }

    /// The URL written out, as a text of its own.
    pub fn to_string(&self) -> (r: String)
        ensures
            r@ == self@.text,
    {
        self.serialization.clone()
    }

    /// The scheme, in lower case and without the colon.
    pub fn scheme(&self) -> (r: &str)
        ensures
            r@ == self@.scheme,
    {
        self.scheme.as_str()
    }

    /// The host, if the URL has one.
    pub fn host_str(&self) -> (r: Option<&str>)
        ensures
            (match r {
                Some(host) => Some(host@),
                None => None,
            }) == self@.host,
    {
        match &self.host {
            Some(host) => Some(host.as_str()),
            None => None,
        }
    }
}

} // verus!
