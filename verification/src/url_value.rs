//! URLs as the backend carries them: a value of the `url` crate together
//! with the text it was parsed from.

use vstd::prelude::*;

verus! {

/// Declares `url::Url` to Verus; its contents stay opaque.
#[verifier::external_type_specification]
#[verifier::external_body]
pub struct ExUrl(url::Url);

/// Declares `url::ParseError` to Verus; its contents stay opaque.
#[verifier::external_type_specification]
#[verifier::external_body]
pub struct ExUrlParseError(url::ParseError);

/// Whether `url::Url::parse` accepts the given text as an absolute URL.
pub uninterp spec fn url_parses(input: Seq<char>) -> bool;

/// The URL that `url::Url::parse` makes of the given text, where it
/// accepts it.
pub uninterp spec fn parsed_url(input: Seq<char>) -> url::Url;

/// Calls `url::Url::parse`. Trusted: the call succeeds exactly when
/// `url_parses` holds of the input text, and then gives `parsed_url` of it
/// (the URL standard decides both, from the text alone). Nothing is stated
/// of the error.
#[verifier::external_body]
fn parse_url(input: &str) -> (r: Result<url::Url, url::ParseError>)
    ensures
        r is Ok <==> url_parses(input@),
        r matches Ok(u) ==> u == parsed_url(input@),
{
    url::Url::parse(input)
}

/// Calls `<url::Url as Clone>::clone`. Trusted: the clone is equal to the
/// original (`Url` derives `Clone`, and all its fields are plain values).
#[verifier::external_body]
fn clone_url(u: &url::Url) -> (r: url::Url)
    ensures
        r == *u,
{
    u.clone()
}

/// A parsed absolute URL, kept with the text it was parsed from.
///
/// Values only come from [`ParsedUrl::parse`] and from cloning one, so the
/// URL inside is always the parse of `source`; the view of a `ParsedUrl` is
/// that text.
#[derive(Debug)]
pub struct ParsedUrl {
    url: url::Url,
    source: String,
}

impl View for ParsedUrl {
    type V = Seq<char>;

    closed spec fn view(&self) -> Seq<char> {
        self.source@
    }
}

impl ParsedUrl {
    #[verifier::type_invariant]
    closed spec fn source_parses(self) -> bool {
        &&& url_parses(self.source@)
        &&& self.url == parsed_url(self.source@)
    }

    /// Parses `input` as an absolute URL; `None` when the `url` crate refuses it.
    pub fn parse(input: &str) -> (r: Option<ParsedUrl>)
        ensures
            r is Some <==> url_parses(input@),
            r matches Some(u) ==> u@ == input@ && u.parsed() == parsed_url(input@),
    {
        match parse_url(input) {
            Ok(url) => Some(ParsedUrl { url, source: input.to_owned() }),
            Err(_) => None,
        }
    }

    /// The text this URL was parsed from.
    pub fn as_source(&self) -> (r: &str)
        ensures
            r@ == self@,
    {
        self.source.as_str()
    }

    /// The URL of the `url` crate that this value holds: the parse of its
    /// source text (see [`ParsedUrl::url`]).
    pub closed spec fn parsed(self) -> url::Url {
        self.url
    }

    /// The URL of the `url` crate that this value holds.
    pub fn url(&self) -> (r: &url::Url)
        ensures
            *r == self.parsed(),
            *r == parsed_url(self@),
    {
        proof {
            use_type_invariant(self);
        }
        &self.url
    }

    /// The URL of the `url` crate that this value holds, taken out.
    pub fn into_url(self) -> (r: url::Url)
        ensures
            r == self.parsed(),
            r == parsed_url(self@),
    {
        proof {
            use_type_invariant(&self);
        }
        self.url
    }

    /// The view of an optional URL: its source text, if any.
    pub open spec fn opt_view(u: Option<ParsedUrl>) -> Option<Seq<char>> {
        match u {
            Some(u) => Some(u@),
            None => None,
        }
    }
}

impl Clone for ParsedUrl {
    /// A copy that was parsed from the same text.
    fn clone(&self) -> (r: ParsedUrl)
        ensures
            r@ == self@,
            r.parsed() == self.parsed(),
    {
        proof {
            use_type_invariant(self);
        }
        ParsedUrl { url: clone_url(&self.url), source: self.source.clone() }
    }
}

} // verus!
