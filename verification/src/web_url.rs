//! Absolute URLs, parsed and joined by the `url` crate.
use vstd::prelude::*;

verus! {

#[verifier::external_type_specification]
#[verifier::external_body]
pub struct ExUrl(url::Url);

/// What `url::Url::parse` gives for `input`: the serialization of the parsed
/// URL, or the text of the parse error.
pub uninterp spec fn url_parse(input: Seq<char>) -> Result<Seq<char>, Seq<char>>;

/// What `url::Url::join` gives when `input` is resolved against the URL whose
/// serialization is `base`: the serialization of the result, or the text of
/// the parse error.
pub uninterp spec fn url_join(base: Seq<char>, input: Seq<char>) -> Result<Seq<char>, Seq<char>>;

/// The part of a URL serialization before its first ':'.
pub open spec fn scheme_of(s: Seq<char>) -> Seq<char>
    decreases s.len(),
{
    if s.len() == 0 || s[0] == ':' {
        Seq::empty()
    } else {
        seq![s[0]] + scheme_of(s.drop_first())
    }
}

/// Whether a scheme is one of those the wrapper talks to.
pub open spec fn is_web_scheme(scheme: Seq<char>) -> bool {
    scheme == "http"@ || scheme == "https"@
}

/// Whether `p` is a plain relative path segment: ASCII lowercase letters,
/// digits and '-' only, or nothing at all.
pub open spec fn is_plain_segment(p: Seq<char>) -> bool {
    forall|k: int| 0 <= k < p.len() ==> ('a' <= #[trigger] p[k] <= 'z' || '0' <= p[k] <= '9' || p[k] == '-')
}

/// Whether every plain segment joins onto the URL whose serialization is `base`.
pub open spec fn joins_plain_segments(base: Seq<char>) -> bool {
    forall|p: Seq<char>| is_plain_segment(p) ==> (#[trigger] url_join(base, p)) is Ok
}

/// An absolute URL: the value of the `url` crate together with its
/// serialization, which is its view.
pub struct WebUrl {
    url: url::Url,
    text: String,
}

impl View for WebUrl {
    type V = Seq<char>;

    closed spec fn view(&self) -> Seq<char> {
        self.text@
    }
}

/// The views of an outcome that holds a URL or an error text.
pub open spec fn url_outcome(r: Result<WebUrl, String>) -> Result<Seq<char>, Seq<char>> {
    match r {
        Ok(u) => Ok(u@),
        Err(e) => Err(e@),
    }
}

/// Calls `url::Url::parse` on `input`; a parsed URL is kept with its
/// serialization (`Url::as_str`), an error is turned into its text.
/// The outcome is named `url_parse`. A parsed http or https URL always has a
/// host, so it is a base for relative references: joining a plain segment
/// onto it takes the parser's relative path (the segment has no ':', '/',
/// '\\', '?' or '#'), which appends it to the base's path and fails nowhere,
/// and joining nothing copies the base.
#[verifier::external_body]
pub(crate) fn parse_url(input: &str) -> (r: Result<WebUrl, String>)
    ensures
        url_outcome(r) == url_parse(input@),
        r matches Ok(w) ==> (is_web_scheme(scheme_of(w@)) ==> joins_plain_segments(w@)),
{
    match url::Url::parse(input) {
        Ok(url) => Ok(WebUrl { text: url.as_str().to_string(), url }),
        Err(e) => Err(e.to_string()),
    }
}

/// Calls `url::Url::join`, resolving `input` against `base`; the outcome is
/// named `url_join` of the base's serialization and `input`. A URL is fully
/// given by its serialization, so that is all the name needs of the base.
#[verifier::external_body]
pub(crate) fn join_url(base: &WebUrl, input: &str) -> (r: Result<WebUrl, String>)
    ensures
        url_outcome(r) == url_join(base@, input@),
{
    match base.url.join(input) {
        Ok(url) => Ok(WebUrl { text: url.as_str().to_string(), url }),
        Err(e) => Err(e.to_string()),
    }
}

/// Calls `url::Url::scheme`. The url crate writes the scheme (letters,
/// digits, '+', '-', '.') at the start of the serialization, followed by
/// ':', so the scheme is the part of the serialization before its first ':'.
#[verifier::external_body]
pub(crate) fn url_scheme(u: &WebUrl) -> (r: &str)
    ensures
        r@ == scheme_of(u@),
{
    u.url.scheme()
}

impl WebUrl {
    /// The `url` crate's value that this URL holds; its serialization is the view.
    pub closed spec fn url_value(self) -> url::Url {
        self.url
    }

    /// The serialization of this URL.
    pub fn as_str(&self) -> (r: &str)
        ensures
            r@ == self@,
    {
        self.text.as_str()
    }

    /// The `url` crate's value of this URL.
    pub fn into_url(self) -> (r: url::Url)
        ensures
            r == self.url_value(),
    {
        self.url
    }
}

} // verus!
