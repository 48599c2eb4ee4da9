//! URLs that requests carry: callback URLs parsed by the `url` crate, and
//! the HTTP request URIs that `hyper` accepts.
use vstd::prelude::*;

verus! {

#[verifier::external_type_specification]
#[verifier::external_body]
pub struct ExUrlParseError(url::ParseError);

/// The serialization of the URL that `url::Url::parse` makes of `input`, or
/// `None` where it refuses the input.
pub uninterp spec fn url_parse_result(input: Seq<char>) -> Option<Seq<char>>;

/// `url::Url::parse`, handing back the parsed URL's serialization
/// (`String::from(url)`, which is `url.as_str()`). It succeeds exactly where
/// `url_parse_result` is `Some`; which `ParseError` comes on a refusal is not
/// stated.
#[verifier::external_body]
fn url_parse_serialization(input: &str) -> (r: Result<String, url::ParseError>)
    ensures
        r is Ok <==> url_parse_result(input@) is Some,
        r matches Ok(text) ==> text@ == url_parse_result(input@).unwrap(),
{
    url::Url::parse(input).map(String::from)
}

/// An absolute URL as the `url` crate parsed it; it holds the parsed URL's
/// serialization.
pub struct Url {
    serialization: String,
}

impl View for Url {
    type V = Seq<char>;

    closed spec fn view(&self) -> Seq<char> {
        self.serialization@
    }
}

impl Url {
    /// Parses an absolute URL with `url::Url::parse`.
    pub fn parse(input: &str) -> (r: Result<Url, url::ParseError>)
        ensures
            r is Ok <==> url_parse_result(input@) is Some,
            r matches Ok(url) ==> url@ == url_parse_result(input@).unwrap(),
    {
        match url_parse_serialization(input) {
            Ok(serialization) => Ok(Url { serialization }),
            Err(e) => Err(e),
        }
    }

    /// The serialization of the URL.
    pub fn as_str(&self) -> (s: &str)
        ensures
            s@ == self@,
    {
        self.serialization.as_str()
    }
}

/// Whether `hyper` accepts `text` as a request URI.
pub uninterp spec fn uri_accepts(text: Seq<char>) -> bool;

/// `text.parse::<hyper::Uri>()`, telling only whether it succeeded.
#[verifier::external_body]
pub(crate) fn uri_parses(text: &str) -> (ok: bool)
    ensures
        ok == uri_accepts(text@),
{
    text.parse::<hyper::Uri>().is_ok()
}

} // verus!
