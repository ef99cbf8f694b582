use vstd::prelude::*;

verus! {

/// The serialization of the URL that `url::Url::parse` makes of a text, or
/// `None` where it rejects the text.
pub uninterp spec fn parsed_url(s: Seq<char>) -> Option<Seq<char>>;

/// The serialization of the URL that `url::Url::join` makes of `input`
/// against the URL that `url::Url::parse` makes of `base`, or `None` where
/// either step fails.
pub uninterp spec fn joined_url(base: Seq<char>, input: Seq<char>) -> Option<Seq<char>>;

/// Relies on `url::Url::parse`, and on `From<Url> for String`, which hands out
/// the URL's serialization.
#[verifier::external_body]
fn parse_serialization(s: &str) -> (r: Option<String>)
    ensures
        r.deep_view() == parsed_url(s@),
{
    url::Url::parse(s).ok().map(String::from)
}

/// Relies on `url::Url::parse` for the base and `url::Url::join` for the
/// input resolved against it; the result is the joined URL's serialization.
#[verifier::external_body]
fn join_serialization(base: &str, input: &str) -> (r: Option<String>)
    ensures
        r.deep_view() == joined_url(base@, input@),
{
    url::Url::parse(base).and_then(|b| b.join(input)).ok().map(String::from)
}

/// An absolute URL that the `url` crate accepted, held as its serialization.
#[derive(Clone, Debug, PartialEq, Eq)]
pub struct WebUrl {
    text: String,
}

impl View for WebUrl {
    type V = Seq<char>;

    closed spec fn view(&self) -> Seq<char> {
        self.text@
    }
}

impl WebUrl {
    /// Parses `s` as a URL; `None` where the `url` crate rejects it.
    pub fn parse(s: &str) -> (r: Option<WebUrl>)
        ensures
            r is Some <==> parsed_url(s@) is Some,
            r matches Some(u) ==> Some(u@) == parsed_url(s@),
    {
        match parse_serialization(s) {
            Some(text) => Some(WebUrl { text }),
            None => None,
        }
    }

    /// The URL's serialization.
    pub fn as_str(&self) -> (r: &str)
        ensures
            r@ == self@,
    {
        self.text.as_str()
    }

    /// Resolves `input` against this URL.
    pub fn join(&self, input: &str) -> (r: Option<WebUrl>)
        ensures
            r is Some <==> joined_url(self@, input@) is Some,
            r matches Some(u) ==> Some(u@) == joined_url(self@, input@),
    {
        match join_serialization(self.text.as_str(), input) {
            Some(text) => Some(WebUrl { text }),
            None => None,
        }
    }

    /// A copy of this URL.
    pub fn duplicate(&self) -> (r: WebUrl)
        ensures
            r@ == self@,
    {
        WebUrl { text: self.text.clone() }
    }
}

} // verus!
