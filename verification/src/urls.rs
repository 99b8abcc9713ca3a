//! What the library reads of a URL, as `url::Url` parses it.
use vstd::prelude::*;

verus! {

/// The parts of a parsed URL that the library's checks look at.
#[derive(Clone, Debug, PartialEq, Eq)]
pub struct UrlFacts {
    pub scheme: String,
    pub cannot_be_a_base: bool,
    pub has_host: bool,
    pub username: String,
    pub has_password: bool,
    pub has_query: bool,
    pub has_fragment: bool,
    pub path: String,
}

pub struct UrlFactsView {
    pub scheme: Seq<char>,
    pub cannot_be_a_base: bool,
    pub has_host: bool,
    pub username: Seq<char>,
    pub has_password: bool,
    pub has_query: bool,
    pub has_fragment: bool,
    pub path: Seq<char>,
}

impl View for UrlFacts {
    type V = UrlFactsView;

    open spec fn view(&self) -> UrlFactsView {
        UrlFactsView {
            scheme: self.scheme@,
            cannot_be_a_base: self.cannot_be_a_base,
            has_host: self.has_host,
            username: self.username@,
            has_password: self.has_password,
            has_query: self.has_query,
            has_fragment: self.has_fragment,
            path: self.path@,
        }
    }
}

/// What `url::Url::parse` reads from a text: `None` when it reads no
/// absolute URL, otherwise the parts the library looks at.
pub uninterp spec fn url_facts(text: Seq<char>) -> Option<UrlFactsView>;

/// Calls `url::Url::parse` and, for a URL it reads, `scheme`,
/// `cannot_be_a_base`, `host`, `username`, `password`, `query`, `fragment`
/// and `path`, handing back their texts or whether each is present. Which
/// texts it reads, and what it reads from them, is named by `url_facts`;
/// nothing more is claimed.
#[verifier::external_body]
pub(crate) fn read_url(text: &str) -> (r: Option<UrlFacts>)
    ensures
        match r {
            Some(f) => url_facts(text@) == Some(f@),
            None => url_facts(text@) is None,
        },
{
    match url::Url::parse(text) {
        Ok(u) => Some(
            UrlFacts {
                scheme: u.scheme().to_owned(),
                cannot_be_a_base: u.cannot_be_a_base(),
                has_host: u.host().is_some(),
                username: u.username().to_owned(),
                has_password: u.password().is_some(),
                has_query: u.query().is_some(),
                has_fragment: u.fragment().is_some(),
                path: u.path().to_owned(),
            },
        ),
        Err(_) => None,
    }
}

} // verus!
