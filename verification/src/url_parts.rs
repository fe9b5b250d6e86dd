//! The parts of a URL that the locator grammar reads.

use vstd::prelude::*;
use crate::text::same_text;

verus! {

/// A URL taken apart.
pub struct UrlParts {
    /// The scheme, in lower case and without its colon.
    pub scheme: String,
    /// The user name; empty where the URL has none.
    pub username: String,
    /// The host, where the URL has one.
    pub host: Option<String>,
    /// The port, where the URL has one.
    pub port: Option<u16>,
    /// The path; empty where the URL has none.
    pub path: String,
    /// The keys and values of the query, in their order.
    pub query: Vec<(String, String)>,
}

/// [`UrlParts`] with each text as its characters.
pub struct UrlPartsView {
    pub scheme: Seq<char>,
    pub username: Seq<char>,
    pub host: Option<Seq<char>>,
    pub port: Option<u16>,
    pub path: Seq<char>,
    pub query: Seq<(Seq<char>, Seq<char>)>,
}

/// The pairs of a query with each text as its characters.
pub open spec fn query_view(query: Seq<(String, String)>) -> Seq<(Seq<char>, Seq<char>)> {
    Seq::new(query.len(), |i: int| (query[i].0@, query[i].1@))
}

impl View for UrlParts {
    type V = UrlPartsView;

    open spec fn view(&self) -> UrlPartsView {
        UrlPartsView {
            scheme: self.scheme@,
            username: self.username@,
            host: match self.host {
                Some(host) => Some(host@),
                None => None,
            },
            port: self.port,
            path: self.path@,
            query: query_view(self.query@),
        }
    }
}

/// The parts that `url` finds in a text, if the text is a URL.
pub uninterp spec fn url_split(text: Seq<char>) -> Option<UrlPartsView>;

/// Parses a text with `url::Url::parse` and copies out the URL's scheme,
/// user name, host, port and path and the pairs of its query, each as the
/// crate's accessor of that name returns it.
#[verifier::external_body]
pub(crate) fn split_url(text: &str) -> (r: Option<UrlParts>)
    ensures
        match r {
            Some(parts) => url_split(text@) == Some(parts@),
            None => url_split(text@) is None,
        },
{
    match url::Url::parse(text) {
        Ok(url) => Some(UrlParts {
            scheme: url.scheme().to_string(),
            username: url.username().to_string(),
            host: url.host_str().map(str::to_string),
            port: url.port(),
            path: url.path().to_string(),
            query: url.query_pairs().into_owned().collect(),
        }),
        Err(_) => None,
    }
}

/// The value of the first pair of a query that has the given key.
pub open spec fn first_value(query: Seq<(Seq<char>, Seq<char>)>, key: Seq<char>) -> Option<
    Seq<char>,
>
    decreases query.len(),
{
    if query.len() == 0 {
        None
    } else if query[0].0 == key {
        Some(query[0].1)
    } else {
        first_value(query.drop_first(), key)
    }
}

impl UrlParts {
    /// The value of the first pair of the query whose key is the given one.
    pub fn query_value(&self, key: &str) -> (r: Option<&String>)
        ensures
            match r {
                Some(value) => first_value(self@.query, key@) == Some(value@),
                None => first_value(self@.query, key@) is None,
            },
    {
        let mut i: usize = 0;
        assert(self@.query.skip(0) =~= self@.query);
        while i < self.query.len()
            invariant
                i <= self.query.len(),
                first_value(self@.query, key@) == first_value(self@.query.skip(i as int), key@),
            decreases self.query.len() - i,
        {
            let ghost rest = self@.query.skip(i as int);
            assert(rest.drop_first() =~= self@.query.skip(i + 1));
            if same_text(self.query[i].0.as_str(), key) {
                return Some(&self.query[i].1);
            }
            i = i + 1;
        }
        None
    }
}

} // verus!
