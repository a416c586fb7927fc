use vstd::prelude::*;
use vstd::string::*;

use crate::text::join;
use crate::yahoo_error::{YahooError, YahooErrorView};

verus! {

/// The components of a URI, each as text.
#[derive(Debug)]
pub(crate) struct UriParts {
    /// The scheme, without the colon.
    pub scheme: Option<String>,
    /// Host and port, with the user's name in front where there is one.
    pub authority: Option<String>,
    /// The path; `/` where the URI names a host and no path.
    pub path: String,
    /// What follows the question mark, where there is one.
    pub query: Option<String>,
}

/// [`UriParts`] as specifications see them.
pub struct UriPartsView {
    pub scheme: Option<Seq<char>>,
    pub authority: Option<Seq<char>>,
    pub path: Seq<char>,
    pub query: Option<Seq<char>>,
}

impl View for UriParts {
    type V = UriPartsView;

    closed spec fn view(&self) -> UriPartsView {
        UriPartsView {
            scheme: self.scheme.deep_view(),
            authority: self.authority.deep_view(),
            path: self.path@,
            query: self.query.deep_view(),
        }
    }
}

/// What the `http` crate makes of `text` when it reads it as a URI: the
/// components, or its reason for refusing the text.
pub uninterp spec fn uri_read(text: Seq<char>) -> Result<UriPartsView, Seq<char>>;

/// What the `http` crate's URI builder makes of the three parts: the text of the
/// URI, or its reason for refusing them.
pub uninterp spec fn uri_built(
    scheme: Option<Seq<char>>,
    authority: Option<Seq<char>>,
    path_and_query: Seq<char>,
) -> Result<Seq<char>, Seq<char>>;

/// What a `Result` of texts holds, seen as sequences of characters.
pub(crate) open spec fn text_result(outcome: Result<String, String>) -> Result<Seq<char>, Seq<char>> {
    match outcome {
        Ok(text) => Ok(text@),
        Err(why) => Err(why@),
    }
}

/// What a `Result` of URI components holds, seen as sequences of characters.
pub(crate) open spec fn parts_result(outcome: Result<UriParts, String>) -> Result<
    UriPartsView,
    Seq<char>,
> {
    match outcome {
        Ok(parts) => Ok(parts@),
        Err(why) => Err(why@),
    }
}

/// Reads `text` as a URI with `http::Uri::try_from` and hands out what the
/// accessors `scheme_str`, `authority`, `path` and `query` of the URI return,
/// or the message of the crate's error. Nothing is claimed of the outcome but
/// that it is the same for the same text.
#[verifier::external_body]
pub(crate) fn read_uri(text: &str) -> (outcome: Result<UriParts, String>)
    ensures
        parts_result(outcome) == uri_read(text@),
{
    match http::Uri::try_from(text) {
        Err(why) => Err(why.to_string()),
        Ok(uri) => Ok(
            UriParts {
                scheme: uri.scheme_str().map(str::to_owned),
                authority: uri.authority().map(|authority| authority.as_str().to_owned()),
                path: uri.path().to_owned(),
                query: uri.query().map(str::to_owned),
            },
        ),
    }
}

/// Hands the three parts to `http::uri::Builder` (`scheme`, `authority`,
/// `path_and_query`, then `build`) and returns the URI as `Display` writes it,
/// or the message of the crate's error. Nothing is claimed of the outcome but
/// that it is the same for the same parts.
#[verifier::external_body]
fn build_uri(scheme: &Option<String>, authority: &Option<String>, path_and_query: &str) -> (outcome:
    Result<String, String>)
    ensures
        text_result(outcome) == uri_built(
            scheme.deep_view(),
            authority.deep_view(),
            path_and_query@,
        ),
{
    let mut builder = http::Uri::builder();
    if let Some(scheme) = scheme {
        builder = builder.scheme(scheme.as_str());
    }
    if let Some(authority) = authority {
        builder = builder.authority(authority.as_str());
    }
    match builder.path_and_query(path_and_query).build() {
        Ok(uri) => Ok(uri.to_string()),
        Err(why) => Err(why.to_string()),
    }
}

/// The query that asks for the same as `query` and carries the crumb as its
/// last parameter.
pub open spec fn query_with_crumb(query: Option<Seq<char>>, crumb: Seq<char>) -> Seq<char> {
    match query {
        Some(old) => if old.len() > 0 {
            old + "&"@ + "crumb="@ + crumb
        } else {
            "crumb="@ + crumb
        },
        None => "crumb="@ + crumb,
    }
}

/// Path and query of a URI whose query has been given the crumb.
pub open spec fn path_with_crumb(path: Seq<char>, query: Option<Seq<char>>, crumb: Seq<char>) -> Seq<
    char,
> {
    path + "?"@ + query_with_crumb(query, crumb)
}

/// The query with the crumb ends with the parameter `crumb=<crumb>`, and
/// what the query held before stands unchanged in front of it.
pub proof fn lemma_crumb_comes_last(query: Option<Seq<char>>, crumb: Seq<char>)
    ensures
        ({
            let extended = query_with_crumb(query, crumb);
            let parameter = "crumb="@ + crumb;
            &&& extended.len() >= parameter.len()
            &&& extended.skip(extended.len() - parameter.len()) == parameter
            &&& query is Some && query->0.len() > 0 ==> extended == query->0 + "&"@ + parameter
            &&& query is Some && query->0.len() > 0 ==> extended.take(query->0.len() as int)
                == query->0
            &&& !(query is Some && query->0.len() > 0) ==> extended == parameter
        }),
{
}

/// Adds the parameter `crumb=<crumb>` to `query`: after an `&` where the query
/// holds something, as the whole query where it is empty or missing.
pub fn append_crumb_to_query(query: &Option<String>, crumb: &str) -> (extended: String)
    ensures
        extended@ == query_with_crumb(query.deep_view(), crumb@),
{
    let parameter = join("crumb=", crumb);
    match query {
        Some(old) => {
            if old.as_str().unicode_len() > 0 {
                let mut extended = old.clone();
                extended.append("&");
                extended.append(parameter.as_str());
                extended
            } else {
                parameter
            }
        },
        None => parameter,
    }
}

/// What becomes of the URL `url` when the crumb is added to its query.
///
/// A text that is no URI, and parts that the builder does not take back,
/// both give a build failure.
pub open spec fn crumb_appended(url: Seq<char>, crumb: Seq<char>) -> Result<
    Seq<char>,
    YahooErrorView,
> {
    match uri_read(url) {
        Err(why) => Err(YahooErrorView::BuildFailed("failed to parse the URL: "@ + why)),
        Ok(parts) => match uri_built(
            parts.scheme,
            parts.authority,
            path_with_crumb(parts.path, parts.query, crumb),
        ) {
            Ok(text) => Ok(text),
            Err(why) => Err(YahooErrorView::BuildFailed(why)),
        },
    }
}

/// What a `Result` of a text or an error holds, as specifications see it.
pub open spec fn outcome_view(outcome: Result<String, YahooError>) -> Result<
    Seq<char>,
    YahooErrorView,
> {
    match outcome {
        Ok(text) => Ok(text@),
        Err(error) => Err(error@),
    }
}

/// The URL `url` with the parameter `crumb=<crumb>` added to its query: `url`
/// is read as a URI and built again from its scheme, its authority, and its
/// path with the extended query.
pub fn append_crumb(url: &str, crumb: &str) -> (outcome: Result<String, YahooError>)
    ensures
        outcome_view(outcome) == crumb_appended(url@, crumb@),
{
    match read_uri(url) {
        Err(why) => Err(YahooError::BuildFailed(join("failed to parse the URL: ", why.as_str()))),
        Ok(parts) => {
            let query = append_crumb_to_query(&parts.query, crumb);
            let mut path_and_query = parts.path.clone();
            path_and_query.append("?");
            path_and_query.append(query.as_str());
            match build_uri(&parts.scheme, &parts.authority, path_and_query.as_str()) {
                Ok(text) => Ok(text),
                Err(why) => Err(YahooError::BuildFailed(why)),
            }
        },
    }
}

} // verus!
