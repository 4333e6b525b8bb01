pub mod index;
pub mod spotify_callback;
pub mod spotify_login;
pub mod spotify_logout;

use vstd::prelude::*;

verus! {

/// Why a request could not be served.
#[derive(Clone, Copy, Debug, PartialEq, Eq, Structural)]
pub enum RouteError {
    /// The request URI does not parse.
    InvalidUri,
    /// The request URI has no query.
    MissingQuery,
    /// The query has no `code` parameter.
    MissingAuthCode,
    /// Spotify did not answer the token request with status 200.
    AuthRequestFailed,
    /// Spotify's answer to the token request is not the expected JSON.
    InvalidAuthResponse,
    /// A store could not be written.
    Storage,
}

/// Names the query component of the URI `uri` as `http::Uri` parses it:
/// `None` when `uri` does not parse, `Some(None)` when it has no query.
pub uninterp spec fn http_uri_query(uri: Seq<char>) -> Option<Option<Seq<char>>>;

#[verifier::external_type_specification]
#[verifier::external_body]
pub struct ExInvalidUri(http::uri::InvalidUri);

/// Parses `uri` with `http::Uri`'s `FromStr` and takes its query with
/// `Uri::query`. Trusted: the outcome is taken to be `http_uri_query(uri@)`;
/// nothing more is said of the URI grammar.
#[verifier::external_body]
pub(crate) fn parse_uri_query(uri: &str) -> (query: Result<Option<String>, http::uri::InvalidUri>)
    ensures
        match query {
            Ok(q) => http_uri_query(uri@) == Some(q.deep_view()),
            Err(_) => http_uri_query(uri@) is None,
        },
{
    match uri.parse::<http::Uri>() {
        Ok(parsed) => Ok(parsed.query().map(|q| q.to_string())),
        Err(e) => Err(e),
    }
}

/// The query of a request URI, or the error for a URI that does not parse.
pub fn request_query(uri: &str) -> (query: Result<Option<String>, RouteError>)
    ensures
        match http_uri_query(uri@) {
            None => query == Err::<Option<String>, RouteError>(RouteError::InvalidUri),
            Some(q) => query is Ok && query->Ok_0.deep_view() == q,
        },
{
    match parse_uri_query(uri) {
        Ok(q) => Ok(q),
        Err(_) => Err(RouteError::InvalidUri),
    }
}

/// The URI that Spotify redirects to after login, on the device at address `ip`.
pub fn get_redirect_uri(ip: &str) -> (uri: String)
    ensures
        uri@ == "http://"@ + ip@ + "/spotify/callback"@,
{
    let mut uri = String::from_str("http://");
    uri.append(ip);
    uri.append("/spotify/callback");
    uri
}

} // verus!
