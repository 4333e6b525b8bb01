use vstd::prelude::*;

use crate::utils::{form_urlencoded_serialization, serialize_form_pairs, FormParams, PairView};

verus! {

/// Where Spotify's login page lives.
pub const SPOTIFY_AUTH_URL: &'static str = "https://accounts.spotify.com/authorize";

/// The permissions the device asks for.
pub const SPOTIFY_SCOPES: &'static str = "user-read-currently-playing";

/// The query parameters of the login redirect, in the order they are sent.
pub open spec fn login_params(client_id: Seq<char>, redirect_uri: Seq<char>) -> Seq<PairView> {
    seq![
        ("response_type"@, "code"@),
        ("client_id"@, client_id),
        ("redirect_uri"@, redirect_uri),
        ("scope"@, SPOTIFY_SCOPES@),
    ]
}

/// The parameters of Spotify's authorization-code login for this device.
pub fn spotify_login_params(client_id: &str, redirect_uri: &str) -> (params: FormParams)
    ensures
        params@ == login_params(client_id@, redirect_uri@),
{
    proof {
        reveal_strlit("response_type");
        reveal_strlit("client_id");
        reveal_strlit("redirect_uri");
        reveal_strlit("scope");
    }
    let ghost want = login_params(client_id@, redirect_uri@);
    assert(want[0].0.len() == 13 && want[1].0.len() == 9 && want[2].0.len() == 12 && want[3].0.len() == 5);
    let mut params = FormParams::new();
    params.insert("response_type", "code");
    assert(params@ =~= want.take(1));
    params.insert("client_id", client_id);
    assert(params@ =~= want.take(2));
    params.insert("redirect_uri", redirect_uri);
    assert(params@ =~= want.take(3));
    params.insert("scope", SPOTIFY_SCOPES);
    assert(params@ =~= want);
    params
}

/// Spotify's login page with the query string `query` appended.
pub fn login_redirect_url(query: &str) -> (url: String)
    ensures
        url@ == SPOTIFY_AUTH_URL@ + "?"@ + query@,
{
    let mut url = String::from_str(SPOTIFY_AUTH_URL);
    url.append("?");
    url.append(query);
    url
}

/// The URL the login route redirects the browser to: Spotify's login page
/// with the login parameters form-urlencoded as its query.
pub fn spotify_login_url(client_id: &str, redirect_uri: &str) -> (url: String)
    ensures
        url@ == SPOTIFY_AUTH_URL@ + "?"@ + form_urlencoded_serialization(
            login_params(client_id@, redirect_uri@),
        ),
{
    let params = spotify_login_params(client_id, redirect_uri);
    let query = serialize_form_pairs(params.pairs());
    login_redirect_url(query.as_str())
}

} // verus!
