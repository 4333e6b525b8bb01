use esp32_lighting::dao::spotify_key::{SpotifyKeyDao, SpotifyKeyDaoImpl};
use esp32_lighting::routes::index::{index_light, light_value};
use esp32_lighting::routes::spotify_callback::{
    basic_authorization, callback_auth_code, check_token_status, construct_spotify_auth_form_data,
    spotify_token_request, store_spotify_auth, SpotifyAuthResponse, SPOTIFY_TOKEN_URL,
};
use esp32_lighting::routes::spotify_login::{
    login_redirect_url, spotify_login_params, spotify_login_url,
};
use esp32_lighting::routes::spotify_logout::spotify_logout;
use esp32_lighting::routes::{get_redirect_uri, request_query, RouteError};
use esp32_lighting::spotify::SpotifyKey;
use esp32_lighting::utils::url_encode_params;

#[test]
fn index_light_follows_query() {
    assert_eq!(index_light("/?light=on"), Ok(true));
    assert_eq!(index_light("/?light=off"), Ok(false));
    assert_eq!(index_light("/?light=ON"), Ok(false));
    assert_eq!(index_light("/?other=on"), Ok(false));
    assert_eq!(index_light("/"), Ok(false));
    assert_eq!(index_light("/?x=1&light=on"), Ok(true));
}

#[test]
fn index_light_rejects_bad_uri() {
    assert_eq!(index_light(""), Err(RouteError::InvalidUri));
    assert_eq!(index_light("/a b"), Err(RouteError::InvalidUri));
}

#[test]
fn light_value_only_on() {
    assert!(light_value(&Some("on".to_string())));
    assert!(!light_value(&Some("off".to_string())));
    assert!(!light_value(&Some("yes".to_string())));
    assert!(!light_value(&None));
}

#[test]
fn request_query_parts() {
    assert_eq!(request_query("/path?a=1"), Ok(Some("a=1".to_string())));
    assert_eq!(request_query("/path"), Ok(None));
    assert_eq!(request_query(""), Err(RouteError::InvalidUri));
}

#[test]
fn redirect_uri_for_address() {
    assert_eq!(get_redirect_uri("192.168.1.5"), "http://192.168.1.5/spotify/callback");
}

#[test]
fn callback_code_extraction() {
    assert_eq!(callback_auth_code("/spotify/callback?code=xyz&state=1"), Ok("xyz".to_string()));
    assert_eq!(callback_auth_code("/spotify/callback"), Err(RouteError::MissingQuery));
    assert_eq!(callback_auth_code("/spotify/callback?state=1"), Err(RouteError::MissingAuthCode));
    assert_eq!(callback_auth_code(""), Err(RouteError::InvalidUri));
}

#[test]
fn auth_form_fields() {
    let params = construct_spotify_auth_form_data("abc", "http://1.2.3.4/spotify/callback");
    assert_eq!(
        url_encode_params(&params),
        "code=abc&redirect_uri=http://1.2.3.4/spotify/callback&grant_type=authorization_code"
    );
}

#[test]
fn token_request_contents() {
    let request = spotify_token_request("abc", "http://1.2.3.4/spotify/callback", "id", "secret");
    assert_eq!(request.url, SPOTIFY_TOKEN_URL);
    assert_eq!(request.url, "https://accounts.spotify.com/api/token");
    assert_eq!(request.authorization, "Basic aWQ6c2VjcmV0");
    assert_eq!(
        request.body,
        "code=abc&redirect_uri=http://1.2.3.4/spotify/callback&grant_type=authorization_code"
    );
    // the credentials are encoded as UTF-8 bytes, with padding
    let request = spotify_token_request("c", "r", "é", "");
    assert_eq!(request.authorization, "Basic w6k6");
}

#[test]
fn basic_authorization_prefix() {
    assert_eq!(basic_authorization("abc="), "Basic abc=");
}

#[test]
fn token_status() {
    assert_eq!(check_token_status(200), Ok(()));
    assert_eq!(check_token_status(400), Err(RouteError::AuthRequestFailed));
    assert_eq!(check_token_status(204), Err(RouteError::AuthRequestFailed));
}

#[test]
fn store_auth_then_logout() {
    let mut dao = SpotifyKeyDaoImpl::new();
    let response = SpotifyAuthResponse {
        access_token: "access".to_string(),
        token_type: "Bearer".to_string(),
        scope: "user-read-currently-playing".to_string(),
        expires_in: 3600,
        refresh_token: "refresh".to_string(),
    };
    assert_eq!(store_spotify_auth(&mut dao, response), Ok(()));
    let key: &SpotifyKey = dao.get_spotify_key().unwrap();
    assert_eq!(key.access_token, "access");
    assert_eq!(key.refresh_token, "refresh");
    assert_eq!(key.expires_at, 3600);
    assert_eq!(spotify_logout(&mut dao), Ok(()));
    assert!(dao.get_spotify_key().is_none());
}

#[test]
fn login_url_is_encoded() {
    assert_eq!(
        spotify_login_url("cid", "http://1.2.3.4/spotify/callback"),
        "https://accounts.spotify.com/authorize?response_type=code&client_id=cid&redirect_uri=http%3A%2F%2F1.2.3.4%2Fspotify%2Fcallback&scope=user-read-currently-playing"
    );
    assert_eq!(
        spotify_login_url("a b", "x"),
        "https://accounts.spotify.com/authorize?response_type=code&client_id=a+b&redirect_uri=x&scope=user-read-currently-playing"
    );
}

#[test]
fn login_params_order() {
    let params = spotify_login_params("cid", "uri");
    assert_eq!(
        url_encode_params(&params),
        "response_type=code&client_id=cid&redirect_uri=uri&scope=user-read-currently-playing"
    );
    assert_eq!(login_redirect_url("a=1"), "https://accounts.spotify.com/authorize?a=1");
}
