use vstd::prelude::*;

use super::{http_uri_query, request_query, RouteError};
use crate::dao::spotify_key::SpotifyKeyDao;
use crate::spotify::SpotifyKey;
use crate::utils::{
    law_first_value_at,
    law_first_value_none,
    first_value,
    form_urlencoded_pairs,
    get_query_value,
    join_params,
    url_encode_params,
    FormParams,
    PairView,
};
use base64::Engine;

verus! {

/// Spotify's token endpoint.
pub const SPOTIFY_TOKEN_URL: &'static str = "https://accounts.spotify.com/api/token";

/// The body of Spotify's answer to a token request.
pub struct SpotifyAuthResponse {
    pub access_token: String,
    pub token_type: String,
    pub scope: String,
    pub expires_in: u32,
    pub refresh_token: String,
}

/// The form fields of the token request, in the order they are sent.
pub open spec fn auth_form_params(auth_code: Seq<char>, redirect_uri: Seq<char>) -> Seq<PairView> {
    seq![
        ("code"@, auth_code),
        ("redirect_uri"@, redirect_uri),
        ("grant_type"@, "authorization_code"@),
    ]
}

/// The form that trades the authorization code for a token.
pub fn construct_spotify_auth_form_data(auth_code: &str, redirect_uri: &str) -> (params:
    FormParams)
    ensures
        params@ == auth_form_params(auth_code@, redirect_uri@),
{
    proof {
        reveal_strlit("code");
        reveal_strlit("redirect_uri");
        reveal_strlit("grant_type");
    }
    let ghost want = auth_form_params(auth_code@, redirect_uri@);
    assert(want[0].0.len() == 4 && want[1].0.len() == 12 && want[2].0.len() == 10);
    let mut params = FormParams::new();
    params.insert("code", auth_code);
    assert(params@ =~= want.take(1));
    params.insert("redirect_uri", redirect_uri);
    assert(params@ =~= want.take(2));
    params.insert("grant_type", "authorization_code");
    assert(params@ =~= want);
    params
}

/// The authorization code that the callback URI `uri` carries in its `code`
/// query parameter, or why there is none.
pub open spec fn auth_code_of(uri: Seq<char>) -> Result<Seq<char>, RouteError> {
    match http_uri_query(uri) {
        None => Err(RouteError::InvalidUri),
        Some(None) => Err(RouteError::MissingQuery),
        Some(Some(q)) => match first_value(form_urlencoded_pairs(q), "code"@) {
            None => Err(RouteError::MissingAuthCode),
            Some(c) => Ok(c),
        },
    }
}

/// The code of a callback URI is the whole value of the first `code`
/// parameter of its query, unchanged, whatever its length; a URI that does
/// not parse, has no query, or has no `code` parameter gives the matching error.
pub proof fn law_auth_code_is_first_code_value(uri: Seq<char>)
    ensures
        http_uri_query(uri) is None ==> auth_code_of(uri) == Err::<Seq<char>, RouteError>(
            RouteError::InvalidUri,
        ),
        http_uri_query(uri) == Some(None::<Seq<char>>) ==> auth_code_of(uri) == Err::<
            Seq<char>,
            RouteError,
        >(RouteError::MissingQuery),
        forall|q: Seq<char>|
            http_uri_query(uri) == Some(Some(q)) ==> {
                let pairs = form_urlencoded_pairs(q);
                &&& (forall|j: int| 0 <= j < pairs.len() ==> #[trigger] pairs[j].0 != "code"@)
                    ==> auth_code_of(uri) == Err::<Seq<char>, RouteError>(
                    RouteError::MissingAuthCode,
                )
                &&& forall|i: int|
                    0 <= i < pairs.len() && #[trigger] pairs[i].0 == "code"@ && (forall|j: int|
                        0 <= j < i ==> #[trigger] pairs[j].0 != "code"@) ==> auth_code_of(uri)
                        == Ok::<Seq<char>, RouteError>(pairs[i].1)
            },
{
    assert forall|q: Seq<char>| http_uri_query(uri) == Some(Some(q)) implies {
        let pairs = form_urlencoded_pairs(q);
        &&& (forall|j: int| 0 <= j < pairs.len() ==> #[trigger] pairs[j].0 != "code"@)
            ==> auth_code_of(uri) == Err::<Seq<char>, RouteError>(RouteError::MissingAuthCode)
        &&& forall|i: int|
            0 <= i < pairs.len() && #[trigger] pairs[i].0 == "code"@ && (forall|j: int|
                0 <= j < i ==> #[trigger] pairs[j].0 != "code"@) ==> auth_code_of(uri)
                == Ok::<Seq<char>, RouteError>(pairs[i].1)
    } by {
        let pairs = form_urlencoded_pairs(q);
        law_first_value_none(pairs, "code"@);
        assert forall|i: int|
            0 <= i < pairs.len() && #[trigger] pairs[i].0 == "code"@ && (forall|j: int|
                0 <= j < i ==> #[trigger] pairs[j].0 != "code"@) implies auth_code_of(uri)
            == Ok::<Seq<char>, RouteError>(pairs[i].1) by {
            law_first_value_at(pairs, "code"@, i);
        }
    }
}

/// The authorization code of the callback URI `uri`: the value of its `code`
/// query parameter.
pub fn callback_auth_code(uri: &str) -> (code: Result<String, RouteError>)
    ensures
        match auth_code_of(uri@) {
            Err(e) => code == Err::<String, RouteError>(e),
            Ok(c) => code is Ok && code->Ok_0@ == c,
        },
        forall|q: Seq<char>, i: int|
            http_uri_query(uri@) == Some(Some(q)) && 0 <= i < form_urlencoded_pairs(q).len()
                && #[trigger] form_urlencoded_pairs(q)[i].0 == "code"@ && (forall|j: int|
                0 <= j < i ==> #[trigger] form_urlencoded_pairs(q)[j].0 != "code"@) ==> code is Ok
                && code->Ok_0@ == form_urlencoded_pairs(q)[i].1,
{
    proof {
        law_auth_code_is_first_code_value(uri@);
    }
    let query = match request_query(uri) {
        Err(e) => return Err(e),
        Ok(None) => return Err(RouteError::MissingQuery),
        Ok(Some(query)) => query,
    };
    match get_query_value(query.as_str(), "code") {
        Some(code) => Ok(code),
        None => Err(RouteError::MissingAuthCode),
    }
}

/// The character of the standard base64 alphabet (RFC 4648) for `0 <= n < 64`.
pub open spec fn base64_char(n: int) -> char {
    if n < 26 {
        (65 + n) as char
    } else if n < 52 {
        (97 + n - 26) as char
    } else if n < 62 {
        (48 + n - 52) as char
    } else if n == 62 {
        '+'
    } else {
        '/'
    }
}

/// The standard base64 encoding of `data` with `=` padding (RFC 4648): each
/// group of three bytes becomes four characters of six bits each; a final
/// group of one or two bytes is padded with `=` to four characters.
pub open spec fn base64_standard(data: Seq<u8>) -> Seq<char>
    decreases data.len(),
{
    if data.len() == 0 {
        Seq::empty()
    } else if data.len() == 1 {
        seq![base64_char(data[0] as int / 4), base64_char((data[0] as int % 4) * 16), '=', '=']
    } else if data.len() == 2 {
        seq![
            base64_char(data[0] as int / 4),
            base64_char((data[0] as int % 4) * 16 + data[1] as int / 16),
            base64_char((data[1] as int % 16) * 4),
            '=',
        ]
    } else {
        seq![
            base64_char(data[0] as int / 4),
            base64_char((data[0] as int % 4) * 16 + data[1] as int / 16),
            base64_char((data[1] as int % 16) * 4 + data[2] as int / 64),
            base64_char(data[2] as int % 64),
        ] + base64_standard(data.skip(3))
    }
}

/// The six-bit value of a character of the standard base64 alphabet.
pub open spec fn base64_value(c: char) -> int {
    if 'A' <= c && c <= 'Z' {
        c as int - 65
    } else if 'a' <= c && c <= 'z' {
        c as int - 71
    } else if '0' <= c && c <= '9' {
        c as int + 4
    } else if c == '+' {
        62
    } else {
        63
    }
}

/// Reads standard base64 text back into bytes: each group of four characters
/// gives three bytes, or fewer when the group ends with `=` padding.
pub open spec fn base64_decode(text: Seq<char>) -> Seq<u8>
    decreases text.len(),
{
    if text.len() < 4 {
        Seq::empty()
    } else {
        let a = base64_value(text[0]);
        let b = base64_value(text[1]);
        let c = base64_value(text[2]);
        let d = base64_value(text[3]);
        let b0 = (a * 4 + b / 16) as u8;
        let b1 = ((b % 16) * 16 + c / 4) as u8;
        let b2 = ((c % 4) * 64 + d) as u8;
        if text[2] == '=' {
            seq![b0]
        } else if text[3] == '=' {
            seq![b0, b1]
        } else {
            seq![b0, b1, b2] + base64_decode(text.skip(4))
        }
    }
}

proof fn lemma_base64_char_value(n: int)
    requires
        0 <= n < 64,
    ensures
        base64_value(base64_char(n)) == n,
        base64_char(n) != '=',
{
}

/// Base64 loses nothing: decoding the encoding of any bytes gives the same
/// bytes back, and the encoding of `n` bytes is `4 * ceil(n / 3)` characters.
pub proof fn law_base64_round_trip(data: Seq<u8>)
    ensures
        base64_decode(base64_standard(data)) == data,
        base64_standard(data).len() == 4 * ((data.len() + 2) / 3),
    decreases data.len(),
{
    if data.len() == 0 {
    } else {
        let x0 = data[0] as int;
        lemma_base64_char_value(x0 / 4);
        if data.len() == 1 {
            lemma_base64_char_value((x0 % 4) * 16);
            let text = base64_standard(data);
            assert(text.len() == 4);
            assert((x0 / 4) * 4 + ((x0 % 4) * 16) / 16 == x0);
            assert(base64_decode(text) =~= data);
        } else {
            let x1 = data[1] as int;
            lemma_base64_char_value((x0 % 4) * 16 + x1 / 16);
            assert(((x0 % 4) * 16 + x1 / 16) / 16 == x0 % 4);
            assert(((x0 % 4) * 16 + x1 / 16) % 16 == x1 / 16);
            if data.len() == 2 {
                lemma_base64_char_value((x1 % 16) * 4);
                let text = base64_standard(data);
                assert(text.len() == 4);
                assert(base64_decode(text) =~= data);
            } else {
                let x2 = data[2] as int;
                lemma_base64_char_value((x1 % 16) * 4 + x2 / 64);
                lemma_base64_char_value(x2 % 64);
                assert(((x1 % 16) * 4 + x2 / 64) / 4 == x1 % 16);
                assert(((x1 % 16) * 4 + x2 / 64) % 4 == x2 / 64);
                let rest = data.skip(3);
                law_base64_round_trip(rest);
                let text = base64_standard(data);
                let head = seq![
                    base64_char(x0 / 4),
                    base64_char((x0 % 4) * 16 + x1 / 16),
                    base64_char((x1 % 16) * 4 + x2 / 64),
                    base64_char(x2 % 64),
                ];
                assert(text == head + base64_standard(rest));
                assert(text.skip(4) =~= base64_standard(rest));
                assert(base64_decode(text) =~= seq![data[0], data[1], data[2]] + rest);
                assert(seq![data[0], data[1], data[2]] + rest =~= data);
            }
        }
    }
}

/// The authorization of a token request is `Basic ` followed by base64 text
/// that decodes to exactly the UTF-8 bytes of `client_id:client_secret`, and
/// is `4 * ceil(n / 3)` characters long for `n` such bytes.
pub proof fn law_token_authorization_decodes(
    request: TokenRequest,
    auth_code: Seq<char>,
    redirect_uri: Seq<char>,
    client_id: Seq<char>,
    client_secret: Seq<char>,
)
    requires
        is_token_request(request, auth_code, redirect_uri, client_id, client_secret),
    ensures
        ({
            let bytes = vstd::utf8::encode_utf8(client_credentials(client_id, client_secret));
            let header = request.authorization@;
            &&& header.take(6) == "Basic "@
            &&& base64_decode(header.skip(6)) == bytes
            &&& header.len() == 6 + 4 * ((bytes.len() + 2) / 3)
        }),
{
    reveal_strlit("Basic ");
    let bytes = vstd::utf8::encode_utf8(client_credentials(client_id, client_secret));
    law_base64_round_trip(bytes);
    let header = request.authorization@;
    assert(header.take(6) =~= "Basic "@);
    assert(header.skip(6) =~= base64_standard(bytes));
}

/// Encodes `data` with `base64::engine::general_purpose::STANDARD` (standard
/// alphabet, padding on). Trusted: the result is taken to be
/// `base64_standard(data@)`, the RFC 4648 encoding that engine implements.
#[verifier::external_body]
fn base64_encode(data: &[u8]) -> (encoded: String)
    ensures
        encoded@ == base64_standard(data@),
{
    base64::engine::general_purpose::STANDARD.encode(data)
}

/// The credentials of the client, `client_id:client_secret`.
pub open spec fn client_credentials(client_id: Seq<char>, client_secret: Seq<char>) -> Seq<char> {
    client_id + ":"@ + client_secret
}

/// The HTTP basic authorization header value for base64-encoded credentials.
pub fn basic_authorization(encoded_credentials: &str) -> (header: String)
    ensures
        header@ == "Basic "@ + encoded_credentials@,
{
    let mut header = String::from_str("Basic ");
    header.append(encoded_credentials);
    header
}

/// What the device sends to Spotify's token endpoint.
pub struct TokenRequest {
    pub url: String,
    pub authorization: String,
    pub body: String,
}

/// `request` is the token request for the authorization code `auth_code`: sent
/// to the token endpoint, authorized by the client's credentials in base64
/// (their UTF-8 bytes encoded), with a form of the code, the redirect URI and
/// the grant type as its body.
pub open spec fn is_token_request(
    request: TokenRequest,
    auth_code: Seq<char>,
    redirect_uri: Seq<char>,
    client_id: Seq<char>,
    client_secret: Seq<char>,
) -> bool {
    &&& request.url@ == SPOTIFY_TOKEN_URL@
    &&& request.authorization@ == "Basic "@ + base64_standard(
        vstd::utf8::encode_utf8(client_credentials(client_id, client_secret)),
    )
    &&& request.body@ == join_params(auth_form_params(auth_code, redirect_uri))
}

/// The token request for an authorization code: a form with the code, the
/// redirect URI and the grant type, authorized by the client's credentials in
/// base64 (their UTF-8 bytes encoded).
pub fn spotify_token_request(
    auth_code: &str,
    redirect_uri: &str,
    client_id: &str,
    client_secret: &str,
) -> (request: TokenRequest)
    ensures
        is_token_request(request, auth_code@, redirect_uri@, client_id@, client_secret@),
        request.authorization@.take(6) == "Basic "@,
        base64_decode(request.authorization@.skip(6)) == vstd::utf8::encode_utf8(
            client_id@ + ":"@ + client_secret@,
        ),
{
    let params = construct_spotify_auth_form_data(auth_code, redirect_uri);
    let mut credentials = String::from_str(client_id);
    credentials.append(":");
    credentials.append(client_secret);
    let encoded = base64_encode(credentials.as_str().as_bytes());
    let request = TokenRequest {
        url: String::from_str(SPOTIFY_TOKEN_URL),
        authorization: basic_authorization(encoded.as_str()),
        body: url_encode_params(&params),
    };
    proof {
        law_token_authorization_decodes(
            request,
            auth_code@,
            redirect_uri@,
            client_id@,
            client_secret@,
        );
    }
    request
}

/// Spotify answers a successful token request with status 200; any other
/// status fails the callback.
pub fn check_token_status(status: u16) -> (result: Result<(), RouteError>)
    ensures
        status == 200 ==> result is Ok,
        status != 200 ==> result == Err::<(), RouteError>(RouteError::AuthRequestFailed),
{
    if status == 200 {
        Ok(())
    } else {
        Err(RouteError::AuthRequestFailed)
    }
}

/// The session key that a token response grants.
pub open spec fn key_of(response: SpotifyAuthResponse) -> SpotifyKey {
    SpotifyKey {
        access_token: response.access_token,
        refresh_token: response.refresh_token,
        expires_at: response.expires_in,
    }
}

/// Stores the session that Spotify granted.
pub fn store_spotify_auth<D: SpotifyKeyDao>(dao: &mut D, response: SpotifyAuthResponse) -> (result:
    Result<(), RouteError>)
    ensures
        match result {
            Ok(()) => final(dao).stored_key() == Some(key_of(response)),
            Err(e) => e == RouteError::Storage && final(dao).stored_key() == old(dao).stored_key(),
        },
        old(dao).never_fails() ==> result is Ok,
{
    let key = SpotifyKey {
        access_token: response.access_token,
        refresh_token: response.refresh_token,
        expires_at: response.expires_in,
    };
    match dao.save_spotify_key(key) {
        Ok(()) => Ok(()),
        Err(_) => Err(RouteError::Storage),
    }
}

/// Where the handling of a Spotify callback stands.
#[derive(Clone, Copy, Debug, PartialEq, Eq, Structural)]
pub enum CallbackState {
    /// Waiting for the callback request from the browser.
    AwaitingRequest,
    /// The token request was sent; waiting for the status of Spotify's answer.
    AwaitingStatus,
    /// Spotify answered 200; waiting for its decoded body.
    AwaitingBody,
    /// The callback was answered or failed; nothing more happens.
    Done,
}

/// What happened since the last step.
pub enum CallbackEvent {
    /// The browser requested the callback URI.
    Request(String),
    /// Spotify answered the token request with this status.
    TokenStatus(u16),
    /// Spotify's answer body, decoded; `None` when it is not the expected JSON.
    TokenBody(Option<SpotifyAuthResponse>),
}

/// What the device does next.
pub enum CallbackAction {
    /// Send this request to Spotify's token endpoint.
    SendTokenRequest(TokenRequest),
    /// Read and decode the body of Spotify's answer.
    ReadBody,
    /// Answer the browser with a redirect (302) to this location.
    Redirect(String),
    /// Answer the browser with this error.
    Fail(RouteError),
    /// The event does not belong to this state; do nothing.
    Ignore,
}

/// One step of the callback: from the state and what happened, the next state
/// and what to do. The order is fixed: the token request goes out only for a
/// callback URI that carries a code; the body is read only after status 200;
/// the key is stored only from a body that decoded; the browser is redirected
/// home only after the key was stored, and is answered with the error at the
/// first step that fails. Nothing is stored on any other path.
pub fn callback_step<D: SpotifyKeyDao>(
    dao: &mut D,
    state: CallbackState,
    event: CallbackEvent,
    redirect_uri: &str,
    client_id: &str,
    client_secret: &str,
) -> (next: (CallbackState, CallbackAction))
    ensures
        match (state, event) {
            (CallbackState::AwaitingRequest, CallbackEvent::Request(uri)) => {
                &&& final(dao).stored_key() == old(dao).stored_key()
                &&& match auth_code_of(uri@) {
                    Err(e) => next.0 == CallbackState::Done && next.1 == CallbackAction::Fail(e),
                    Ok(code) => {
                        &&& next.0 == CallbackState::AwaitingStatus
                        &&& next.1 matches CallbackAction::SendTokenRequest(request)
                        &&& is_token_request(request, code, redirect_uri@, client_id@, client_secret@)
                    },
                }
            },
            (CallbackState::AwaitingStatus, CallbackEvent::TokenStatus(status)) => {
                &&& final(dao).stored_key() == old(dao).stored_key()
                &&& if status == 200 {
                    next.0 == CallbackState::AwaitingBody && next.1 == CallbackAction::ReadBody
                } else {
                    next.0 == CallbackState::Done && next.1 == CallbackAction::Fail(RouteError::AuthRequestFailed)
                }
            },
            (CallbackState::AwaitingBody, CallbackEvent::TokenBody(None)) => {
                &&& final(dao).stored_key() == old(dao).stored_key()
                &&& next.0 == CallbackState::Done
                &&& next.1 == CallbackAction::Fail(RouteError::InvalidAuthResponse)
            },
            (CallbackState::AwaitingBody, CallbackEvent::TokenBody(Some(response))) => {
                &&& next.0 == CallbackState::Done
                &&& ({
                    ||| (next.1 matches CallbackAction::Redirect(location) && location@ == "/"@
                        && final(dao).stored_key() == Some(key_of(response)))
                    ||| (next.1 == CallbackAction::Fail(RouteError::Storage)
                        && final(dao).stored_key() == old(dao).stored_key())
                })
                &&& old(dao).never_fails() ==> next.1 is Redirect
            },
            _ => {
                &&& final(dao).stored_key() == old(dao).stored_key()
                &&& next.0 == state
                &&& next.1 == CallbackAction::Ignore
            },
        },
{
    match (state, event) {
        (CallbackState::AwaitingRequest, CallbackEvent::Request(uri)) => {
            match callback_auth_code(uri.as_str()) {
                Err(e) => (CallbackState::Done, CallbackAction::Fail(e)),
                Ok(code) => (
                    CallbackState::AwaitingStatus,
                    CallbackAction::SendTokenRequest(
                        spotify_token_request(code.as_str(), redirect_uri, client_id, client_secret),
                    ),
                ),
            }
        },
        (CallbackState::AwaitingStatus, CallbackEvent::TokenStatus(status)) => {
            match check_token_status(status) {
                Ok(()) => (CallbackState::AwaitingBody, CallbackAction::ReadBody),
                Err(e) => (CallbackState::Done, CallbackAction::Fail(e)),
            }
        },
        (CallbackState::AwaitingBody, CallbackEvent::TokenBody(None)) => {
            (CallbackState::Done, CallbackAction::Fail(RouteError::InvalidAuthResponse))
        },
        (CallbackState::AwaitingBody, CallbackEvent::TokenBody(Some(response))) => {
            match store_spotify_auth(dao, response) {
                Ok(()) => (CallbackState::Done, CallbackAction::Redirect(String::from_str("/"))),
                Err(e) => (CallbackState::Done, CallbackAction::Fail(e)),
            }
        },
        (other, _) => (other, CallbackAction::Ignore),
    }
}

} // verus!
