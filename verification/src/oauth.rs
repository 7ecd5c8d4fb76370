//! Starting an Auth0 sign-in with PKCE: the verifier, its challenge, the
//! state, and the authorization address; and reading the callback's query.

use vstd::prelude::*;
use base64::Engine;
use rand::Rng;
use sha2::Digest;
use crate::auth::{AUTH_AUDIENCE, AUTH_CLIENT_ID, AUTH_REDIRECT_URI};

verus! {

/// The address sign-in starts from.
pub const AUTH_AUTHORIZE_URL: &'static str = "https://auth.splice.com/authorize";

/// `c` is an ASCII letter or digit.
pub open spec fn is_ascii_alphanumeric(c: char) -> bool {
    ('a' <= c && c <= 'z') || ('A' <= c && c <= 'Z') || ('0' <= c && c <= '9')
}

/// The SHA-256 digest of `data`.
pub uninterp spec fn sha256_digest(data: Seq<u8>) -> Seq<u8>;

/// What unpadded URL-safe base64 encoding makes of `data`.
pub uninterp spec fn base64_url_encoded(data: Seq<u8>) -> Seq<char>;

/// What appending the form-encoded `pairs`, in order, to the query of the
/// address `url` gives, as serialised text; `None` when `url` does not parse.
pub uninterp spec fn url_with_query_pairs(url: Seq<char>, pairs: Seq<(Seq<char>, Seq<char>)>) -> Option<
    Seq<char>,
>;

/// The decoded query pairs of the address `url`; `None` when it does not parse.
pub uninterp spec fn url_query_pairs(url: Seq<char>) -> Option<Seq<(Seq<char>, Seq<char>)>>;

/// `len` characters drawn with `rand::thread_rng()` from rand's
/// `Alphanumeric` distribution, which rand documents as uniform over ASCII
/// letters and digits. The contract states the length and the alphabet;
/// which characters come out is chance.
#[verifier::external_body]
fn random_string(len: usize) -> (r: String)
    ensures
        r@.len() == len,
        forall|i: int| 0 <= i < len ==> is_ascii_alphanumeric(#[trigger] r@[i]),
{
    rand::thread_rng().sample_iter(&rand::distributions::Alphanumeric).take(len).map(char::from).collect()
}

/// `sha2::Sha256::digest`: the contract names the digest and states its
/// length of 32 bytes.
#[verifier::external_body]
fn sha256(data: &[u8]) -> (r: Vec<u8>)
    ensures
        r@ == sha256_digest(data@),
        r@.len() == 32,
{
    sha2::Sha256::digest(data).to_vec()
}

/// base64's `URL_SAFE_NO_PAD` engine, `Engine::encode`; the contract names
/// the result.
#[verifier::external_body]
fn encode_base64_url(data: &[u8]) -> (r: String)
    ensures
        r@ == base64_url_encoded(data@),
{
    base64::engine::general_purpose::URL_SAFE_NO_PAD.encode(data)
}

/// `url::Url::parse`, then `query_pairs_mut().extend_pairs` with `pairs`,
/// then the serialised address; the contract names the result. Appending
/// to the query cannot fail, so the result is present whenever the address
/// parses, as the fixed authorization address does.
#[verifier::external_body]
fn append_query_pairs(url: &str, pairs: &Vec<(String, String)>) -> (r: Option<String>)
    ensures
        match r {
            Some(s) => url_with_query_pairs(url@, pairs_view(pairs@)) == Some(s@),
            None => url_with_query_pairs(url@, pairs_view(pairs@)) is None,
        },
        url@ == AUTH_AUTHORIZE_URL@ ==> r is Some,
{
    let mut parsed = url::Url::parse(url).ok()?;
    parsed.query_pairs_mut().extend_pairs(pairs.iter());
    Some(parsed.to_string())
}

/// `url::Url::parse`, then `query_pairs()` collected as owned text; the
/// contract names the result.
#[verifier::external_body]
fn parse_query_pairs(url: &str) -> (r: Option<Vec<(String, String)>>)
    ensures
        match r {
            Some(pairs) => url_query_pairs(url@) == Some(pairs_view(pairs@)),
            None => url_query_pairs(url@) is None,
        },
{
    let parsed = url::Url::parse(url).ok()?;
    Some(parsed.query_pairs().map(|(k, v)| (k.into_owned(), v.into_owned())).collect())
}

/// The text of query pairs.
pub open spec fn pairs_view(pairs: Seq<(String, String)>) -> Seq<(Seq<char>, Seq<char>)> {
    pairs.map_values(|p: (String, String)| (p.0@, p.1@))
}

/// The query pairs of a navigation address, `None` when it does not parse.
pub fn navigation_query_pairs(url: &str) -> (r: Option<Vec<(String, String)>>)
    ensures
        match r {
            Some(pairs) => url_query_pairs(url@) == Some(pairs_view(pairs@)),
            None => url_query_pairs(url@) is None,
        },
{
    parse_query_pairs(url)
}

/// The PKCE challenge of a verifier: the unpadded URL-safe base64 text of
/// the SHA-256 digest of its UTF-8 bytes.
pub fn pkce_challenge(verifier: &str) -> (r: String)
    ensures
        r@ == base64_url_encoded(sha256_digest(vstd::utf8::encode_utf8(verifier@))),
{
    let digest = sha256(verifier.as_bytes());
    encode_base64_url(digest.as_slice())
}

/// The query pairs of the authorization address, in order.
pub open spec fn authorize_pairs(state: Seq<char>, challenge: Seq<char>) -> Seq<(Seq<char>, Seq<char>)> {
    seq![
        ("scope"@, "openid profile offline_access"@),
        ("response_type"@, "code"@),
        ("client_id"@, AUTH_CLIENT_ID@),
        ("redirect_uri"@, AUTH_REDIRECT_URI@),
        ("audience"@, AUTH_AUDIENCE@),
        ("state"@, state),
        ("code_challenge"@, challenge),
        ("code_challenge_method"@, "S256"@),
    ]
}

/// The authorization address for a sign-in with this state and challenge.
pub fn authorize_url(state: &str, challenge: &str) -> (r: String)
    ensures
        url_with_query_pairs(AUTH_AUTHORIZE_URL@, authorize_pairs(state@, challenge@)) == Some(r@),
{
    let pairs: Vec<(String, String)> = vec![
        ("scope".to_owned(), "openid profile offline_access".to_owned()),
        ("response_type".to_owned(), "code".to_owned()),
        ("client_id".to_owned(), AUTH_CLIENT_ID.to_owned()),
        ("redirect_uri".to_owned(), AUTH_REDIRECT_URI.to_owned()),
        ("audience".to_owned(), AUTH_AUDIENCE.to_owned()),
        ("state".to_owned(), state.to_owned()),
        ("code_challenge".to_owned(), challenge.to_owned()),
        ("code_challenge_method".to_owned(), "S256".to_owned()),
    ];
    assert(pairs_view(pairs@) =~= authorize_pairs(state@, challenge@));
    append_query_pairs(AUTH_AUTHORIZE_URL, &pairs).unwrap()
}

/// What a sign-in needs to remember and where it sends the user.
#[derive(Debug)]
pub struct LoginStart {
    pub verifier: String,
    pub state: String,
    pub authorize_url: String,
}

/// `s` is `len` ASCII letters and digits.
pub open spec fn is_login_secret(s: Seq<char>, len: nat) -> bool {
    s.len() == len && forall|i: int| 0 <= i < len ==> is_ascii_alphanumeric(#[trigger] s[i])
}

/// The authorization address of a sign-in with this verifier and state.
pub open spec fn login_address(verifier: Seq<char>, state: Seq<char>) -> Option<Seq<char>> {
    url_with_query_pairs(
        AUTH_AUTHORIZE_URL@,
        authorize_pairs(state, base64_url_encoded(sha256_digest(vstd::utf8::encode_utf8(verifier)))),
    )
}

/// Starts a sign-in: a 96-character verifier and a 32-character state,
/// both ASCII letters and digits, and the authorization address carrying
/// the state and the verifier's challenge.
pub fn begin_login() -> (start: LoginStart)
    ensures
        is_login_secret(start.verifier@, 96),
        is_login_secret(start.state@, 32),
        login_address(start.verifier@, start.state@) == Some(start.authorize_url@),
{
    let verifier = random_string(96);
    let challenge = pkce_challenge(verifier.as_str());
    let state = random_string(32);
    let authorize_url = authorize_url(state.as_str(), challenge.as_str());
    LoginStart { verifier, state, authorize_url }
}

} // verus!
