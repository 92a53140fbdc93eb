//! What goes on the wire: endpoints, headers and form bodies for the
//! authorization server and the resource server.

use base64::Engine;
use vstd::prelude::*;
use vstd::string::StringExecFns;

use crate::credential::{never_authorized, Credential};
use crate::manager::LifecycleError;

verus! {

/// What base64's URL-safe engine yields for a string's bytes; a function of
/// the input alone.
pub uninterp spec fn b64_url_of(s: Seq<char>) -> Seq<char>;

/// Relies on base64's `Engine::encode` with the `URL_SAFE` engine: the
/// encoding of the string's bytes, deterministic in its input.
#[verifier::external_body]
fn b64_url(s: &str) -> (r: String)
    ensures
        r@ == b64_url_of(s@),
{
    base64::engine::general_purpose::URL_SAFE.encode(s)
}

/// The HTTP Basic authentication header for the token endpoint:
/// `Basic base64(client_id:client_secret)`.
pub fn basic_auth_header(client_id: &str, client_secret: &str) -> (r: String)
    ensures
        r@ == "Basic "@ + b64_url_of(client_id@ + ":"@ + client_secret@),
{
    let mut joined = client_id.to_owned();
    joined.append(":");
    joined.append(client_secret);
    proof {
        assert(joined@ =~= client_id@ + ":"@ + client_secret@);
    }
    let encoded = b64_url(joined.as_str());
    let mut header = "Basic ".to_owned();
    header.append(encoded.as_str());
    header
}

/// The bearer authentication header for the resource endpoint.
pub fn bearer_header(access_token: &str) -> (r: String)
    ensures
        r@ == "Bearer "@ + access_token@,
{
    let mut header = "Bearer ".to_owned();
    header.append(access_token);
    header
}

/// The token endpoint both grant exchanges POST to.
pub fn token_endpoint() -> (r: String)
    ensures
        r@ == "https://accounts.spotify.com/api/token"@,
{
    String::from_str("https://accounts.spotify.com/api/token")
}

/// The resource endpoint the playback query GETs.
pub fn playback_endpoint() -> (r: String)
    ensures
        r@ == "https://api.spotify.com/v1/me/player"@,
{
    String::from_str("https://api.spotify.com/v1/me/player")
}

/// The URL the user is sent to for interactive authorization.
pub fn authorize_url(c: &Credential) -> (r: String)
    ensures
        r@ == "https://accounts.spotify.com/authorize?client_id="@ + c.client_id@
            + "&response_type=code&redirect_uri="@ + c.redirect_uri@
            + "&scope=user-read-currently-playing%20user-read-playback-state"@,
{
    let mut url = "https://accounts.spotify.com/authorize?client_id=".to_owned();
    url.append(c.client_id.as_str());
    url.append("&response_type=code&redirect_uri=");
    url.append(c.redirect_uri.as_str());
    url.append("&scope=user-read-currently-playing%20user-read-playback-state");
    proof {
        assert(url@ =~= "https://accounts.spotify.com/authorize?client_id="@ + c.client_id@
            + "&response_type=code&redirect_uri="@ + c.redirect_uri@
            + "&scope=user-read-currently-playing%20user-read-playback-state"@);
    }
    url
}

/// The form body of the authorization-code exchange.
pub fn exchange_form(c: &Credential, code: &str) -> (r: Vec<(String, String)>)
    ensures
        r@.len() == 3,
        r@[0].0@ == "grant_type"@ && r@[0].1@ == "authorization_code"@,
        r@[1].0@ == "code"@ && r@[1].1@ == code@,
        r@[2].0@ == "redirect_uri"@ && r@[2].1@ == c.redirect_uri@,
{
    let mut form: Vec<(String, String)> = Vec::new();
    form.push((String::from_str("grant_type"), String::from_str("authorization_code")));
    form.push((String::from_str("code"), code.to_owned()));
    form.push((String::from_str("redirect_uri"), c.redirect_uri.clone()));
    form
}

/// The form body of the refresh exchange, or the immediate failure the
/// refresher owes a never-authorized credential: with no grant on record
/// there is nothing to refresh, and no network call is made.
pub fn refresh_form(c: &Credential) -> (r: Result<Vec<(String, String)>, LifecycleError>)
    ensures
        match r {
            Result::Ok(form) => !never_authorized(*c) && form@.len() == 2
                && form@[0].0@ == "grant_type"@ && form@[0].1@ == "refresh_token"@
                && form@[1].0@ == "refresh_token"@ && form@[1].1@ == c.refresh_token@,
            Result::Err(e) => never_authorized(*c) && e == LifecycleError::NotAuthorized,
        },
{
    if c.is_never_authorized() {
        Result::Err(LifecycleError::NotAuthorized)
    } else {
        let mut form: Vec<(String, String)> = Vec::new();
        form.push((String::from_str("grant_type"), String::from_str("refresh_token")));
        form.push((String::from_str("refresh_token"), c.refresh_token.clone()));
        Result::Ok(form)
    }
}

} // verus!
