use tail_spotify::credential::Credential;
use tail_spotify::manager::LifecycleError;
use tail_spotify::requests::{
    authorize_url, basic_auth_header, bearer_header, exchange_form, playback_endpoint,
    refresh_form, token_endpoint,
};

fn credential_with(access: &str, refresh: &str, expires_at: u64) -> Credential {
    Credential {
        client_id: "my-id".to_string(),
        client_secret: "my-secret".to_string(),
        redirect_uri: "http://localhost/cb".to_string(),
        access_token: access.to_string(),
        refresh_token: refresh.to_string(),
        expires_at,
    }
}

#[test]
fn basic_auth_header_encodes_id_and_secret() {
    // base64 of the bytes of "a:b" is "YTpi": the header is not the raw input.
    assert_eq!(basic_auth_header("a", "b"), "Basic YTpi");
}

#[test]
fn basic_auth_header_uses_url_safe_alphabet_with_padding() {
    // The bytes of "a:~?" encode to "YTp-Pw==" in the URL-safe alphabet
    // (standard base64 would give "YTp+Pw==").
    assert_eq!(basic_auth_header("a", "~?"), "Basic YTp-Pw==");
}

#[test]
fn bearer_header_carries_the_token() {
    assert_eq!(bearer_header("AT1"), "Bearer AT1");
}

#[test]
fn endpoints_are_the_documented_ones() {
    assert_eq!(token_endpoint(), "https://accounts.spotify.com/api/token");
    assert_eq!(playback_endpoint(), "https://api.spotify.com/v1/me/player");
}

#[test]
fn authorize_url_carries_client_id_redirect_and_scopes() {
    let c = credential_with("", "", 0);
    assert_eq!(
        authorize_url(&c),
        "https://accounts.spotify.com/authorize?client_id=my-id&response_type=code&redirect_uri=http://localhost/cb&scope=user-read-currently-playing%20user-read-playback-state"
    );
}

#[test]
fn exchange_form_carries_grant_code_and_redirect() {
    let c = credential_with("", "", 0);
    let form = exchange_form(&c, "ABC123");
    assert_eq!(form.len(), 3);
    assert_eq!(form[0], ("grant_type".to_string(), "authorization_code".to_string()));
    assert_eq!(form[1], ("code".to_string(), "ABC123".to_string()));
    assert_eq!(form[2], ("redirect_uri".to_string(), "http://localhost/cb".to_string()));
}

#[test]
fn refresh_form_carries_grant_and_token() {
    let c = credential_with("AT1", "RT1", 99);
    let form = refresh_form(&c).unwrap();
    assert_eq!(form.len(), 2);
    assert_eq!(form[0], ("grant_type".to_string(), "refresh_token".to_string()));
    assert_eq!(form[1], ("refresh_token".to_string(), "RT1".to_string()));
}

#[test]
fn refresh_form_refuses_a_never_authorized_credential() {
    let never = credential_with("", "", 0);
    assert_eq!(refresh_form(&never).unwrap_err(), LifecycleError::NotAuthorized);
    let no_expiry = credential_with("AT1", "RT1", 0);
    assert_eq!(refresh_form(&no_expiry).unwrap_err(), LifecycleError::NotAuthorized);
}
