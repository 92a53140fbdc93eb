use tail_spotify::credential::Credential;
use tail_spotify::store::MemStore;

#[test]
fn load_from_an_empty_store_is_the_default_not_an_error() {
    let store = MemStore::new();
    let c = store.load();
    assert_eq!(c.client_id, "");
    assert_eq!(c.client_secret, "");
    assert_eq!(c.redirect_uri, "");
    assert_eq!(c.access_token, "");
    assert_eq!(c.refresh_token, "");
    assert_eq!(c.expires_at, 0);
}

#[test]
fn save_then_load_round_trips_all_six_fields() {
    let saved = Credential {
        client_id: "id".to_string(),
        client_secret: "secret".to_string(),
        redirect_uri: "http://localhost/cb".to_string(),
        access_token: "AT1".to_string(),
        refresh_token: "RT1".to_string(),
        expires_at: 123_456,
    };
    let mut store = MemStore::new();
    store.save(saved.duplicate());
    let loaded = store.load();
    assert_eq!(loaded.client_id, saved.client_id);
    assert_eq!(loaded.client_secret, saved.client_secret);
    assert_eq!(loaded.redirect_uri, saved.redirect_uri);
    assert_eq!(loaded.access_token, saved.access_token);
    assert_eq!(loaded.refresh_token, saved.refresh_token);
    assert_eq!(loaded.expires_at, saved.expires_at);
}

#[test]
fn a_second_save_replaces_the_record() {
    let mut store = MemStore::new();
    let mut c = Credential::default();
    c.access_token = "AT1".to_string();
    c.refresh_token = "RT1".to_string();
    c.expires_at = 10;
    store.save(c);
    let mut c2 = Credential::default();
    c2.access_token = "AT2".to_string();
    c2.refresh_token = "RT2".to_string();
    c2.expires_at = 20;
    store.save(c2);
    let loaded = store.load();
    assert_eq!(loaded.access_token, "AT2");
    assert_eq!(loaded.refresh_token, "RT2");
    assert_eq!(loaded.expires_at, 20);
}

#[test]
fn default_credential_is_well_formed_and_never_authorized() {
    let c = Credential::default();
    assert!(c.is_well_formed());
    assert!(c.is_never_authorized());
}

#[test]
fn one_sided_credential_is_not_well_formed() {
    let mut c = Credential::default();
    c.refresh_token = "RT1".to_string();
    assert!(!c.is_well_formed());
    c.access_token = "AT1".to_string();
    assert!(!c.is_well_formed());
    c.expires_at = 5;
    assert!(c.is_well_formed());
}
