//! The persisted OAuth2 credential set and the operations that mutate it.

use vstd::prelude::*;

verus! {

/// The credential record the client persists between invocations.
///
/// `client_id`, `client_secret` and `redirect_uri` come from configuration
/// and are never mutated here. `access_token` is the short-lived bearer
/// token, valid strictly before `expires_at` (seconds since the epoch);
/// `refresh_token` mints new access tokens without user interaction.
#[derive(Debug)]
pub struct Credential {
    pub client_id: String,
    pub client_secret: String,
    pub redirect_uri: String,
    pub access_token: String,
    pub refresh_token: String,
    pub expires_at: u64,
}

/// Mathematical model of a credential: each string as its character
/// sequence, the expiry instant unchanged.
#[verifier::ext_equal]
pub struct CredentialModel {
    pub client_id: Seq<char>,
    pub client_secret: Seq<char>,
    pub redirect_uri: Seq<char>,
    pub access_token: Seq<char>,
    pub refresh_token: Seq<char>,
    pub expires_at: u64,
}

impl View for Credential {
    type V = CredentialModel;

    open spec fn view(&self) -> CredentialModel {
        CredentialModel {
            client_id: self.client_id@,
            client_secret: self.client_secret@,
            redirect_uri: self.redirect_uri@,
            access_token: self.access_token@,
            refresh_token: self.refresh_token@,
            expires_at: self.expires_at,
        }
    }
}

/// The model of a credential that has never been authorized: both tokens
/// empty and the expiry sentinel zero.
pub open spec fn empty_credential_model() -> CredentialModel {
    CredentialModel {
        client_id: Seq::<char>::empty(),
        client_secret: Seq::<char>::empty(),
        redirect_uri: Seq::<char>::empty(),
        access_token: Seq::<char>::empty(),
        refresh_token: Seq::<char>::empty(),
        expires_at: 0,
    }
}

/// No usable grant is on record: a token is missing, or no token has ever
/// been issued (`expires_at == 0` is the sentinel for the latter).
pub open spec fn never_authorized(c: Credential) -> bool {
    c.access_token@.len() == 0 || c.refresh_token@.len() == 0 || c.expires_at == 0
}

/// A credential is well formed when it is either in the never-authorized
/// state (both tokens empty, expiry sentinel zero) or fully authorized
/// (both tokens present and an expiry instant on record). No successful
/// operation may leave one token empty and the other not.
pub open spec fn well_formed(c: CredentialModel) -> bool {
    ||| (c.access_token.len() == 0 && c.refresh_token.len() == 0 && c.expires_at == 0)
    ||| (c.access_token.len() > 0 && c.refresh_token.len() > 0 && c.expires_at >= 1)
}

/// The expiry instant derived from the server-declared lifetime: issuance
/// time plus lifetime, clamped to the largest representable instant.
pub open spec fn expiry_model(now: u64, expires_in: u64) -> u64 {
    if now + expires_in > u64::MAX {
        u64::MAX
    } else {
        (now + expires_in) as u64
    }
}

/// The credential after a successful authorization-code exchange: both
/// tokens replaced, the expiry derived from `now` and the declared
/// lifetime, the configuration fields untouched.
pub open spec fn exchanged_credential(
    c: Credential,
    access_token: String,
    refresh_token: String,
    expires_in: u64,
    now: u64,
) -> Credential {
    Credential {
        access_token,
        refresh_token,
        expires_at: expiry_model(now, expires_in),
        ..c
    }
}

/// The credential after a successful refresh: the access token and expiry
/// replaced; the refresh token replaced only when the server rotated it,
/// kept unchanged when the reply omitted it.
pub open spec fn refreshed_credential(
    c: Credential,
    access_token: String,
    rotated: Option<String>,
    expires_in: u64,
    now: u64,
) -> Credential {
    Credential {
        access_token,
        refresh_token: match rotated {
            Option::Some(rt) => rt,
            Option::None => c.refresh_token,
        },
        expires_at: expiry_model(now, expires_in),
        ..c
    }
}

impl Credential {
    /// Whether this credential is well formed.
    pub fn is_well_formed(&self) -> (r: bool)
        ensures
            r == well_formed(self@),
    {
        if self.access_token.as_str().is_empty() {
            self.refresh_token.as_str().is_empty() && self.expires_at == 0
        } else {
            !self.refresh_token.as_str().is_empty() && self.expires_at >= 1
        }
    }

    /// Whether no usable grant is on record.
    pub fn is_never_authorized(&self) -> (r: bool)
        ensures
            r == never_authorized(*self),
    {
        self.access_token.as_str().is_empty() || self.refresh_token.as_str().is_empty()
            || self.expires_at == 0
    }

    /// A field-for-field copy of this credential.
    pub fn duplicate(&self) -> (r: Credential)
        ensures
            r == *self,
    {
        Credential {
            client_id: self.client_id.clone(),
            client_secret: self.client_secret.clone(),
            redirect_uri: self.redirect_uri.clone(),
            access_token: self.access_token.clone(),
            refresh_token: self.refresh_token.clone(),
            expires_at: self.expires_at,
        }
    }

    /// Applies a successful authorization-code exchange to this credential.
    pub fn apply_exchange(
        self,
        access_token: String,
        refresh_token: String,
        expires_in: u64,
        now: u64,
    ) -> (r: Credential)
        ensures
            r == exchanged_credential(self, access_token, refresh_token, expires_in, now),
    {
        let expires_at = compute_expiry(now, expires_in);
        Credential {
            access_token,
            refresh_token,
            expires_at,
            ..self
        }
    }

    /// Applies a successful refresh to this credential. A reply that omits
    /// the refresh token (`rotated == None`) leaves the stored one in
    /// place; a reply that carries one replaces it.
    pub fn apply_refresh(
        self,
        access_token: String,
        rotated: Option<String>,
        expires_in: u64,
        now: u64,
    ) -> (r: Credential)
        ensures
            r == refreshed_credential(self, access_token, rotated, expires_in, now),
    {
        let expires_at = compute_expiry(now, expires_in);
        let refresh_token = match rotated {
            Option::Some(rt) => rt,
            Option::None => self.refresh_token,
        };
        Credential {
            access_token,
            refresh_token,
            expires_at,
            ..self
        }
    }
}

impl Default for Credential {
    /// The never-authorized credential: all fields blank, expiry zero.
    fn default() -> (r: Self)
        ensures
            r@ == empty_credential_model(),
    {
        let r = Credential {
            client_id: String::new(),
            client_secret: String::new(),
            redirect_uri: String::new(),
            access_token: String::new(),
            refresh_token: String::new(),
            expires_at: 0,
        };
        proof {
            assert(r@ =~= empty_credential_model());
        }
        r
    }
}

/// `now + expires_in`, clamped to `u64::MAX` instead of overflowing.
pub fn compute_expiry(now: u64, expires_in: u64) -> (r: u64)
    ensures
        r == expiry_model(now, expires_in),
{
    if expires_in > u64::MAX - now {
        u64::MAX
    } else {
        now + expires_in
    }
}

/// A refresh that rotates the token replaces the stored one; a refresh
/// whose reply omits it leaves the stored one unchanged. The remaining
/// configuration fields survive either way.
pub proof fn lemma_refresh_token_retention(
    c: Credential,
    access_token: String,
    rotated: Option<String>,
    expires_in: u64,
    now: u64,
)
    ensures
        rotated is None ==> refreshed_credential(c, access_token, rotated, expires_in, now)
            .refresh_token == c.refresh_token,
        rotated matches Some(rt) ==> refreshed_credential(c, access_token, rotated, expires_in, now)
            .refresh_token == rt,
        refreshed_credential(c, access_token, rotated, expires_in, now).client_id == c.client_id,
        refreshed_credential(c, access_token, rotated, expires_in, now).client_secret
            == c.client_secret,
        refreshed_credential(c, access_token, rotated, expires_in, now).redirect_uri
            == c.redirect_uri,
{
}

} // verus!
