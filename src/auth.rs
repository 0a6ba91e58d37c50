use vstd::prelude::*;
use crate::credential::{NativeCredential, NativeServiceOptions, copy_filled, filled, resolve_disable_credential_expiry};
use crate::crypto::{auth_key_of, hmac_password_for_turn, password_of};
use crate::freshness::{embedded_expiry, fresh_at, lemma_stamped_expiry, now_unix, username_is_fresh_at};

verus! {

/// The relay rejected a request; no reason is given.
pub struct AuthRejected;

/// What the relay consults for each request: the shared secret, the expiry
/// mode and the static credentials.
pub struct SecretAuthHandler {
    pub secret: String,
    pub disable_credential_expiry: bool,
    pub static_username: Option<String>,
    pub static_password: Option<String>,
}

impl SecretAuthHandler {
    /// The key for `username` in `realm` at clock reading `now`, or `None`
    /// where the request is rejected.
    pub open spec fn key_at(&self, username: Seq<char>, realm: Seq<char>, now: u32) -> Option<Seq<u8>> {
        match self.static_password {
            Some(p) => match self.static_username {
                Some(u) => if username != u@ {
                    None
                } else {
                    Some(auth_key_of(username, realm, p@))
                },
                None => Some(auth_key_of(username, realm, p@)),
            },
            None => if !self.disable_credential_expiry && !fresh_at(username, now) {
                None
            } else {
                Some(auth_key_of(username, realm, password_of(self.secret@, username)))
            },
        }
    }

    /// The handler that `options` configure: static credentials only where
    /// set and not empty.
    pub fn from_options(options: &NativeServiceOptions) -> (r: Self)
        ensures
            r.secret@ == options.auth_secret@,
            r.disable_credential_expiry == options.expiry_disabled(),
            filled(r.static_username) == options.static_username_spec(),
            filled(r.static_password) == options.static_password_spec(),
            r.static_password matches Some(p) ==> p@.len() > 0,
            r.static_username matches Some(u) ==> u@.len() > 0,
    {
        let static_username = copy_filled(&options.username);
        let static_password = copy_filled(&options.password);
        let disable_credential_expiry = resolve_disable_credential_expiry(
            options.disable_credential_expiry,
            static_password.is_some(),
        );
        SecretAuthHandler {
            secret: options.auth_secret.clone(),
            disable_credential_expiry,
            static_username,
            static_password,
        }
    }

    /// Answers a request for `username` in `realm` at clock reading `now`.
    pub fn auth_handle_at(&self, username: &str, realm: &str, now: u32) -> (r: Result<
        Vec<u8>,
        AuthRejected,
    >)
        ensures
            match self.key_at(username@, realm@, now) {
                Some(k) => r matches Ok(key) && key@ == k,
                None => r is Err,
            },
    {
        if let Some(static_password) = &self.static_password {
            if let Some(static_username) = &self.static_username {
                if !String::from_str(username).eq(static_username) {
                    return Err(AuthRejected);
                }
            }
            return Ok(turn::auth::generate_auth_key(username, realm, static_password.as_str()));
        }
        if !self.disable_credential_expiry && !username_is_fresh_at(username, now) {
            return Err(AuthRejected);
        }
        let password = hmac_password_for_turn(self.secret.as_str(), username);
        Ok(turn::auth::generate_auth_key(username, realm, password.as_str()))
    }

    /// Answers a request for `username` in `realm` at the current time.
    pub fn auth_handle(&self, username: &str, realm: &str) -> (r: Result<Vec<u8>, AuthRejected>)
        ensures
            exists|now: u32|
                match #[trigger] self.key_at(username@, realm@, now) {
                    Some(k) => r matches Ok(key) && key@ == k,
                    None => r is Err,
                },
    {
        let now = now_unix();
        let r = self.auth_handle_at(username, realm, now);
        assert(match self.key_at(username@, realm@, now) {
            Some(k) => r matches Ok(key) && key@ == k,
            None => r is Err,
        });
        r
    }
}

/// With a static password and a static username, the handler accepts the
/// configured username alone, and accepts it whatever timestamp it carries.
pub proof fn lemma_static_identity(h: SecretAuthHandler, username: Seq<char>, realm: Seq<char>, now: u32)
    requires
        h.static_password is Some,
        h.static_username is Some,
    ensures
        h.key_at(username, realm, now) is Some <==> username == h.static_username->0@,
        username == h.static_username->0@ ==> h.key_at(username, realm, now) == Some(
            auth_key_of(username, realm, h.static_password->0@),
        ),
{
}

/// A credential issued with a static password is accepted, at any time, by a
/// handler that carries the configuration's static credentials, with the key
/// that its password gives.
pub proof fn lemma_static_credential_accepted(
    options: NativeServiceOptions,
    h: SecretAuthHandler,
    ttl_sec: Option<u32>,
    user_id: Option<String>,
    username: Option<String>,
    issued_at: u32,
    c: NativeCredential,
    realm: Seq<char>,
    now: u32,
)
    requires
        options.static_password_spec() is Some,
        options.issues(ttl_sec, user_id, username, issued_at, c),
        filled(h.static_username) == options.static_username_spec(),
        filled(h.static_password) == options.static_password_spec(),
        h.static_username matches Some(u) ==> u@.len() > 0,
        h.static_password matches Some(p) ==> p@.len() > 0,
    ensures
        h.key_at(c.username@, realm, now) == Some(auth_key_of(c.username@, realm, c.password@)),
{
}

/// A credential issued while expiry is on, and whose username hint did not
/// already carry a later expiry, is accepted by the handler of the same
/// configuration strictly before its expiry, with the key that its password
/// gives, and refused from its expiry on.
pub proof fn lemma_issued_credential_round_trip(
    options: NativeServiceOptions,
    h: SecretAuthHandler,
    ttl_sec: Option<u32>,
    user_id: Option<String>,
    username: Option<String>,
    issued_at: u32,
    c: NativeCredential,
    realm: Seq<char>,
    now: u32,
)
    requires
        !options.expiry_disabled(),
        options.issues(ttl_sec, user_id, username, issued_at, c),
        !(filled(username) matches Some(u) && fresh_at(u, issued_at)),
        h.secret@ == options.auth_secret@,
        h.disable_credential_expiry == options.expiry_disabled(),
        filled(h.static_password) == options.static_password_spec(),
        h.static_password matches Some(p) ==> p@.len() > 0,
    ensures
        now < c.expires_at ==> h.key_at(c.username@, realm, now) == Some(
            auth_key_of(c.username@, realm, c.password@),
        ),
        now >= c.expires_at ==> h.key_at(c.username@, realm, now) is None,
{
    let exp = c.expires_at;
    match filled(username) {
        Some(u) => lemma_stamped_expiry(u, exp),
        None => match filled(user_id) {
            Some(id) => lemma_stamped_expiry(id, exp),
            None => lemma_stamped_expiry(Seq::empty(), exp),
        },
    }
    assert(embedded_expiry(c.username@) == Some(exp));
}

} // verus!
