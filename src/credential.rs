use vstd::prelude::*;
use crate::crypto::{hmac_password, password_of};
use crate::decimal::{decimal_of, decimal_string};
use crate::freshness::{fresh_at, last_segment, stamped, username_is_fresh_at};

verus! {

/// The configuration of a relay service and of the credentials it accepts.
pub struct NativeServiceOptions {
    pub realm: String,
    pub auth_secret: String,
    pub listen_port: u16,
    pub min_port: Option<u16>,
    pub max_port: Option<u16>,
    pub public_ip: String,
    pub listening_ip: String,
    /// Static username; an empty one counts as unset.
    pub username: Option<String>,
    /// Static password; an empty one counts as unset.
    pub password: Option<String>,
    pub disable_credential_expiry: Option<bool>,
}

/// A credential handed to a client of the relay. `ttl_sec` and `expires_at`
/// are 0 for one that never expires.
pub struct NativeCredential {
    pub username: String,
    pub password: String,
    pub ttl_sec: u32,
    pub expires_at: u32,
}

/// The text of an optional string that is set and not empty.
pub open spec fn filled(o: Option<String>) -> Option<Seq<char>> {
    match o {
        Some(v) => if v@.len() > 0 {
            Some(v@)
        } else {
            None
        },
        None => None,
    }
}

pub open spec fn disable_expiry_spec(config_value: Option<bool>, has_static_password: bool) -> bool {
    let configured = match config_value {
        Some(b) => b,
        None => true,
    };
    configured || has_static_password
}

/// The label of a credential issued with no hint while expiry is off.
pub open spec fn default_label() -> Seq<char> {
    "tturn-user"@
}

/// The username issued for the hints, the expiry instant and the mode, with
/// freshness judged at `now`.
pub open spec fn username_spec(
    username: Option<Seq<char>>,
    user_id: Option<Seq<char>>,
    expires_at: u32,
    disable_expiry: bool,
    now: u32,
) -> Seq<char> {
    if disable_expiry {
        match username {
            Some(u) => u,
            None => match user_id {
                Some(id) => id,
                None => default_label(),
            },
        }
    } else {
        match username {
            Some(u) => if fresh_at(u, now) {
                u
            } else {
                stamped(u, expires_at)
            },
            None => match user_id {
                Some(id) => stamped(id, expires_at),
                None => decimal_of(expires_at as nat),
            },
        }
    }
}

/// The lifetime granted for a requested one: an hour by default, a minute at least.
pub open spec fn ttl_spec(ttl_sec: Option<u32>) -> u32 {
    let t = match ttl_sec {
        Some(t) => t,
        None => 3600,
    };
    if t < 60 {
        60
    } else {
        t
    }
}

/// `now + ttl`, held at `u32::MAX` where it would not fit.
pub open spec fn expiry_spec(now: u32, ttl: u32) -> u32 {
    if now + ttl > u32::MAX {
        u32::MAX
    } else {
        (now + ttl) as u32
    }
}

impl NativeServiceOptions {
    pub open spec fn static_username_spec(&self) -> Option<Seq<char>> {
        filled(self.username)
    }

    pub open spec fn static_password_spec(&self) -> Option<Seq<char>> {
        filled(self.password)
    }

    /// Whether credentials are issued and accepted without expiry.
    pub open spec fn expiry_disabled(&self) -> bool {
        disable_expiry_spec(self.disable_credential_expiry, self.static_password_spec() is Some)
    }

    pub open spec fn expires_at_spec(&self, ttl_sec: Option<u32>, now: u32) -> u32 {
        if self.expiry_disabled() {
            0
        } else {
            expiry_spec(now, ttl_spec(ttl_sec))
        }
    }

    /// The username of the credential issued at `now`.
    pub open spec fn issued_username(
        &self,
        ttl_sec: Option<u32>,
        user_id: Option<String>,
        username: Option<String>,
        now: u32,
    ) -> Seq<char> {
        let built = username_spec(
            filled(username),
            filled(user_id),
            self.expires_at_spec(ttl_sec, now),
            self.expiry_disabled(),
            now,
        );
        if self.static_password_spec() is Some {
            match self.static_username_spec() {
                Some(u) => u,
                None => built,
            }
        } else {
            built
        }
    }

    /// The password of the credential issued at `now`.
    pub open spec fn issued_password(
        &self,
        ttl_sec: Option<u32>,
        user_id: Option<String>,
        username: Option<String>,
        now: u32,
    ) -> Seq<char> {
        match self.static_password_spec() {
            Some(p) => p,
            None => password_of(
                self.auth_secret@,
                self.issued_username(ttl_sec, user_id, username, now),
            ),
        }
    }

    /// The credential issued at `now`, field by field.
    pub open spec fn issues(
        &self,
        ttl_sec: Option<u32>,
        user_id: Option<String>,
        username: Option<String>,
        now: u32,
        c: NativeCredential,
    ) -> bool {
        &&& c.username@ == self.issued_username(ttl_sec, user_id, username, now)
        &&& c.password@ == self.issued_password(ttl_sec, user_id, username, now)
        &&& c.ttl_sec == if self.expiry_disabled() {
            0
        } else {
            ttl_spec(ttl_sec)
        }
        &&& c.expires_at == self.expires_at_spec(ttl_sec, now)
    }
}

/// Whether credentials go without expiry: unless the configuration turns
/// expiry on explicitly, and always where a static password is set.
pub fn resolve_disable_credential_expiry(config_value: Option<bool>, has_static_password: bool) -> (r: bool)
    ensures
        r == disable_expiry_spec(config_value, has_static_password),
{
    let configured = match config_value {
        Some(b) => b,
        None => true,
    };
    configured || has_static_password
}

/// The set, non-empty string of an option, moved out of it.
pub fn take_filled(o: Option<String>) -> (r: Option<String>)
    ensures
        filled(r) == filled(o),
        r matches Some(v) ==> v@.len() > 0,
{
    match o {
        Some(v) => if v.as_str().unicode_len() > 0 {
            Some(v)
        } else {
            None
        },
        None => None,
    }
}

/// A borrowed copy of the set, non-empty string of an option.
pub fn copy_filled(o: &Option<String>) -> (r: Option<String>)
    ensures
        filled(r) == filled(*o),
        r matches Some(v) ==> v@.len() > 0,
{
    match o {
        Some(v) => if v.as_str().unicode_len() > 0 {
            Some(v.clone())
        } else {
            None
        },
        None => None,
    }
}

/// `label:expires_at`.
fn stamp(label: String, expires_at: u32) -> (r: String)
    ensures
        r@ == stamped(label@, expires_at),
{
    let mut s = label;
    proof {
        reveal_strlit(":");
    }
    s.append(":");
    s.append(decimal_string(expires_at).as_str());
    s
}

/// Builds the username of a credential from the hints; a hint that already
/// carries an expiry later than `now` is kept as it is.
pub fn build_username(
    username: Option<String>,
    user_id: Option<String>,
    expires_at: u32,
    disable_credential_expiry: bool,
    now: u32,
) -> (r: String)
    ensures
        r@ == username_spec(filled(username), filled(user_id), expires_at, disable_credential_expiry, now),
{
    let username = take_filled(username);
    let user_id = take_filled(user_id);
    if disable_credential_expiry {
        return match username {
            Some(raw) => raw,
            None => match user_id {
                Some(user) => user,
                None => String::from_str("tturn-user"),
            },
        };
    }
    match username {
        Some(raw) => {
            if username_is_fresh_at(raw.as_str(), now) {
                raw
            } else {
                stamp(raw, expires_at)
            }
        },
        None => match user_id {
            Some(user) => stamp(user, expires_at),
            None => decimal_string(expires_at),
        },
    }
}

/// An empty username carries no expiry, so a fresh one is never empty.
proof fn lemma_fresh_not_empty(u: Seq<char>, now: u32)
    requires
        fresh_at(u, now),
    ensures
        u.len() > 0,
{
    if u.len() == 0 {
        assert(last_segment(u) == u);
    }
}

/// A username hint that already carries an expiry later than the time of
/// issue is handed back as it is, not stamped a second time (without a
/// static password, which would name the credential itself).
pub proof fn lemma_fresh_hint_kept(
    options: NativeServiceOptions,
    ttl_sec: Option<u32>,
    user_id: Option<String>,
    username: Option<String>,
    now: u32,
    c: NativeCredential,
)
    requires
        options.static_password_spec() is None,
        options.issues(ttl_sec, user_id, username, now, c),
        username matches Some(u) && fresh_at(u@, now),
    ensures
        c.username@ == username->0@,
{
    lemma_fresh_not_empty(username->0@, now);
}

/// Possible failures of the service's operations.
pub enum ServiceError {
    RealmRequired,
    SecretRequired,
    PortRange(String),
    InvalidAuthSecret,
}

/// Issues the credential for the hints with the clock reading `now`.
pub fn issue_credential_at(
    options: &NativeServiceOptions,
    ttl_sec: Option<u32>,
    user_id: Option<String>,
    username: Option<String>,
    now: u32,
) -> (r: Result<NativeCredential, ServiceError>)
    ensures
        r is Ok,
        r matches Ok(c) ==> options.issues(ttl_sec, user_id, username, now, c),
{
    let static_password = copy_filled(&options.password);
    let static_username = copy_filled(&options.username);
    let disable_credential_expiry = resolve_disable_credential_expiry(
        options.disable_credential_expiry,
        static_password.is_some(),
    );
    let requested = match ttl_sec {
        Some(t) => t,
        None => 3600,
    };
    let ttl = if requested < 60 {
        60
    } else {
        requested
    };
    let expires_at = if disable_credential_expiry {
        0
    } else {
        now.saturating_add(ttl)
    };
    let username = if static_password.is_some() {
        match static_username {
            Some(u) => u,
            None => build_username(username, user_id, expires_at, disable_credential_expiry, now),
        }
    } else {
        build_username(username, user_id, expires_at, disable_credential_expiry, now)
    };
    let password = match static_password {
        Some(value) => value,
        None => match hmac_password(options.auth_secret.as_str(), username.as_str()) {
            Ok(p) => p,
            Err(_) => return Err(ServiceError::InvalidAuthSecret),
        },
    };
    Ok(
        NativeCredential {
            username,
            password,
            ttl_sec: if disable_credential_expiry {
                0
            } else {
                ttl
            },
            expires_at,
        },
    )
}

} // verus!
