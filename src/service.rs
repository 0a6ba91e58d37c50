use vstd::prelude::*;
use crate::auth::SecretAuthHandler;
use crate::credential::{NativeCredential, NativeServiceOptions, ServiceError, filled, issue_credential_at};
use crate::decimal::{decimal_of, decimal_string};
use crate::freshness::now_unix;

verus! {

/// Whether a relay port range is acceptable: none at all, or both bounds,
/// non-zero and in order.
pub open spec fn port_range_ok(min_port: Option<u16>, max_port: Option<u16>) -> bool {
    match (min_port, max_port) {
        (None, None) => true,
        (Some(min), Some(max)) => min != 0 && max != 0 && min <= max,
        _ => false,
    }
}

/// The reason a port range is refused.
pub open spec fn port_range_message(min_port: Option<u16>, max_port: Option<u16>) -> Seq<char> {
    if min_port is Some == max_port is Some {
        "invalid relay port range (minPort/maxPort)"@
    } else {
        "minPort and maxPort must be provided together"@
    }
}

/// Checks the relay port range.
pub fn validate_port_range(min_port: Option<u16>, max_port: Option<u16>) -> (r: Result<(), String>)
    ensures
        r is Ok <==> port_range_ok(min_port, max_port),
        r matches Err(m) ==> m@ == port_range_message(min_port, max_port),
{
    match (min_port, max_port) {
        (None, None) => Ok(()),
        (Some(min), Some(max)) => {
            if min == 0 || max == 0 || max < min {
                return Err(String::from_str("invalid relay port range (minPort/maxPort)"));
            }
            Ok(())
        },
        _ => Err(String::from_str("minPort and maxPort must be provided together")),
    }
}

/// `turn:<ip>:<port>?transport=udp`.
pub open spec fn ice_url(public_ip: Seq<char>, listen_port: u16) -> Seq<char> {
    "turn:"@ + public_ip + ":"@ + decimal_of(listen_port as nat) + "?transport=udp"@
}

/// The relay's addresses as ICE server URLs: UDP only.
pub fn build_ice_urls(public_ip: &str, listen_port: u16) -> (r: Vec<String>)
    ensures
        r@.len() == 1,
        r@[0]@ == ice_url(public_ip@, listen_port),
{
    let mut url = String::from_str("turn:");
    url.append(public_ip);
    url.append(":");
    url.append(decimal_string(listen_port as u32).as_str());
    url.append("?transport=udp");
    vec![url]
}

/// Whether the relay service is running.
pub struct Health {
    pub running: bool,
}

/// How the relay picks the addresses of its allocations.
pub enum RelayStrategy {
    /// One fixed address.
    Static,
    /// Ports drawn from `min_port..=max_port`.
    Ranged { min_port: u16, max_port: u16 },
}

/// The strategy that a validated port range selects.
pub open spec fn strategy_spec(min_port: Option<u16>, max_port: Option<u16>) -> RelayStrategy {
    match (min_port, max_port) {
        (Some(min), Some(max)) => RelayStrategy::Ranged { min_port: min, max_port: max },
        _ => RelayStrategy::Static,
    }
}

/// `<ip>:<port>`.
pub open spec fn bind_address_spec(ip: Seq<char>, port: u16) -> Seq<char> {
    ip + ":"@ + decimal_of(port as nat)
}

/// Everything the relay engine is started with.
pub struct LaunchPlan {
    /// Where the UDP transport is bound.
    pub bind_address: String,
    /// Where the allocations' sockets are bound.
    pub listening_ip: String,
    /// The address advertised to peers; still to be parsed.
    pub public_ip: String,
    pub realm: String,
    pub strategy: RelayStrategy,
    pub auth: SecretAuthHandler,
}

/// What `start` asks of the caller.
pub enum StartAction {
    /// The relay is already running: nothing to do.
    AlreadyRunning,
    /// Start the relay engine with the plan, then report it by `started`.
    Launch(LaunchPlan),
}

/// The relay service: its configuration and whether its engine runs.
pub struct NativeTurnService {
    options: NativeServiceOptions,
    running: bool,
}

impl NativeTurnService {
    pub closed spec fn options_spec(&self) -> NativeServiceOptions {
        self.options
    }

    pub closed spec fn is_running(&self) -> bool {
        self.running
    }

    /// Whether `new` accepts `options`.
    pub open spec fn options_ok(options: NativeServiceOptions) -> bool {
        &&& options.realm@.len() > 0
        &&& (options.auth_secret@.len() > 0 || options.static_password_spec() is Some)
    }

    /// Whether `start` hands out a plan to launch the engine.
    pub open spec fn start_launches(&self) -> bool {
        !self.is_running() && port_range_ok(self.options_spec().min_port, self.options_spec().max_port)
    }

    /// A stopped service for `options`; refused without a realm, or without
    /// both a shared secret and a static password.
    pub fn new(options: NativeServiceOptions) -> (r: Result<Self, ServiceError>)
        ensures
            r is Ok <==> Self::options_ok(options),
            r matches Ok(s) ==> s.options_spec() == options && !s.is_running(),
            r matches Err(e) ==> (e is RealmRequired <==> options.realm@.len() == 0),
            r matches Err(e) ==> (e is RealmRequired || e is SecretRequired),
    {
        if options.realm.as_str().unicode_len() == 0 {
            return Err(ServiceError::RealmRequired);
        }
        let has_password = match &options.password {
            Some(p) => p.as_str().unicode_len() > 0,
            None => false,
        };
        if options.auth_secret.as_str().unicode_len() == 0 && !has_password {
            return Err(ServiceError::SecretRequired);
        }
        Ok(NativeTurnService { options, running: false })
    }

    /// The configuration the service was made with.
    pub fn options(&self) -> (r: &NativeServiceOptions)
        ensures
            *r == self.options_spec(),
    {
        &self.options
    }

    /// Decides how to start: nothing where the engine runs already, an error
    /// where the port range is refused, else the plan to launch it with.
    pub fn start(&self) -> (r: Result<StartAction, ServiceError>)
        ensures
            self.is_running() ==> r matches Ok(StartAction::AlreadyRunning),
            r matches Ok(StartAction::Launch(_)) <==> self.start_launches(),
            r matches Err(e) ==> e matches ServiceError::PortRange(m) && m@ == port_range_message(
                self.options_spec().min_port,
                self.options_spec().max_port,
            ),
            r is Err <==> !self.is_running() && !port_range_ok(
                self.options_spec().min_port,
                self.options_spec().max_port,
            ),
            r matches Ok(StartAction::Launch(p)) ==> {
                let o = self.options_spec();
                &&& p.bind_address@ == bind_address_spec(o.listening_ip@, o.listen_port)
                &&& p.listening_ip@ == o.listening_ip@
                &&& p.public_ip@ == o.public_ip@
                &&& p.realm@ == o.realm@
                &&& p.strategy == strategy_spec(o.min_port, o.max_port)
                &&& p.auth.secret@ == o.auth_secret@
                &&& p.auth.disable_credential_expiry == o.expiry_disabled()
                &&& filled(p.auth.static_username) == o.static_username_spec()
                &&& filled(p.auth.static_password) == o.static_password_spec()
                &&& (p.auth.static_username matches Some(u) ==> u@.len() > 0)
                &&& (p.auth.static_password matches Some(w) ==> w@.len() > 0)
            },
    {
        if self.running {
            return Ok(StartAction::AlreadyRunning);
        }
        let min_port = self.options.min_port;
        let max_port = self.options.max_port;
        if let Err(message) = validate_port_range(min_port, max_port) {
            return Err(ServiceError::PortRange(message));
        }
        let strategy = match (min_port, max_port) {
            (Some(min), Some(max)) => RelayStrategy::Ranged { min_port: min, max_port: max },
            _ => RelayStrategy::Static,
        };
        let mut bind_address = self.options.listening_ip.clone();
        proof {
            reveal_strlit(":");
        }
        bind_address.append(":");
        bind_address.append(decimal_string(self.options.listen_port as u32).as_str());
        Ok(
            StartAction::Launch(
                LaunchPlan {
                    bind_address,
                    listening_ip: self.options.listening_ip.clone(),
                    public_ip: self.options.public_ip.clone(),
                    realm: self.options.realm.clone(),
                    strategy,
                    auth: SecretAuthHandler::from_options(&self.options),
                },
            ),
        )
    }

    /// Records that the engine of a plan is up.
    pub fn started(&mut self)
        ensures
            final(self).is_running(),
            final(self).options_spec() == old(self).options_spec(),
    {
        self.running = true;
    }

    /// Stops the service; returns whether a running engine must be closed.
    pub fn stop(&mut self) -> (r: bool)
        ensures
            r == old(self).stop_closes(),
            !final(self).is_running(),
            final(self).options_spec() == old(self).options_spec(),
    {
        let was_running = self.running;
        self.running = false;
        was_running
    }

    pub fn health(&self) -> (r: Health)
        ensures
            r.running == self.is_running(),
    {
        Health { running: self.running }
    }

    pub fn get_ice_urls(&self) -> (r: Vec<String>)
        ensures
            r@.len() == 1,
            r@[0]@ == ice_url(self.options_spec().public_ip@, self.options_spec().listen_port),
    {
        build_ice_urls(self.options.public_ip.as_str(), self.options.listen_port)
    }

    /// Issues a credential at the clock reading `now`.
    pub fn issue_credential_at(
        &self,
        ttl_sec: Option<u32>,
        user_id: Option<String>,
        username: Option<String>,
        now: u32,
    ) -> (r: Result<NativeCredential, ServiceError>)
        ensures
            r matches Ok(c) && self.options_spec().issues(ttl_sec, user_id, username, now, c),
    {
        issue_credential_at(&self.options, ttl_sec, user_id, username, now)
    }

    /// Issues a credential at the current time.
    pub fn issue_credential(
        &self,
        ttl_sec: Option<u32>,
        user_id: Option<String>,
        username: Option<String>,
    ) -> (r: Result<NativeCredential, ServiceError>)
        ensures
            r is Ok,
            exists|now: u32|
                #[trigger] self.options_spec().issues(ttl_sec, user_id, username, now, r->Ok_0),
    {
        let now = now_unix();
        let r = self.issue_credential_at(ttl_sec, user_id, username, now);
        assert(self.options_spec().issues(ttl_sec, user_id, username, now, r->Ok_0));
        r
    }
}

impl NativeTurnService {
    /// Whether `stop` has an engine to close.
    pub open spec fn stop_closes(&self) -> bool {
        self.is_running()
    }
}

/// A `start` on a service whose engine is up launches nothing: started
/// twice, the relay runs once on one bound transport.
pub proof fn lemma_start_is_idempotent(s: NativeTurnService)
    requires
        s.is_running(),
    ensures
        !s.start_launches(),
{
}

/// A `stop` on a stopped service has nothing to close: the second of two
/// `stop`s does nothing.
pub proof fn lemma_stop_is_idempotent(s: NativeTurnService)
    requires
        !s.is_running(),
    ensures
        !s.stop_closes(),
{
}

} // verus!
