//! The decisions of the desktop shell: whether to start the embedded
//! daemon, which address it binds, which URL the web view is given, and the
//! script that hands the URL to the page.
//!
//! Environment variables, sockets and the web view are handled by the
//! caller, which passes in what it read and carries out what is decided.
use vstd::prelude::*;
use crate::json::{json_quoted, quote_json};
use crate::text::{
    append_str, ascii_lowercase, decimal, owned, push_decimal, same_text, to_ascii_lowercase, trim,
    trimmed,
};

verus! {

/// The host the embedded daemon binds.
pub const DEFAULT_DAEMON_HOST: &'static str = "127.0.0.1";

/// The first port the embedded daemon tries.
pub const DEFAULT_DAEMON_PORT: u16 = 11435;

/// How many ports after the first one are tried.
pub const DAEMON_PORT_SCAN_LIMIT: u16 = 12;

/// Whether a flag value turns the embedded daemon off: `1`, `true`, `yes`
/// or `on`, in any ASCII case, around white space.
pub open spec fn disables_daemon(value: Seq<char>) -> bool {
    let n = ascii_lowercase(trimmed(value));
    n == "1"@ || n == "true"@ || n == "yes"@ || n == "on"@
}

/// Whether the desktop shell starts its own daemon, given the value of the
/// variable that can turn it off (`None` where it is unset or not
/// Unicode).
pub fn should_bootstrap_embedded_daemon(disable_flag: Option<String>) -> (res: bool)
    ensures
        res == match disable_flag {
            Some(v) => !disables_daemon(v@),
            None => true,
        },
{
    match disable_flag {
        Some(value) => {
            let t = trim(value.as_str());
            let normalized = to_ascii_lowercase(t.as_str());
            let n = normalized.as_str();
            !(same_text(n, "1") || same_text(n, "true") || same_text(n, "yes") || same_text(
                n,
                "on",
            ))
        },
        None => true,
    }
}

/// A configured address, trimmed, where something is left of it.
pub open spec fn configured_text(value: Option<String>) -> Option<Seq<char>> {
    match value {
        Some(v) => if trimmed(v@).len() > 0 {
            Some(trimmed(v@))
        } else {
            None
        },
        None => None,
    }
}

/// The trimmed value of a variable where it is not blank.
pub fn configured(value: Option<String>) -> (res: Option<String>)
    ensures
        match res {
            Some(s) => configured_text(value) == Some(s@),
            None => configured_text(value) is None,
        },
{
    match value {
        Some(v) => {
            let t = trim(v.as_str());
            if t.as_str().is_empty() {
                None
            } else {
                Some(t)
            }
        },
        None => None,
    }
}

/// `host:port`.
pub open spec fn host_port_text(host: Seq<char>, port: u16) -> Seq<char> {
    host + ":"@ + decimal(port as nat)
}

/// `host:port`.
pub fn host_port(host: &str, port: u16) -> (res: String)
    ensures
        res@ == host_port_text(host@, port),
{
    let mut res = owned(host);
    append_str(&mut res, ":");
    push_decimal(&mut res, port as u128);
    res
}

/// The address of a socket the system bound: an IPv6 host goes in
/// brackets.
pub fn socket_addr_text(is_ipv6: bool, ip: &str, port: u16) -> (res: String)
    ensures
        res@ == host_port_text(
            if is_ipv6 {
                "["@ + ip@ + "]"@
            } else {
                ip@
            },
            port,
        ),
{
    if is_ipv6 {
        let mut host = owned("[");
        append_str(&mut host, ip);
        append_str(&mut host, "]");
        host_port(host.as_str(), port)
    } else {
        host_port(ip, port)
    }
}

/// The address used when nothing better is known.
pub fn default_bind_addr() -> (res: String)
    ensures
        res@ == host_port_text(DEFAULT_DAEMON_HOST@, DEFAULT_DAEMON_PORT),
{
    host_port(DEFAULT_DAEMON_HOST, DEFAULT_DAEMON_PORT)
}

/// One try at finding an address for the embedded daemon.
#[derive(Debug, Clone, Copy, PartialEq, Eq, Structural)]
pub enum BindAttempt {
    /// Bind this port on the default host.
    Port(u16),
    /// Bind any port the system picks on the default host.
    AnyPort,
    /// Give up and use the default address.
    Fallback,
}

/// The try after `k` failed ones: the ports from the default one on, then
/// a port of the system's choice, then the default address.
pub open spec fn attempt_after(k: nat) -> BindAttempt {
    if k <= DAEMON_PORT_SCAN_LIMIT {
        BindAttempt::Port((DEFAULT_DAEMON_PORT + k) as u16)
    } else if k == DAEMON_PORT_SCAN_LIMIT + 1 {
        BindAttempt::AnyPort
    } else {
        BindAttempt::Fallback
    }
}

/// The first try.
pub fn first_bind_attempt() -> (res: BindAttempt)
    ensures
        res == attempt_after(0),
{
    BindAttempt::Port(DEFAULT_DAEMON_PORT)
}

/// The try after `attempt` failed.
pub fn next_bind_attempt(attempt: BindAttempt) -> (res: BindAttempt)
    ensures
        match attempt {
            BindAttempt::Port(p) => if p < DEFAULT_DAEMON_PORT + DAEMON_PORT_SCAN_LIMIT {
                res == BindAttempt::Port((p + 1) as u16)
            } else {
                res == BindAttempt::AnyPort
            },
            _ => res == BindAttempt::Fallback,
        },
{
    match attempt {
        BindAttempt::Port(p) => if p < DEFAULT_DAEMON_PORT + DAEMON_PORT_SCAN_LIMIT {
            BindAttempt::Port(p + 1)
        } else {
            BindAttempt::AnyPort
        },
        _ => BindAttempt::Fallback,
    }
}

/// Each failed try leads to the next one in the scan.
pub proof fn lemma_bind_scan_order(k: nat)
    ensures
        match attempt_after(k) {
            BindAttempt::Port(p) => if p < DEFAULT_DAEMON_PORT + DAEMON_PORT_SCAN_LIMIT {
                attempt_after(k + 1) == BindAttempt::Port((p + 1) as u16)
            } else {
                attempt_after(k + 1) == BindAttempt::AnyPort
            },
            _ => attempt_after(k + 1) == BindAttempt::Fallback,
        },
{
}

/// The URL of a daemon at `bind_addr`.
pub open spec fn daemon_url_text(bind_addr: Seq<char>) -> Seq<char> {
    "http://"@ + bind_addr
}

/// The URL of a daemon at `bind_addr`.
pub fn daemon_url_for(bind_addr: &str) -> (res: String)
    ensures
        res@ == daemon_url_text(bind_addr@),
{
    let mut res = owned("http://");
    append_str(&mut res, bind_addr);
    res
}

/// Where the daemon URL comes from.
#[derive(Debug)]
pub enum DaemonUrlChoice {
    /// The URL already settled.
    Cached(String),
    /// The URL the environment gives; it is to be remembered.
    FromUrlEnv(String),
    /// The URL of a daemon at this address; it is to be stored.
    FromBindAddr(String),
}

/// Settles the daemon URL: the one already settled, else the URL variable,
/// else the bind address variable, else the default address.
pub fn choose_daemon_url(
    cached: Option<String>,
    url_env: Option<String>,
    bind_env: Option<String>,
) -> (res: DaemonUrlChoice)
    ensures
        match cached {
            Some(u) => res matches DaemonUrlChoice::Cached(c) && c@ == u@,
            None => match configured_text(url_env) {
                Some(u) => res matches DaemonUrlChoice::FromUrlEnv(c) && c@ == u,
                None => match configured_text(bind_env) {
                    Some(a) => res matches DaemonUrlChoice::FromBindAddr(b) && b@ == a,
                    None => res matches DaemonUrlChoice::FromBindAddr(b) && b@ == host_port_text(
                        DEFAULT_DAEMON_HOST@,
                        DEFAULT_DAEMON_PORT,
                    ),
                },
            },
        },
{
    if let Some(url) = cached {
        return DaemonUrlChoice::Cached(url);
    }
    if let Some(url) = configured(url_env) {
        return DaemonUrlChoice::FromUrlEnv(url);
    }
    if let Some(addr) = configured(bind_env) {
        return DaemonUrlChoice::FromBindAddr(addr);
    }
    DaemonUrlChoice::FromBindAddr(default_bind_addr())
}

/// The URL a choice leads to.
pub open spec fn choice_url(choice: DaemonUrlChoice) -> Seq<char> {
    match choice {
        DaemonUrlChoice::Cached(u) => u@,
        DaemonUrlChoice::FromUrlEnv(u) => u@,
        DaemonUrlChoice::FromBindAddr(a) => daemon_url_text(a@),
    }
}

/// The daemon URL given what is settled and the two variables: the settled
/// one, else the URL variable, else the URL of the bind address variable,
/// else that of the default address.
pub open spec fn current_url_of(
    cached: Option<Seq<char>>,
    url_env: Option<String>,
    bind_env: Option<String>,
) -> Seq<char> {
    match cached {
        Some(c) => c,
        None => match configured_text(url_env) {
            Some(u) => u,
            None => daemon_url_text(
                match configured_text(bind_env) {
                    Some(a) => a,
                    None => host_port_text(DEFAULT_DAEMON_HOST@, DEFAULT_DAEMON_PORT),
                },
            ),
        },
    }
}

/// What remembering `url` leaves settled: the URL settled before, if any.
pub open spec fn kept_url(cached: Option<Seq<char>>, url: Seq<char>) -> Option<Seq<char>> {
    match cached {
        Some(c) => Some(c),
        None => Some(url),
    }
}

/// The daemon URL once it is settled; it is settled at most once.
#[derive(Debug)]
pub struct DaemonUrlCache {
    url: Option<String>,
}

impl View for DaemonUrlCache {
    type V = Option<Seq<char>>;

    /// The settled URL, if any.
    closed spec fn view(&self) -> Option<Seq<char>> {
        match self.url {
            Some(u) => Some(u@),
            None => None,
        }
    }
}

impl DaemonUrlCache {
    /// A cache with nothing settled.
    pub fn new() -> (res: Self)
        ensures
            res@ is None,
    {
        DaemonUrlCache { url: None }
    }

    /// The settled URL, if any.
    pub fn get(&self) -> (res: Option<String>)
        ensures
            match res {
                Some(u) => self@ == Some(u@),
                None => self@ is None,
            },
    {
        match &self.url {
            Some(u) => Some(u.clone()),
            None => None,
        }
    }

    /// Settles `url` where nothing is settled yet; a settled URL stays.
    pub fn remember(&mut self, url: String)
        ensures
            final(self)@ == kept_url(old(self)@, url@),
    {
        if self.url.is_none() {
            self.url = Some(url);
        }
    }

    /// Settles the daemon URL (see `choose_daemon_url`) and remembers it:
    /// the choice leads to the URL that is settled afterwards.
    pub fn current(&mut self, url_env: Option<String>, bind_env: Option<String>) -> (res:
        DaemonUrlChoice)
        ensures
            match old(self)@ {
                Some(c) => res matches DaemonUrlChoice::Cached(u) && u@ == c,
                None => !(res is Cached),
            },
            choice_url(res) == current_url_of(old(self)@, url_env, bind_env),
            final(self)@ == Some(current_url_of(old(self)@, url_env, bind_env)),
    {
        let choice = choose_daemon_url(self.get(), url_env, bind_env);
        match &choice {
            DaemonUrlChoice::Cached(_) => {},
            DaemonUrlChoice::FromUrlEnv(u) => self.remember(u.clone()),
            DaemonUrlChoice::FromBindAddr(a) => self.remember(daemon_url_for(a.as_str())),
        }
        choice
    }
}

/// Once the daemon URL is settled it stays: remembering another URL keeps
/// it, and any later call, whatever the variables then hold, gives it back.
pub proof fn lemma_daemon_url_stays(
    cached: Option<Seq<char>>,
    url_env: Option<String>,
    bind_env: Option<String>,
    other: Seq<char>,
    later_url_env: Option<String>,
    later_bind_env: Option<String>,
)
    ensures
        ({
            let u = current_url_of(cached, url_env, bind_env);
            &&& kept_url(Some(u), other) == Some(u)
            &&& current_url_of(Some(u), later_url_env, later_bind_env) == u
        }),
{
}

/// The script text before the URL.
pub open spec fn script_head() -> Seq<char> {
    "\n        window.__MLX_PILOT_DAEMON_URL__ = "@
}

/// The script text after the URL.
pub open spec fn script_tail() -> Seq<char> {
    ";\n        try {\n          localStorage.setItem(\"mlxPilotDaemonUrl\", window.__MLX_PILOT_DAEMON_URL__);\n        } catch (_error) {}\n        window.dispatchEvent(new CustomEvent(\"mlx-pilot-daemon-ready\", {\n          detail: { url: window.__MLX_PILOT_DAEMON_URL__ }\n        }));\n        "@
}

/// The script with `quoted` as the URL's JSON string, or an empty JSON
/// string where serialization failed.
pub fn bootstrap_script_with(quoted: Result<String, serde_json::Error>) -> (res: String)
    ensures
        res@ == script_head() + (match quoted {
            Ok(q) => q@,
            Err(_) => "\"\""@,
        }) + script_tail(),
{
    let quoted = match quoted {
        Ok(q) => q,
        Err(_) => owned("\"\""),
    };
    let mut res = owned("\n        window.__MLX_PILOT_DAEMON_URL__ = ");
    append_str(&mut res, quoted.as_str());
    append_str(
        &mut res,
        ";\n        try {\n          localStorage.setItem(\"mlxPilotDaemonUrl\", window.__MLX_PILOT_DAEMON_URL__);\n        } catch (_error) {}\n        window.dispatchEvent(new CustomEvent(\"mlx-pilot-daemon-ready\", {\n          detail: { url: window.__MLX_PILOT_DAEMON_URL__ }\n        }));\n        ",
    );
    res
}

/// The script that gives the page the daemon URL: it sets the global,
/// keeps the URL in local storage and announces it with an event. The URL
/// is written as a JSON string (an empty one where serde_json fails).
pub fn daemon_bootstrap_script(daemon_url: &str) -> (res: String)
    ensures
        res@ == script_head() + json_quoted(daemon_url@) + script_tail(),
{
    bootstrap_script_with(quote_json(daemon_url))
}

} // verus!
