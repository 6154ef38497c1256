//! The runtime and its configuration, its errors, the status check and
//! the shape of CLI calls.
use vstd::prelude::*;
use crate::json::JsonDoc;
use crate::text::{append_str, decimal, join, joined, lemma_decimal_injective, lemma_decimal_shape, owned, push_decimal, same_text};

verus! {

/// How the runtime reaches the OpenClaw CLI and where its logs are.
#[derive(Debug, Clone)]
pub struct OpenClawRuntimeConfig {
    pub node_command: String,
    pub cli_path: String,
    pub state_dir: String,
    pub gateway_token: String,
    pub session_key: String,
    /// The default time a chat may take, in milliseconds.
    pub timeout_ms: u64,
    pub gateway_log: String,
    pub error_log: String,
    pub sync_log: String,
}

/// The bridge to one OpenClaw installation.
#[derive(Debug, Clone)]
pub struct OpenClawRuntime {
    cfg: OpenClawRuntimeConfig,
}

/// Why an OpenClaw request failed.
#[derive(Debug)]
pub enum OpenClawError {
    BadRequest(String),
    Io { context: String, source: String },
    CommandFailed { command: String, stderr: String },
    Parse { details: String },
    Timeout { seconds: u64 },
}

/// The text of an error, as its `Display` writes it.
pub open spec fn error_text(e: OpenClawError) -> Seq<char> {
    match e {
        OpenClawError::BadRequest(message) => message@,
        OpenClawError::Io { context, source } => context@ + ": "@ + source@,
        OpenClawError::CommandFailed { command, stderr } => "comando falhou ("@ + command@
            + "): "@ + stderr@,
        OpenClawError::Parse { details } => details@,
        OpenClawError::Timeout { seconds } => "operacao expirou apos "@ + decimal(seconds as nat)
            + "s"@,
    }
}

impl OpenClawError {
    /// The text of the error (what its `Display` writes).
    pub fn message(&self) -> (res: String)
        ensures
            res@ == error_text(*self),
    {
        match self {
            OpenClawError::BadRequest(message) => message.clone(),
            OpenClawError::Io { context, source } => {
                let mut res = context.clone();
                append_str(&mut res, ": ");
                append_str(&mut res, source.as_str());
                res
            },
            OpenClawError::CommandFailed { command, stderr } => {
                let mut res = owned("comando falhou (");
                append_str(&mut res, command.as_str());
                append_str(&mut res, "): ");
                append_str(&mut res, stderr.as_str());
                res
            },
            OpenClawError::Parse { details } => details.clone(),
            OpenClawError::Timeout { seconds } => {
                let mut res = owned("operacao expirou apos ");
                push_decimal(&mut res, *seconds as u128);
                append_str(&mut res, "s");
                res
            },
        }
    }
}

/// The three log streams.
#[derive(Debug, Clone, Copy, PartialEq, Eq, Structural)]
pub enum LogStream {
    Gateway,
    Error,
    Sync,
}

/// The log stream called `stream`, if there is one.
pub open spec fn log_stream_named(stream: Seq<char>) -> Option<LogStream> {
    if stream == "gateway"@ {
        Some(LogStream::Gateway)
    } else if stream == "error"@ {
        Some(LogStream::Error)
    } else if stream == "sync"@ {
        Some(LogStream::Sync)
    } else {
        None
    }
}

/// The configured file of a log stream (as text).
pub open spec fn log_file_of(cfg: OpenClawRuntimeConfig, log: LogStream) -> Seq<char> {
    match log {
        LogStream::Gateway => cfg.gateway_log@,
        LogStream::Error => cfg.error_log@,
        LogStream::Sync => cfg.sync_log@,
    }
}

/// The log file that serves `stream`, if the stream is one of the three
/// that exist.
pub open spec fn log_path_for(cfg: OpenClawRuntimeConfig, stream: Seq<char>) -> Option<Seq<char>> {
    match log_stream_named(stream) {
        Some(log) => Some(log_file_of(cfg, log)),
        None => None,
    }
}

/// The log stream called `stream`: `gateway`, `error` or `sync`.
pub fn log_stream_of(stream: &str) -> (res: Option<LogStream>)
    ensures
        res == log_stream_named(stream@),
{
    if same_text(stream, "gateway") {
        Some(LogStream::Gateway)
    } else if same_text(stream, "error") {
        Some(LogStream::Error)
    } else if same_text(stream, "sync") {
        Some(LogStream::Sync)
    } else {
        None
    }
}

/// The error for a stream that does not exist.
pub fn bad_stream_error() -> (res: OpenClawError)
    ensures
        is_bad_stream_error(res),
{
    OpenClawError::BadRequest(owned("stream invalido: use gateway, error ou sync"))
}

/// The error for a stream that does not exist.
pub open spec fn is_bad_stream_error(e: OpenClawError) -> bool {
    e matches OpenClawError::BadRequest(m) && m@ == "stream invalido: use gateway, error ou sync"@
}

impl OpenClawRuntime {
    /// A runtime over `cfg`.
    pub fn new(cfg: OpenClawRuntimeConfig) -> (res: Self)
        ensures
            res.config() == cfg,
    {
        Self { cfg }
    }

    /// The configuration the runtime was made with.
    pub closed spec fn config(&self) -> OpenClawRuntimeConfig {
        self.cfg
    }

    /// The configuration the runtime was made with.
    pub fn cfg(&self) -> (res: &OpenClawRuntimeConfig)
        ensures
            *res == self.config(),
    {
        &self.cfg
    }

    /// The log file of `stream`: `gateway`, `error` or `sync`; any other
    /// stream is a bad request.
    pub fn resolve_log_path(&self, stream: &str) -> (res: Result<String, OpenClawError>)
        ensures
            match log_path_for(self.config(), stream@) {
                Some(path) => res matches Ok(p) && p@ == path,
                None => res matches Err(e) && is_bad_stream_error(e),
            },
    {
        match log_stream_of(stream) {
            Some(log) => Ok(self.log_file(log)),
            None => Err(bad_stream_error()),
        }
    }

    /// The configured file of a log stream (as text).
    pub fn log_file(&self, log: LogStream) -> (res: String)
        ensures
            res@ == log_file_of(self.config(), log),
    {
        match log {
            LogStream::Gateway => self.cfg.gateway_log.clone(),
            LogStream::Error => self.cfg.error_log.clone(),
            LogStream::Sync => self.cfg.sync_log.clone(),
        }
    }
}

/// `x` held within `lo..=hi` (`Ord::clamp`).
pub open spec fn clamp(x: int, lo: int, hi: int) -> int {
    if x < lo {
        lo
    } else if x > hi {
        hi
    } else {
        x
    }
}

/// The arguments of one CLI call and the time it may take.
#[derive(Debug)]
pub struct CommandRequest {
    pub args: Vec<String>,
    pub timeout_ms: u64,
}

/// Whether the OpenClaw gateway answers, and where its parts are.
#[derive(Debug)]
pub struct OpenClawStatusResponse {
    pub available: bool,
    pub cli_path: String,
    pub state_dir: String,
    pub session_key: String,
    pub gateway_log: String,
    pub error_log: String,
    pub sync_log: String,
    pub health: Option<JsonDoc>,
    pub error: Option<String>,
}

/// The status response describes the paths and session of `cfg`.
pub open spec fn status_describes(r: OpenClawStatusResponse, cfg: OpenClawRuntimeConfig) -> bool {
    &&& r.cli_path@ == cfg.cli_path@
    &&& r.state_dir@ == cfg.state_dir@
    &&& r.session_key@ == cfg.session_key@
    &&& r.gateway_log@ == cfg.gateway_log@
    &&& r.error_log@ == cfg.error_log@
    &&& r.sync_log@ == cfg.sync_log@
}

/// The arguments of the health call.
pub open spec fn health_args() -> Seq<Seq<char>> {
    seq!["gateway"@, "call"@, "--json"@, "health"@]
}

/// How a CLI call is shown in errors: program, CLI path and arguments.
pub open spec fn command_preview_text(cfg: OpenClawRuntimeConfig, args: Seq<Seq<char>>) -> Seq<char> {
    cfg.node_command@ + " "@ + cfg.cli_path@ + " "@ + joined(args, " "@)
}

impl OpenClawRuntime {
    /// The health call of the status check: twelve seconds at most.
    pub fn status_command() -> (res: CommandRequest)
        ensures
            res.args.deep_view() == health_args(),
            res.timeout_ms == 12000,
    {
        let args = vec![owned("gateway"), owned("call"), owned("--json"), owned("health")];
        assert(args.deep_view() =~= health_args());
        CommandRequest { args, timeout_ms: 12000 }
    }

    fn status_base(&self) -> (res: OpenClawStatusResponse)
        ensures
            res.cli_path@ == self.config().cli_path@ && res.state_dir@ == self.config().state_dir@,
            res.session_key@ == self.config().session_key@ && res.sync_log@ == self.config().sync_log@,
            res.gateway_log@ == self.config().gateway_log@ && res.error_log@ == self.config().error_log@,
            status_describes(res, self.config()),
            !res.available,
            res.health is None,
            res.error is None,
    {
        OpenClawStatusResponse {
            available: false,
            cli_path: self.cfg.cli_path.clone(),
            state_dir: self.cfg.state_dir.clone(),
            session_key: self.cfg.session_key.clone(),
            gateway_log: self.cfg.gateway_log.clone(),
            error_log: self.cfg.error_log.clone(),
            sync_log: self.cfg.sync_log.clone(),
            health: None,
            error: None,
        }
    }

    /// The status where the CLI is not installed at its path.
    pub fn status_cli_missing(&self) -> (res: OpenClawStatusResponse)
        ensures
            res.cli_path@ == self.config().cli_path@ && res.state_dir@ == self.config().state_dir@,
            res.session_key@ == self.config().session_key@ && res.sync_log@ == self.config().sync_log@,
            res.gateway_log@ == self.config().gateway_log@ && res.error_log@ == self.config().error_log@,
            status_describes(res, self.config()),
            !res.available,
            res.health is None,
            res.error matches Some(m) && m@ == "openclaw cli nao encontrado em "@
                + self.config().cli_path@,
    {
        let mut res = self.status_base();
        let mut message = owned("openclaw cli nao encontrado em ");
        append_str(&mut message, self.cfg.cli_path.as_str());
        res.error = Some(message);
        res
    }

    /// The status after the health call: available with the health report
    /// where the call answered, else unavailable with the error's text.
    pub fn status_with_health(&self, health: Result<JsonDoc, OpenClawError>) -> (res:
        OpenClawStatusResponse)
        ensures
            res.cli_path@ == self.config().cli_path@ && res.state_dir@ == self.config().state_dir@,
            res.session_key@ == self.config().session_key@ && res.sync_log@ == self.config().sync_log@,
            res.gateway_log@ == self.config().gateway_log@ && res.error_log@ == self.config().error_log@,
            status_describes(res, self.config()),
            match health {
                Ok(doc) => {
                    &&& res.available
                    &&& res.health == Some(doc)
                    &&& res.error is None
                },
                Err(e) => {
                    &&& !res.available
                    &&& res.health is None
                    &&& res.error matches Some(m) && m@ == error_text(e)
                },
            },
    {
        let mut res = self.status_base();
        match health {
            Ok(doc) => {
                res.available = true;
                res.health = Some(doc);
            },
            Err(error) => {
                res.error = Some(error.message());
            },
        }
        res
    }

    /// How a CLI call with `args` is shown in errors.
    pub fn command_preview(&self, args: &Vec<String>) -> (res: String)
        ensures
            res@ == command_preview_text(self.config(), args.deep_view()),
    {
        let mut res = self.cfg.node_command.clone();
        append_str(&mut res, " ");
        append_str(&mut res, self.cfg.cli_path.as_str());
        append_str(&mut res, " ");
        let rest = join(args, " ");
        append_str(&mut res, rest.as_str());
        res
    }
}

/// The error of a CLI call that outlived its time: the limit in whole
/// seconds, at least one.
pub fn timeout_error(timeout_limit_ms: u64) -> (res: OpenClawError)
    ensures
        res matches OpenClawError::Timeout { seconds } && seconds == (if timeout_limit_ms / 1000
            < 1 {
            1
        } else {
            timeout_limit_ms / 1000
        }),
{
    let secs = timeout_limit_ms / 1000;
    OpenClawError::Timeout {
        seconds: if secs < 1 {
            1
        } else {
            secs
        },
    }
}

/// The error of a CLI call that could not be started.
pub fn spawn_error(command_preview: &str, source: String) -> (res: OpenClawError)
    ensures
        res matches OpenClawError::Io { context, source: s } && context@ == "falha executando "@
            + command_preview@ && s@ == source@,
{
    let mut context = owned("falha executando ");
    append_str(&mut context, command_preview);
    OpenClawError::Io { context, source }
}

/// The idempotency key made of a time in milliseconds and a request count.
pub open spec fn idempotency_key_text(millis: nat, counter: nat) -> Seq<char> {
    "mlx-pilot-openclaw-"@ + decimal(millis) + "-"@ + decimal(counter)
}

/// An idempotency key from the time in milliseconds since the Unix epoch
/// and the number of the request.
pub fn generate_idempotency_key(millis: u128, counter: u64) -> (res: String)
    ensures
        res@ == idempotency_key_text(millis as nat, counter as nat),
{
    let mut key = owned("mlx-pilot-openclaw-");
    push_decimal(&mut key, millis);
    append_str(&mut key, "-");
    push_decimal(&mut key, counter as u128);
    key
}

/// Different times or request numbers give different idempotency keys.
pub proof fn lemma_idempotency_keys_distinct(m1: nat, c1: nat, m2: nat, c2: nat)
    requires
        idempotency_key_text(m1, c1) == idempotency_key_text(m2, c2),
    ensures
        m1 == m2,
        c1 == c2,
{
    reveal_strlit("-");
    let p = "mlx-pilot-openclaw-"@;
    let d1 = decimal(m1);
    let d2 = decimal(m2);
    let e1 = decimal(c1);
    let e2 = decimal(c2);
    let r1 = d1 + "-"@ + e1;
    let r2 = d2 + "-"@ + e2;
    let k1 = idempotency_key_text(m1, c1);
    let k2 = idempotency_key_text(m2, c2);
    assert(k1 =~= p + r1);
    assert(k2 =~= p + r2);
    assert(r1 =~= k1.subrange(p.len() as int, k1.len() as int));
    assert(r2 =~= k2.subrange(p.len() as int, k2.len() as int));
    assert(r1 == r2);
    lemma_decimal_shape(m1);
    lemma_decimal_shape(m2);
    lemma_decimal_shape(c1);
    lemma_decimal_shape(c2);
    if d1.len() < d2.len() {
        assert(r1[d1.len() as int] == '-');
        assert(r2[d1.len() as int] == d2[d1.len() as int]);
        assert(48 <= d2[d1.len() as int] as u32 <= 57);
        assert(false);
    }
    if d2.len() < d1.len() {
        assert(r2[d2.len() as int] == '-');
        assert(r1[d2.len() as int] == d1[d2.len() as int]);
        assert(48 <= d1[d2.len() as int] as u32 <= 57);
        assert(false);
    }
    assert(d1 =~= r1.subrange(0, d1.len() as int));
    assert(d2 =~= r2.subrange(0, d2.len() as int));
    assert(e1 =~= r1.subrange(d1.len() as int + 1, r1.len() as int));
    assert(e2 =~= r2.subrange(d2.len() as int + 1, r2.len() as int));
    lemma_decimal_injective(m1, m2);
    lemma_decimal_injective(c1, c2);
}

/// The request number `k` takes after `start`, counting on from `start`
/// and wrapping past `u64::MAX` to 0.
pub open spec fn counter_after(start: u64, k: nat) -> u64 {
    ((start as nat + k) % 0x1_0000_0000_0000_0000nat) as u64
}

/// Hands out the numbers that tell requests apart: 1, 2, 3, and so on.
#[derive(Debug)]
pub struct RequestCounter {
    next: u64,
}

impl RequestCounter {
    /// The number the counter hands out next.
    pub closed spec fn next_number(&self) -> u64 {
        self.next
    }

    /// A counter that starts at 1.
    pub fn new() -> (res: Self)
        ensures
            res.next_number() == 1,
    {
        RequestCounter { next: 1 }
    }

    /// Hands out the next number and moves on by one (wrapping).
    pub fn take(&mut self) -> (res: u64)
        ensures
            res == old(self).next_number(),
            final(self).next_number() == counter_after(old(self).next_number(), 1),
    {
        let n = self.next;
        self.next = if n == u64::MAX {
            0
        } else {
            n + 1
        };
        n
    }

    /// The idempotency key of a request made at `millis`, with the next
    /// request number.
    pub fn next_idempotency_key(&mut self, millis: u128) -> (res: String)
        ensures
            res@ == idempotency_key_text(millis as nat, old(self).next_number() as nat),
            final(self).next_number() == counter_after(old(self).next_number(), 1),
    {
        let counter = self.take();
        generate_idempotency_key(millis, counter)
    }
}

/// Taking one more number after `k` of them moves the counter on by one.
pub proof fn lemma_counter_after_step(start: u64, k: nat)
    ensures
        counter_after(counter_after(start, k), 1) == counter_after(start, k + 1),
{
    let m = 0x1_0000_0000_0000_0000nat;
    let a = (start as nat + k) % m;
    assert((a + 1) % m == (start as nat + k + 1) % m) by (nonlinear_arith)
        requires
            a == (start as nat + k) % m,
            m > 0,
    ;
}

/// Keys made with numbers of the same counter differ, whatever the times,
/// where fewer than 2^64 numbers were taken from the first to the second.
pub proof fn lemma_counter_keys_distinct(start: u64, k: nat, m1: nat, m2: nat)
    requires
        0 < k < 0x1_0000_0000_0000_0000nat,
    ensures
        idempotency_key_text(m1, start as nat) != idempotency_key_text(
            m2,
            counter_after(start, k) as nat,
        ),
{
    let m = 0x1_0000_0000_0000_0000nat;
    assert(((start as nat + k) % m) != start as nat) by (nonlinear_arith)
        requires
            0 < k < m,
            start < m,
    ;
    if idempotency_key_text(m1, start as nat) == idempotency_key_text(
        m2,
        counter_after(start, k) as nat,
    ) {
        lemma_idempotency_keys_distinct(m1, start as nat, m2, counter_after(start, k) as nat);
    }
}

/// The `gateway` stream reads the configured gateway log, `error` the error
/// log and `sync` the sync log.
pub proof fn lemma_log_streams(cfg: OpenClawRuntimeConfig)
    ensures
        log_path_for(cfg, "gateway"@) == Some(cfg.gateway_log@),
        log_path_for(cfg, "error"@) == Some(cfg.error_log@),
        log_path_for(cfg, "sync"@) == Some(cfg.sync_log@),
        log_stream_named("gateway"@) == Some(LogStream::Gateway),
        log_stream_named("error"@) == Some(LogStream::Error),
        log_stream_named("sync"@) == Some(LogStream::Sync),
{
    reveal_strlit("gateway");
    reveal_strlit("error");
    reveal_strlit("sync");
    assert("error"@.len() != "gateway"@.len());
    assert("sync"@.len() != "gateway"@.len());
    assert("sync"@.len() != "error"@.len());
}

/// A status response that describes a configuration reports each of its
/// paths and its session key in the field of the same name.
pub proof fn lemma_status_fields(r: OpenClawStatusResponse, cfg: OpenClawRuntimeConfig)
    requires
        status_describes(r, cfg),
    ensures
        r.cli_path@ == cfg.cli_path@,
        r.state_dir@ == cfg.state_dir@,
        r.session_key@ == cfg.session_key@,
        r.gateway_log@ == cfg.gateway_log@,
        r.error_log@ == cfg.error_log@,
        r.sync_log@ == cfg.sync_log@,
{
}

} // verus!
