//! Broker configuration: the settings read from the broker's TOML file and
//! the rules a configuration must meet before the broker starts.
//!
//! Durations are held in milliseconds. Paths and socket addresses are held as
//! the text the file gave; reading and parsing them is the caller's part.
use vstd::prelude::*;

use crate::port_forward::limits::{limits_error_text, spec_limits_validate, BrokerPortForwardLimits};
use crate::text::{has_prefix, lemma_seq_lt_is_strict_total_order, seq_lt, starts_with, str_eq, str_lt};

verus! {

/// A check: `Ok` when `ok` holds, else the error `msg`.
pub open spec fn ensure(ok: bool, msg: Seq<char>) -> Result<(), Seq<char>> {
    if ok {
        Ok(())
    } else {
        Err(msg)
    }
}

/// The first of two checks that fails, or `Ok` when neither does.
pub open spec fn chain(first: Result<(), Seq<char>>, second: Result<(), Seq<char>>) -> Result<(), Seq<char>> {
    match first {
        Err(e) => Err(e),
        Ok(_) => second,
    }
}

/// A check's outcome with its message taken as text.
pub open spec fn outcome(r: Result<(), String>) -> Result<(), Seq<char>> {
    match r {
        Ok(_) => Ok(()),
        Err(e) => Err(e@),
    }
}

/// Name under which the broker host itself is addressed.
pub open spec fn local_target_name() -> Seq<char> {
    "local"@
}

pub const DEFAULT_TARGET_HEALTHY_REFRESH_INTERVAL_MS: u64 = 60000;
pub const DEFAULT_TARGET_UNHEALTHY_REFRESH_INTERVAL_MS: u64 = 15000;
pub const DEFAULT_TARGET_CONNECT_TIMEOUT_MS: u64 = 5000;
pub const DEFAULT_TARGET_READ_TIMEOUT_MS: u64 = 310000;
pub const DEFAULT_TARGET_REQUEST_TIMEOUT_MS: u64 = 310000;
pub const DEFAULT_TARGET_STARTUP_PROBE_TIMEOUT_MS: u64 = 5000;

pub fn default_allow_login_shell() -> (res: bool)
    ensures
        res,
{
    true
}

pub fn default_enable_transfer_compression() -> (res: bool)
    ensures
        res,
{
    true
}

pub fn default_reverse_registration_timeout_ms() -> (res: u64)
    ensures
        res == 5000,
{
    5000
}

pub fn default_reverse_lane_wait_timeout_ms() -> (res: u64)
    ensures
        res == 30000,
{
    30000
}

pub fn default_reverse_max_connections() -> (res: usize)
    ensures
        res == 1024,
{
    1024
}

pub fn default_file_tool_read_limit_lines() -> (res: u64)
    ensures
        res == 2000,
{
    2000
}

pub fn default_file_tool_max_read_limit_lines() -> (res: u64)
    ensures
        res == 20000,
{
    20000
}

pub fn default_file_tool_max_read_bytes() -> (res: u64)
    ensures
        res == 4 * 1024 * 1024,
{
    4 * 1024 * 1024
}

pub fn default_target_connect_timeout_ms() -> (res: u64)
    ensures
        res == DEFAULT_TARGET_CONNECT_TIMEOUT_MS,
{
    DEFAULT_TARGET_CONNECT_TIMEOUT_MS
}

pub fn default_target_read_timeout_ms() -> (res: u64)
    ensures
        res == DEFAULT_TARGET_READ_TIMEOUT_MS,
{
    DEFAULT_TARGET_READ_TIMEOUT_MS
}

pub fn default_target_request_timeout_ms() -> (res: u64)
    ensures
        res == DEFAULT_TARGET_REQUEST_TIMEOUT_MS,
{
    DEFAULT_TARGET_REQUEST_TIMEOUT_MS
}

pub fn default_target_healthy_health_refresh_interval_ms() -> (res: u64)
    ensures
        res == DEFAULT_TARGET_HEALTHY_REFRESH_INTERVAL_MS,
{
    DEFAULT_TARGET_HEALTHY_REFRESH_INTERVAL_MS
}

pub fn default_target_unhealthy_health_refresh_interval_ms() -> (res: u64)
    ensures
        res == DEFAULT_TARGET_UNHEALTHY_REFRESH_INTERVAL_MS,
{
    DEFAULT_TARGET_UNHEALTHY_REFRESH_INTERVAL_MS
}

pub fn default_target_startup_probe_timeout_ms() -> (res: u64)
    ensures
        res == DEFAULT_TARGET_STARTUP_PROBE_TIMEOUT_MS,
{
    DEFAULT_TARGET_STARTUP_PROBE_TIMEOUT_MS
}

pub fn default_streamable_http_path() -> (res: String)
    ensures
        res@ == "/mcp"@,
{
    String::from_str("/mcp")
}

pub fn default_streamable_http_stateful() -> (res: bool)
    ensures
        res,
{
    true
}

// ---------------------------------------------------------------- file tools

/// Which file tools the broker offers and how much a read may return.
#[derive(Debug, Clone, Copy, PartialEq, Eq, Structural)]
pub struct FileToolConfig {
    pub read: bool,
    pub write: bool,
    pub edit: bool,
    pub default_read_limit_lines: u64,
    pub max_read_limit_lines: u64,
    pub max_read_bytes: u64,
}

pub open spec fn spec_file_tool_validate(c: FileToolConfig) -> Result<(), Seq<char>> {
    chain(
        ensure(c.default_read_limit_lines > 0, "tools.file.default_read_limit_lines must be greater than zero"@),
        chain(
            ensure(c.max_read_limit_lines > 0, "tools.file.max_read_limit_lines must be greater than zero"@),
            chain(
                ensure(
                    c.default_read_limit_lines <= c.max_read_limit_lines,
                    "tools.file.default_read_limit_lines must be less than or equal to tools.file.max_read_limit_lines"@,
                ),
                ensure(c.max_read_bytes > 0, "tools.file.max_read_bytes must be greater than zero"@),
            ),
        ),
    )
}

impl Default for FileToolConfig {
    /// All file tools off, with the default read limits, which validate.
    fn default() -> (res: Self)
        ensures
            !res.read && !res.write && !res.edit,
            res.default_read_limit_lines == 2000,
            res.max_read_limit_lines == 20000,
            res.max_read_bytes == 4 * 1024 * 1024,
            spec_file_tool_validate(res) == Ok::<(), Seq<char>>(()),
    {
        FileToolConfig {
            read: false,
            write: false,
            edit: false,
            default_read_limit_lines: default_file_tool_read_limit_lines(),
            max_read_limit_lines: default_file_tool_max_read_limit_lines(),
            max_read_bytes: default_file_tool_max_read_bytes(),
        }
    }
}

impl FileToolConfig {
    pub fn validate(&self) -> (res: Result<(), String>)
        ensures
            outcome(res) == spec_file_tool_validate(*self),
    {
        if self.default_read_limit_lines == 0 {
            return Err(String::from_str("tools.file.default_read_limit_lines must be greater than zero"));
        }
        if self.max_read_limit_lines == 0 {
            return Err(String::from_str("tools.file.max_read_limit_lines must be greater than zero"));
        }
        if self.default_read_limit_lines > self.max_read_limit_lines {
            return Err(String::from_str(
                "tools.file.default_read_limit_lines must be less than or equal to tools.file.max_read_limit_lines",
            ));
        }
        if self.max_read_bytes == 0 {
            return Err(String::from_str("tools.file.max_read_bytes must be greater than zero"));
        }
        Ok(())
    }
}

/// The broker's tool settings.
#[derive(Debug, Clone, Copy, PartialEq, Eq, Structural)]
pub struct BrokerToolsConfig {
    pub file: FileToolConfig,
}

impl BrokerToolsConfig {
    pub fn validate(&self) -> (res: Result<(), String>)
        ensures
            outcome(res) == spec_file_tool_validate(self.file),
    {
        self.file.validate()
    }
}

// ------------------------------------------------------------ health refresh

/// How often the broker probes targets, healthy and unhealthy.
#[derive(Debug, Clone, Copy, PartialEq, Eq, Structural)]
pub struct BrokerHealthRefreshConfig {
    pub healthy_interval_ms: u64,
    pub unhealthy_interval_ms: u64,
}

pub open spec fn spec_health_refresh_validate(c: BrokerHealthRefreshConfig) -> Result<(), Seq<char>> {
    chain(
        ensure(c.healthy_interval_ms > 0, "health_refresh.healthy_interval_ms must be greater than zero"@),
        ensure(c.unhealthy_interval_ms > 0, "health_refresh.unhealthy_interval_ms must be greater than zero"@),
    )
}

/// The value given for one interval, else the shared `interval_ms`, else the default.
pub open spec fn interval_or(own: Option<u64>, shared: Option<u64>, default: u64) -> u64 {
    match own {
        Some(v) => v,
        None => match shared {
            Some(v) => v,
            None => default,
        },
    }
}

impl Default for BrokerHealthRefreshConfig {
    fn default() -> (res: Self)
        ensures
            res.healthy_interval_ms == DEFAULT_TARGET_HEALTHY_REFRESH_INTERVAL_MS,
            res.unhealthy_interval_ms == DEFAULT_TARGET_UNHEALTHY_REFRESH_INTERVAL_MS,
            spec_health_refresh_validate(res) == Ok::<(), Seq<char>>(()),
    {
        BrokerHealthRefreshConfig {
            healthy_interval_ms: default_target_healthy_health_refresh_interval_ms(),
            unhealthy_interval_ms: default_target_unhealthy_health_refresh_interval_ms(),
        }
    }
}

impl BrokerHealthRefreshConfig {
    /// The settings as the file gave them: each interval on its own, or the
    /// shared `interval_ms` for both, or the defaults.
    pub fn from_file_fields(
        healthy_interval_ms: Option<u64>,
        unhealthy_interval_ms: Option<u64>,
        interval_ms: Option<u64>,
    ) -> (res: Self)
        ensures
            res.healthy_interval_ms == interval_or(healthy_interval_ms, interval_ms, DEFAULT_TARGET_HEALTHY_REFRESH_INTERVAL_MS),
            res.unhealthy_interval_ms == interval_or(unhealthy_interval_ms, interval_ms, DEFAULT_TARGET_UNHEALTHY_REFRESH_INTERVAL_MS),
    {
        let healthy = match healthy_interval_ms {
            Some(v) => v,
            None => match interval_ms {
                Some(v) => v,
                None => default_target_healthy_health_refresh_interval_ms(),
            },
        };
        let unhealthy = match unhealthy_interval_ms {
            Some(v) => v,
            None => match interval_ms {
                Some(v) => v,
                None => default_target_unhealthy_health_refresh_interval_ms(),
            },
        };
        BrokerHealthRefreshConfig { healthy_interval_ms: healthy, unhealthy_interval_ms: unhealthy }
    }

    pub fn validate(&self) -> (res: Result<(), String>)
        ensures
            outcome(res) == spec_health_refresh_validate(*self),
    {
        if self.healthy_interval_ms == 0 {
            return Err(String::from_str("health_refresh.healthy_interval_ms must be greater than zero"));
        }
        if self.unhealthy_interval_ms == 0 {
            return Err(String::from_str("health_refresh.unhealthy_interval_ms must be greater than zero"));
        }
        Ok(())
    }

    /// The healthy-target interval, in milliseconds.
    pub fn healthy_interval(self) -> (res: u64)
        ensures
            res == self.healthy_interval_ms,
    {
        self.healthy_interval_ms
    }

    /// The unhealthy-target interval, in milliseconds.
    pub fn unhealthy_interval(self) -> (res: u64)
        ensures
            res == self.unhealthy_interval_ms,
    {
        self.unhealthy_interval_ms
    }
}

// ------------------------------------------------------------------ MCP server

/// An SSE interval: off, or a period in milliseconds.
#[derive(Debug, Clone, Copy, PartialEq, Eq, Structural)]
pub enum SseInterval {
    Disabled,
    Duration(u64),
}

impl SseInterval {
    /// The period in milliseconds, or `None` when off.
    pub fn as_duration(self) -> (res: Option<u64>)
        ensures
            res == (match self {
                SseInterval::Disabled => None,
                SseInterval::Duration(ms) => Some(ms),
            }),
    {
        match self {
            SseInterval::Disabled => None,
            SseInterval::Duration(ms) => Some(ms),
        }
    }
}

/// The interval the file's millisecond count stands for: zero turns it off.
pub fn sse_interval_from_millis(millis: u64) -> (res: SseInterval)
    ensures
        res == (if millis == 0 { SseInterval::Disabled } else { SseInterval::Duration(millis) }),
{
    if millis == 0 {
        SseInterval::Disabled
    } else {
        SseInterval::Duration(millis)
    }
}

pub fn default_streamable_http_sse_keep_alive() -> (res: SseInterval)
    ensures
        res == SseInterval::Duration(15000),
{
    SseInterval::Duration(15000)
}

pub fn default_streamable_http_sse_retry() -> (res: SseInterval)
    ensures
        res == SseInterval::Duration(3000),
{
    SseInterval::Duration(3000)
}

/// How the broker serves MCP.
#[derive(Debug, Clone)]
pub enum McpServerConfig {
    Stdio,
    StreamableHttp {
        listen: String,
        path: String,
        stateful: bool,
        sse_keep_alive: SseInterval,
        sse_retry: SseInterval,
    },
}

pub open spec fn spec_mcp_validate(c: McpServerConfig) -> Result<(), Seq<char>> {
    match c {
        McpServerConfig::Stdio => Ok(()),
        McpServerConfig::StreamableHttp { path, .. } => ensure(
            has_prefix(path@, "/"@),
            "streamable_http MCP path must start with `/`"@,
        ),
    }
}

impl McpServerConfig {
    /// The transport's name in log lines.
    pub fn transport_name(&self) -> (res: String)
        ensures
            res@ == (match *self {
                McpServerConfig::Stdio => "stdio"@,
                McpServerConfig::StreamableHttp { .. } => "streamable_http"@,
            }),
    {
        match self {
            McpServerConfig::Stdio => String::from_str("stdio"),
            McpServerConfig::StreamableHttp { .. } => String::from_str("streamable_http"),
        }
    }

    pub fn validate(&self) -> (res: Result<(), String>)
        ensures
            outcome(res) == spec_mcp_validate(*self),
    {
        match self {
            McpServerConfig::Stdio => Ok(()),
            McpServerConfig::StreamableHttp { path, .. } => {
                if starts_with(path.as_str(), "/") {
                    Ok(())
                } else {
                    Err(String::from_str("streamable_http MCP path must start with `/`"))
                }
            },
        }
    }
}

// -------------------------------------------------------------------- targets

/// The text `target `name`` followed by `rest`.
pub open spec fn target_text(name: Seq<char>, rest: Seq<char>) -> Seq<char> {
    "target `"@ + name + "`"@ + rest
}

fn target_message(name: &str, rest: &str) -> (res: String)
    ensures
        res@ == target_text(name@, rest@),
{
    let mut out = String::from_str("target `");
    out.append(name);
    out.append("`");
    out.append(rest);
    out
}

/// Bearer-token authentication for HTTP requests to a target.
#[derive(Debug, Clone)]
pub struct HttpAuthConfig {
    pub bearer_token: String,
}

pub open spec fn spec_http_auth_validate(c: HttpAuthConfig, context: Seq<char>) -> Result<(), Seq<char>> {
    ensure(c.bearer_token@.len() > 0, context + " http_auth.bearer_token must not be empty"@)
}

impl HttpAuthConfig {
    /// Rejects an empty token; `context` names where the setting stands.
    pub fn validate(&self, context: &str) -> (res: Result<(), String>)
        ensures
            outcome(res) == spec_http_auth_validate(*self, context@),
    {
        if self.bearer_token.unicode_len() == 0 {
            let mut out = context.to_owned();
            out.append(" http_auth.bearer_token must not be empty");
            return Err(out);
        }
        Ok(())
    }
}

/// Timeouts for requests to one target, in milliseconds.
#[derive(Debug, Clone, Copy, PartialEq, Eq, Structural)]
pub struct TargetTimeoutConfig {
    pub connect_ms: u64,
    pub read_ms: u64,
    pub request_ms: u64,
    pub startup_probe_ms: u64,
}

pub open spec fn timeout_text(target_name: Seq<char>, field: Seq<char>) -> Seq<char> {
    target_text(target_name, " timeouts."@ + field + " must be greater than zero"@)
}

pub open spec fn spec_validate_timeout_ms(target_name: Seq<char>, field: Seq<char>, value: u64) -> Result<(), Seq<char>> {
    ensure(value > 0, timeout_text(target_name, field))
}

/// Rejects a zero timeout, naming the target and the field.
pub fn validate_timeout_ms(target_name: &str, field: &str, value: u64) -> (res: Result<(), String>)
    ensures
        outcome(res) == spec_validate_timeout_ms(target_name@, field@, value),
{
    if value == 0 {
        let mut rest = String::from_str(" timeouts.");
        rest.append(field);
        rest.append(" must be greater than zero");
        let msg = target_message(target_name, rest.as_str());
        proof {
            assert(rest@ =~= " timeouts."@ + field@ + " must be greater than zero"@);
        }
        return Err(msg);
    }
    Ok(())
}

pub open spec fn spec_timeouts_validate(c: TargetTimeoutConfig, target_name: Seq<char>) -> Result<(), Seq<char>> {
    chain(
        spec_validate_timeout_ms(target_name, "connect_ms"@, c.connect_ms),
        chain(
            spec_validate_timeout_ms(target_name, "read_ms"@, c.read_ms),
            chain(
                spec_validate_timeout_ms(target_name, "request_ms"@, c.request_ms),
                spec_validate_timeout_ms(target_name, "startup_probe_ms"@, c.startup_probe_ms),
            ),
        ),
    )
}

impl Default for TargetTimeoutConfig {
    fn default() -> (res: Self)
        ensures
            res.connect_ms == DEFAULT_TARGET_CONNECT_TIMEOUT_MS,
            res.read_ms == DEFAULT_TARGET_READ_TIMEOUT_MS,
            res.request_ms == DEFAULT_TARGET_REQUEST_TIMEOUT_MS,
            res.startup_probe_ms == DEFAULT_TARGET_STARTUP_PROBE_TIMEOUT_MS,
            forall|name: Seq<char>| spec_timeouts_validate(res, name) == Ok::<(), Seq<char>>(()),
    {
        TargetTimeoutConfig {
            connect_ms: DEFAULT_TARGET_CONNECT_TIMEOUT_MS,
            read_ms: DEFAULT_TARGET_READ_TIMEOUT_MS,
            request_ms: DEFAULT_TARGET_REQUEST_TIMEOUT_MS,
            startup_probe_ms: DEFAULT_TARGET_STARTUP_PROBE_TIMEOUT_MS,
        }
    }
}

impl TargetTimeoutConfig {
    pub fn validate(&self, target_name: &str) -> (res: Result<(), String>)
        ensures
            outcome(res) == spec_timeouts_validate(*self, target_name@),
    {
        let r = validate_timeout_ms(target_name, "connect_ms", self.connect_ms);
        if r.is_err() {
            return r;
        }
        let r = validate_timeout_ms(target_name, "read_ms", self.read_ms);
        if r.is_err() {
            return r;
        }
        let r = validate_timeout_ms(target_name, "request_ms", self.request_ms);
        if r.is_err() {
            return r;
        }
        validate_timeout_ms(target_name, "startup_probe_ms", self.startup_probe_ms)
    }

    pub fn connect_timeout(self) -> (res: u64)
        ensures
            res == self.connect_ms,
    {
        self.connect_ms
    }

    pub fn read_timeout(self) -> (res: u64)
        ensures
            res == self.read_ms,
    {
        self.read_ms
    }

    pub fn request_timeout(self) -> (res: u64)
        ensures
            res == self.request_ms,
    {
        self.request_ms
    }

    pub fn startup_probe_timeout(self) -> (res: u64)
        ensures
            res == self.startup_probe_ms,
    {
        self.startup_probe_ms
    }
}

/// How the broker reaches a target.
#[derive(Debug, Clone, Copy, PartialEq, Eq, Structural)]
pub enum TargetTransportKind {
    Http,
    Https,
}

/// One remote target: where its daemon listens and how to reach it.
#[derive(Debug, Clone)]
pub struct TargetConfig {
    pub base_url: String,
    pub http_auth: Option<HttpAuthConfig>,
    pub timeouts: TargetTimeoutConfig,
    pub ca_pem: Option<String>,
    pub client_cert_pem: Option<String>,
    pub client_key_pem: Option<String>,
    pub allow_insecure_http: bool,
    pub skip_server_name_verification: bool,
    pub pinned_server_cert_pem: Option<String>,
    pub expected_daemon_name: Option<String>,
}

pub open spec fn spec_is_reverse(t: TargetConfig) -> bool {
    t.base_url@ == "reverse://"@
}

pub open spec fn spec_http_transport_validate(t: TargetConfig, name: Seq<char>) -> Result<(), Seq<char>> {
    chain(
        ensure(t.allow_insecure_http, target_text(name, " uses http://; http:// targets require allow_insecure_http = true"@)),
        chain(
            ensure(!t.skip_server_name_verification, target_text(name, " cannot set skip_server_name_verification for http:// targets"@)),
            ensure(t.pinned_server_cert_pem is None, target_text(name, " cannot set pinned_server_cert_pem for http:// targets"@)),
        ),
    )
}

pub open spec fn spec_https_transport_validate(t: TargetConfig, name: Seq<char>) -> Result<(), Seq<char>> {
    chain(
        ensure(has_prefix(t.base_url@, "https://"@), target_text(name, " base_url must start with http:// or https://"@)),
        chain(
            ensure(t.ca_pem is Some, target_text(name, " is missing ca_pem"@)),
            chain(
                ensure(t.client_cert_pem is Some, target_text(name, " is missing client_cert_pem"@)),
                ensure(t.client_key_pem is Some, target_text(name, " is missing client_key_pem"@)),
            ),
        ),
    )
}

pub open spec fn spec_target_validate(t: TargetConfig, name: Seq<char>) -> Result<(), Seq<char>> {
    chain(
        spec_timeouts_validate(t.timeouts, name),
        chain(
            match t.http_auth {
                Some(a) => spec_http_auth_validate(a, target_text(name, ""@)),
                None => Ok(()),
            },
            if spec_is_reverse(t) {
                chain(
                    ensure(!t.skip_server_name_verification, target_text(name, " cannot set skip_server_name_verification in reverse mode"@)),
                    ensure(
                        t.pinned_server_cert_pem is None,
                        target_text(name, " cannot set pinned_server_cert_pem in reverse mode; reverse TLS identity is bound by the client certificate common name"@),
                    ),
                )
            } else if has_prefix(t.base_url@, "http://"@) {
                spec_http_transport_validate(t, name)
            } else {
                spec_https_transport_validate(t, name)
            },
        ),
    )
}

/// A target passes its checks only if its transport is fully set up: an
/// `https://` target has a CA, a client certificate and a client key; an
/// `http://` target opts into plain HTTP and sets no server-certificate
/// options; any other non-reverse URL is refused. Once the timeouts and
/// credentials check out, an `https://` target without a CA is refused
/// for exactly that.
pub proof fn lemma_target_transport_requirements(t: TargetConfig, name: Seq<char>)
    ensures
        spec_target_validate(t, name) is Ok && !spec_is_reverse(t) && !has_prefix(t.base_url@, "http://"@) ==> {
            &&& has_prefix(t.base_url@, "https://"@)
            &&& t.ca_pem is Some
            &&& t.client_cert_pem is Some
            &&& t.client_key_pem is Some
        },
        spec_target_validate(t, name) is Ok && !spec_is_reverse(t) && has_prefix(t.base_url@, "http://"@) ==> {
            &&& t.allow_insecure_http
            &&& !t.skip_server_name_verification
            &&& t.pinned_server_cert_pem is None
        },
        spec_target_validate(t, name) is Ok && spec_is_reverse(t) ==>
            !t.skip_server_name_verification && t.pinned_server_cert_pem is None,
        spec_timeouts_validate(t.timeouts, name) is Ok
            && (t.http_auth matches Some(a) ==> spec_http_auth_validate(a, target_text(name, ""@)) is Ok)
            && !spec_is_reverse(t) && !has_prefix(t.base_url@, "http://"@) && has_prefix(t.base_url@, "https://"@)
            && t.ca_pem is None
            ==> spec_target_validate(t, name) == Err::<(), Seq<char>>(target_text(name, " is missing ca_pem"@)),
        spec_timeouts_validate(t.timeouts, name) is Ok
            && (t.http_auth matches Some(a) ==> spec_http_auth_validate(a, target_text(name, ""@)) is Ok)
            && !spec_is_reverse(t) && !has_prefix(t.base_url@, "http://"@) && has_prefix(t.base_url@, "https://"@)
            && t.ca_pem is Some && t.client_cert_pem is None
            ==> spec_target_validate(t, name) == Err::<(), Seq<char>>(target_text(name, " is missing client_cert_pem"@)),
        spec_timeouts_validate(t.timeouts, name) is Ok
            && (t.http_auth matches Some(a) ==> spec_http_auth_validate(a, target_text(name, ""@)) is Ok)
            && !spec_is_reverse(t) && !has_prefix(t.base_url@, "http://"@) && has_prefix(t.base_url@, "https://"@)
            && t.ca_pem is Some && t.client_cert_pem is Some && t.client_key_pem is None
            ==> spec_target_validate(t, name) == Err::<(), Seq<char>>(target_text(name, " is missing client_key_pem"@)),
        spec_timeouts_validate(t.timeouts, name) is Ok
            && (t.http_auth matches Some(a) ==> spec_http_auth_validate(a, target_text(name, ""@)) is Ok)
            && !spec_is_reverse(t) && !has_prefix(t.base_url@, "http://"@) && has_prefix(t.base_url@, "https://"@)
            && t.ca_pem is Some && t.client_cert_pem is Some && t.client_key_pem is Some
            ==> spec_target_validate(t, name) is Ok,
        spec_timeouts_validate(t.timeouts, name) is Ok
            && (t.http_auth matches Some(a) ==> spec_http_auth_validate(a, target_text(name, ""@)) is Ok)
            && !spec_is_reverse(t) && has_prefix(t.base_url@, "http://"@) && !t.allow_insecure_http
            ==> spec_target_validate(t, name) == Err::<(), Seq<char>>(
                target_text(name, " uses http://; http:// targets require allow_insecure_http = true"@),
            ),
{
}

impl TargetConfig {
    /// Whether the target's daemon connects to the broker (`reverse://`).
    pub fn is_reverse(&self) -> (res: bool)
        ensures
            res == spec_is_reverse(*self),
    {
        str_eq(self.base_url.as_str(), "reverse://")
    }

    pub fn transport_kind(&self) -> (res: TargetTransportKind)
        ensures
            res == (if has_prefix(self.base_url@, "http://"@) { TargetTransportKind::Http } else { TargetTransportKind::Https }),
    {
        if starts_with(self.base_url.as_str(), "http://") {
            TargetTransportKind::Http
        } else {
            TargetTransportKind::Https
        }
    }

    fn validate_http_transport(&self, name: &str) -> (res: Result<(), String>)
        ensures
            outcome(res) == spec_http_transport_validate(*self, name@),
    {
        if !self.allow_insecure_http {
            return Err(target_message(name, " uses http://; http:// targets require allow_insecure_http = true"));
        }
        if self.skip_server_name_verification {
            return Err(target_message(name, " cannot set skip_server_name_verification for http:// targets"));
        }
        if self.pinned_server_cert_pem.is_some() {
            return Err(target_message(name, " cannot set pinned_server_cert_pem for http:// targets"));
        }
        Ok(())
    }

    fn validate_https_transport(&self, name: &str) -> (res: Result<(), String>)
        ensures
            outcome(res) == spec_https_transport_validate(*self, name@),
    {
        if !starts_with(self.base_url.as_str(), "https://") {
            return Err(target_message(name, " base_url must start with http:// or https://"));
        }
        if self.ca_pem.is_none() {
            return Err(target_message(name, " is missing ca_pem"));
        }
        if self.client_cert_pem.is_none() {
            return Err(target_message(name, " is missing client_cert_pem"));
        }
        if self.client_key_pem.is_none() {
            return Err(target_message(name, " is missing client_key_pem"));
        }
        Ok(())
    }

    /// Checks the target's settings against its transport, naming it `name`.
    pub fn validate(&self, name: &str) -> (res: Result<(), String>)
        ensures
            outcome(res) == spec_target_validate(*self, name@),
    {
        let r = self.timeouts.validate(name);
        if r.is_err() {
            return r;
        }
        if let Some(http_auth) = &self.http_auth {
            let context = target_message(name, "");
            let r = http_auth.validate(context.as_str());
            if r.is_err() {
                return r;
            }
        }
        if self.is_reverse() {
            if self.skip_server_name_verification {
                return Err(target_message(name, " cannot set skip_server_name_verification in reverse mode"));
            }
            if self.pinned_server_cert_pem.is_some() {
                return Err(target_message(
                    name,
                    " cannot set pinned_server_cert_pem in reverse mode; reverse TLS identity is bound by the client certificate common name",
                ));
            }
            return Ok(());
        }
        if starts_with(self.base_url.as_str(), "http://") {
            return self.validate_http_transport(name);
        }
        self.validate_https_transport(name)
    }
}

// ------------------------------------------------------------ reverse listener

/// The transport of the broker's reverse listener.
#[derive(Debug, Clone, Copy, PartialEq, Eq, Structural)]
pub enum ReverseTransport {
    Tls,
    Http,
}

impl Default for ReverseTransport {
    fn default() -> (res: Self)
        ensures
            res == ReverseTransport::Tls,
    {
        ReverseTransport::Tls
    }
}

/// Certificate files of the reverse listener.
#[derive(Debug, Clone)]
pub struct ReverseListenerTlsConfig {
    pub cert_pem: String,
    pub key_pem: String,
    pub ca_pem: String,
}

/// The listener that daemons in reverse mode connect to.
#[derive(Debug, Clone)]
pub struct ReverseListenerConfig {
    pub listen: String,
    pub transport: ReverseTransport,
    pub allow_insecure_http: bool,
    pub tls: Option<ReverseListenerTlsConfig>,
    pub registration_timeout_ms: u64,
    pub lane_wait_timeout_ms: u64,
    pub max_connections: usize,
}

pub open spec fn spec_reverse_validate(r: ReverseListenerConfig) -> Result<(), Seq<char>> {
    chain(
        ensure(r.registration_timeout_ms > 0, "reverse.registration_timeout_ms must be greater than zero"@),
        chain(
            ensure(r.lane_wait_timeout_ms > 0, "reverse.lane_wait_timeout_ms must be greater than zero"@),
            chain(
                ensure(r.max_connections > 0, "reverse.max_connections must be greater than zero"@),
                match r.transport {
                    ReverseTransport::Tls => ensure(r.tls is Some, "reverse.tls is required when reverse.transport = \"tls\""@),
                    ReverseTransport::Http => chain(
                        ensure(r.allow_insecure_http, "reverse plain HTTP requires reverse.allow_insecure_http = true"@),
                        ensure(r.tls is None, "reverse.tls cannot be set when reverse.transport = \"http\""@),
                    ),
                },
            ),
        ),
    )
}

impl ReverseListenerConfig {
    pub fn validate(&self) -> (res: Result<(), String>)
        ensures
            outcome(res) == spec_reverse_validate(*self),
    {
        if self.registration_timeout_ms == 0 {
            return Err(String::from_str("reverse.registration_timeout_ms must be greater than zero"));
        }
        if self.lane_wait_timeout_ms == 0 {
            return Err(String::from_str("reverse.lane_wait_timeout_ms must be greater than zero"));
        }
        if self.max_connections == 0 {
            return Err(String::from_str("reverse.max_connections must be greater than zero"));
        }
        match self.transport {
            ReverseTransport::Tls => {
                if self.tls.is_none() {
                    return Err(String::from_str("reverse.tls is required when reverse.transport = \"tls\""));
                }
            },
            ReverseTransport::Http => {
                if !self.allow_insecure_http {
                    return Err(String::from_str("reverse plain HTTP requires reverse.allow_insecure_http = true"));
                }
                if self.tls.is_some() {
                    return Err(String::from_str("reverse.tls cannot be set when reverse.transport = \"http\""));
                }
            },
        }
        Ok(())
    }
}

// ------------------------------------------------------------------- broker

/// The broker-host target's own settings, as far as this crate reads them.
#[derive(Debug, Clone)]
pub struct LocalTargetConfig {
    pub default_workdir: String,
    pub windows_posix_root: Option<String>,
    pub allow_login_shell: bool,
    pub default_shell: Option<String>,
    pub experimental_apply_patch_target_encoding_autodetect: bool,
}

/// The broker's configuration. Targets stand in the order of their names,
/// each name once (see `targets_in_name_order`).
#[derive(Debug, Clone)]
pub struct BrokerConfig {
    pub mcp: McpServerConfig,
    pub targets: Vec<(String, TargetConfig)>,
    pub local: Option<LocalTargetConfig>,
    pub enable_transfer_compression: bool,
    pub disable_structured_content: bool,
    pub tools: BrokerToolsConfig,
    pub port_forward_limits: BrokerPortForwardLimits,
    pub health_refresh: BrokerHealthRefreshConfig,
    pub reverse: Option<ReverseListenerConfig>,
}

pub open spec fn reverse_is_http(reverse: Option<ReverseListenerConfig>) -> bool {
    reverse matches Some(r) && r.transport == ReverseTransport::Http
}

/// The checks on one configured target, given the reverse listener.
pub open spec fn spec_target_entry_check(
    reverse: Option<ReverseListenerConfig>,
    name: Seq<char>,
    t: TargetConfig,
) -> Result<(), Seq<char>> {
    chain(
        spec_target_validate(t, name),
        if spec_is_reverse(t) {
            chain(
                ensure(reverse is Some, target_text(name, " uses reverse mode but broker reverse listener is not configured"@)),
                ensure(
                    !reverse_is_http(reverse) || t.http_auth is Some,
                    "reverse HTTP target `"@ + name + "` requires http_auth for lane registration"@,
                ),
            )
        } else {
            Ok(())
        },
    )
}

/// The checks on each target in turn; the first that fails is the error.
pub open spec fn spec_targets_check(
    reverse: Option<ReverseListenerConfig>,
    targets: Seq<(String, TargetConfig)>,
) -> Result<(), Seq<char>>
    decreases targets.len(),
{
    if targets.len() == 0 {
        Ok(())
    } else {
        chain(
            spec_target_entry_check(reverse, targets[0].0@, targets[0].1),
            spec_targets_check(reverse, targets.drop_first()),
        )
    }
}

/// Target names strictly increase: the targets are a map by name, in name
/// order.
pub open spec fn targets_in_name_order(targets: Seq<(String, TargetConfig)>) -> bool {
    forall|i: int, j: int| 0 <= i < j < targets.len() ==> seq_lt(#[trigger] targets[i].0@, #[trigger] targets[j].0@)
}

pub open spec fn names_local_target(targets: Seq<(String, TargetConfig)>) -> bool {
    exists|i: int| 0 <= i < targets.len() && (#[trigger] targets[i]).0@ == local_target_name()
}

pub open spec fn limits_outcome(l: BrokerPortForwardLimits) -> Result<(), Seq<char>> {
    match spec_limits_validate(l) {
        Ok(_) => Ok(()),
        Err(e) => Err(limits_error_text(e)),
    }
}

/// The whole configuration's checks, in the order the broker runs them.
/// `transfer_limits` and `local_host` are the outcomes of the transfer-limit
/// check and of the broker-host runtime check, which other crates make.
pub open spec fn spec_broker_validate(
    c: BrokerConfig,
    transfer_limits: Result<(), Seq<char>>,
    local_host: Result<(), Seq<char>>,
) -> Result<(), Seq<char>> {
    chain(spec_mcp_validate(c.mcp),
    chain(transfer_limits,
    chain(limits_outcome(c.port_forward_limits),
    chain(spec_file_tool_validate(c.tools.file),
    chain(spec_health_refresh_validate(c.health_refresh),
    chain(match c.reverse {
        Some(r) => spec_reverse_validate(r),
        None => Ok(()),
    },
    chain(ensure(
        !names_local_target(c.targets@),
        "configured target name `local` is reserved for broker-host filesystem access"@,
    ),
    chain(if c.local is Some { local_host } else { Ok(()) },
    spec_targets_check(c.reverse, c.targets@)))))))))
}

/// When the targets' checks pass, every target passes its own checks; in
/// particular every `https://` target has its CA, certificate and key.
pub proof fn lemma_targets_check_covers_each(reverse: Option<ReverseListenerConfig>, targets: Seq<(String, TargetConfig)>)
    ensures
        spec_targets_check(reverse, targets) is Ok ==> forall|i: int| 0 <= i < targets.len()
            ==> spec_target_validate(#[trigger] targets[i].1, targets[i].0@) is Ok,
    decreases targets.len(),
{
    if targets.len() > 0 {
        lemma_targets_check_covers_each(reverse, targets.drop_first());
        if spec_targets_check(reverse, targets) is Ok {
            assert forall|i: int| 0 <= i < targets.len() implies spec_target_validate(#[trigger] targets[i].1, targets[i].0@) is Ok by {
                if i > 0 {
                    assert(targets.drop_first()[i - 1] == targets[i]);
                }
            }
        }
    }
}

/// A configuration that passes validation has only targets that pass
/// their own checks.
pub proof fn lemma_valid_config_has_valid_targets(
    c: BrokerConfig,
    transfer_limits: Result<(), Seq<char>>,
    local_host: Result<(), Seq<char>>,
)
    ensures
        spec_broker_validate(c, transfer_limits, local_host) is Ok ==> forall|i: int| 0 <= i < c.targets@.len()
            ==> spec_target_validate(#[trigger] c.targets@[i].1, c.targets@[i].0@) is Ok,
{
    lemma_targets_check_covers_each(c.reverse, c.targets@);
}

proof fn lemma_targets_check_step(
    reverse: Option<ReverseListenerConfig>,
    targets: Seq<(String, TargetConfig)>,
    i: int,
)
    requires
        0 <= i < targets.len(),
    ensures
        spec_targets_check(reverse, targets.skip(i)) == chain(
            spec_target_entry_check(reverse, targets[i].0@, targets[i].1),
            spec_targets_check(reverse, targets.skip(i + 1)),
        ),
{
    assert(targets.skip(i).drop_first() =~= targets.skip(i + 1));
    assert(targets.skip(i)[0] == targets[i]);
}

impl BrokerConfig {
    fn check_target(&self, name: &str, target: &TargetConfig) -> (res: Result<(), String>)
        ensures
            outcome(res) == spec_target_entry_check(self.reverse, name@, *target),
    {
        let r = target.validate(name);
        if r.is_err() {
            return r;
        }
        if target.is_reverse() {
            if self.reverse.is_none() {
                return Err(target_message(name, " uses reverse mode but broker reverse listener is not configured"));
            }
            let http = match &self.reverse {
                Some(reverse) => reverse.transport == ReverseTransport::Http,
                None => false,
            };
            if http && target.http_auth.is_none() {
                let mut out = String::from_str("reverse HTTP target `");
                out.append(name);
                out.append("` requires http_auth for lane registration");
                return Err(out);
            }
        }
        Ok(())
    }

    /// Whether the targets stand in strictly increasing name order, as a
    /// configuration read from a table of targets always does.
    pub fn targets_in_order(&self) -> (res: bool)
        ensures
            res == targets_in_name_order(self.targets@),
    {
        let n = self.targets.len();
        if n == 0 {
            return true;
        }
        let mut i: usize = 0;
        while i + 1 < n
            invariant
                n == self.targets@.len(),
                n > 0,
                i < n,
                forall|a: int, b: int| 0 <= a < b <= i ==> seq_lt(#[trigger] self.targets@[a].0@, #[trigger] self.targets@[b].0@),
            decreases n - i,
        {
            if !str_lt(self.targets[i].0.as_str(), self.targets[i + 1].0.as_str()) {
                return false;
            }
            proof {
                let t = self.targets@;
                assert forall|a: int, b: int| 0 <= a < b <= i + 1 implies seq_lt(#[trigger] t[a].0@, #[trigger] t[b].0@) by {
                    if b == i + 1 && a < i {
                        lemma_seq_lt_is_strict_total_order(t[a].0@, t[i as int].0@, t[b].0@);
                    }
                }
            }
            i = i + 1;
        }
        true
    }

    fn names_local(&self) -> (res: bool)
        ensures
            res == names_local_target(self.targets@),
    {
        let mut i: usize = 0;
        while i < self.targets.len()
            invariant
                i <= self.targets@.len(),
                forall|j: int| 0 <= j < i ==> (#[trigger] self.targets@[j]).0@ != local_target_name(),
            decreases self.targets@.len() - i,
        {
            if str_eq(self.targets[i].0.as_str(), "local") {
                assert(self.targets@[i as int].0@ == local_target_name());
                return true;
            }
            i = i + 1;
        }
        false
    }

    /// Checks the configuration before the broker starts. `transfer_limits`
    /// and `local_host` are the outcomes of the transfer-limit check and of
    /// the broker-host runtime check; the second counts only when the
    /// configuration has a `local` section.
    pub fn validate(&self, transfer_limits: &Result<(), String>, local_host: &Result<(), String>) -> (res: Result<(), String>)
        requires
            targets_in_name_order(self.targets@),
        ensures
            outcome(res) == spec_broker_validate(*self, outcome(*transfer_limits), outcome(*local_host)),
    {
        let r = self.mcp.validate();
        if r.is_err() {
            return r;
        }
        if let Err(e) = transfer_limits {
            return Err(e.clone());
        }
        if let Err(e) = self.port_forward_limits.validate() {
            return Err(e.to_string());
        }
        let r = self.tools.validate();
        if r.is_err() {
            return r;
        }
        let r = self.health_refresh.validate();
        if r.is_err() {
            return r;
        }
        if let Some(reverse) = &self.reverse {
            let r = reverse.validate();
            if r.is_err() {
                return r;
            }
        }
        if self.names_local() {
            return Err(String::from_str("configured target name `local` is reserved for broker-host filesystem access"));
        }
        if self.local.is_some() {
            if let Err(e) = local_host {
                return Err(e.clone());
            }
        }
        proof {
            assert(self.targets@.skip(0) =~= self.targets@);
        }
        let mut i: usize = 0;
        while i < self.targets.len()
            invariant
                i <= self.targets@.len(),
                spec_broker_validate(*self, outcome(*transfer_limits), outcome(*local_host))
                    == spec_targets_check(self.reverse, self.targets@.skip(i as int)),
            decreases self.targets@.len() - i,
        {
            proof {
                lemma_targets_check_step(self.reverse, self.targets@, i as int);
            }
            let r = self.check_target(self.targets[i].0.as_str(), &self.targets[i].1);
            if r.is_err() {
                return r;
            }
            i = i + 1;
        }
        proof {
            assert(self.targets@.skip(i as int) =~= Seq::<(String, TargetConfig)>::empty());
        }
        Ok(())
    }
}

} // verus!
