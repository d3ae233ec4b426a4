//! Errors the broker gets from daemons, and how they reach tool callers.
use vstd::prelude::*;


verus! {

/// Error codes of the daemon RPC protocol that the broker acts on.
#[derive(Debug, Clone, Copy, PartialEq, Eq, Structural)]
pub enum RpcErrorCode {
    Internal,
    NotFound,
    UnknownEndpoint,
    TransferFailed,
    InvalidPortTunnel,
    PortTunnelUnavailable,
    PortTunnelLimitExceeded,
}

pub open spec fn wire_text(code: RpcErrorCode) -> Seq<char> {
    match code {
        RpcErrorCode::Internal => "internal_error"@,
        RpcErrorCode::NotFound => "not_found"@,
        RpcErrorCode::UnknownEndpoint => "unknown_endpoint"@,
        RpcErrorCode::TransferFailed => "transfer_failed"@,
        RpcErrorCode::InvalidPortTunnel => "invalid_port_tunnel"@,
        RpcErrorCode::PortTunnelUnavailable => "port_tunnel_unavailable"@,
        RpcErrorCode::PortTunnelLimitExceeded => "port_tunnel_limit_exceeded"@,
    }
}

/// The code whose wire value is `value`, if the broker knows it.
pub open spec fn spec_from_wire(value: Seq<char>) -> Option<RpcErrorCode> {
    if value == wire_text(RpcErrorCode::Internal) { Some(RpcErrorCode::Internal) }
    else if value == wire_text(RpcErrorCode::NotFound) { Some(RpcErrorCode::NotFound) }
    else if value == wire_text(RpcErrorCode::UnknownEndpoint) { Some(RpcErrorCode::UnknownEndpoint) }
    else if value == wire_text(RpcErrorCode::TransferFailed) { Some(RpcErrorCode::TransferFailed) }
    else if value == wire_text(RpcErrorCode::InvalidPortTunnel) { Some(RpcErrorCode::InvalidPortTunnel) }
    else if value == wire_text(RpcErrorCode::PortTunnelUnavailable) { Some(RpcErrorCode::PortTunnelUnavailable) }
    else if value == wire_text(RpcErrorCode::PortTunnelLimitExceeded) { Some(RpcErrorCode::PortTunnelLimitExceeded) }
    else { None }
}

impl RpcErrorCode {
    /// The code as it travels on the wire.
    pub fn wire_value(self) -> (res: String)
        ensures
            res@ == wire_text(self),
    {
        let text = match self {
            RpcErrorCode::Internal => "internal_error",
            RpcErrorCode::NotFound => "not_found",
            RpcErrorCode::UnknownEndpoint => "unknown_endpoint",
            RpcErrorCode::TransferFailed => "transfer_failed",
            RpcErrorCode::InvalidPortTunnel => "invalid_port_tunnel",
            RpcErrorCode::PortTunnelUnavailable => "port_tunnel_unavailable",
            RpcErrorCode::PortTunnelLimitExceeded => "port_tunnel_limit_exceeded",
        };
        String::from_str(text)
    }

    /// The code with wire value `value`, if any.
    pub fn from_wire_value(value: &str) -> (res: Option<RpcErrorCode>)
        ensures
            res == spec_from_wire(value@),
    {
        let v = value.to_owned();
        if v == RpcErrorCode::Internal.wire_value() { return Some(RpcErrorCode::Internal); }
        if v == RpcErrorCode::NotFound.wire_value() { return Some(RpcErrorCode::NotFound); }
        if v == RpcErrorCode::UnknownEndpoint.wire_value() { return Some(RpcErrorCode::UnknownEndpoint); }
        if v == RpcErrorCode::TransferFailed.wire_value() { return Some(RpcErrorCode::TransferFailed); }
        if v == RpcErrorCode::InvalidPortTunnel.wire_value() { return Some(RpcErrorCode::InvalidPortTunnel); }
        if v == RpcErrorCode::PortTunnelUnavailable.wire_value() { return Some(RpcErrorCode::PortTunnelUnavailable); }
        if v == RpcErrorCode::PortTunnelLimitExceeded.wire_value() { return Some(RpcErrorCode::PortTunnelLimitExceeded); }
        None
    }
}

/// A daemon's error code: one the broker knows, or the raw wire value.
#[derive(Debug, Clone, PartialEq, Eq)]
pub enum DaemonRpcCode {
    Known(RpcErrorCode),
    Unknown(String),
}

pub open spec fn code_wire(code: DaemonRpcCode) -> Seq<char> {
    match code {
        DaemonRpcCode::Known(c) => wire_text(c),
        DaemonRpcCode::Unknown(v) => v@,
    }
}

pub open spec fn code_known(code: DaemonRpcCode) -> Option<RpcErrorCode> {
    match code {
        DaemonRpcCode::Known(c) => Some(c),
        DaemonRpcCode::Unknown(_) => None,
    }
}

impl DaemonRpcCode {
    /// Classifies a wire value.
    pub fn from_wire_value(value: String) -> (res: DaemonRpcCode)
        ensures
            match spec_from_wire(value@) {
                Some(c) => res == DaemonRpcCode::Known(c),
                None => res == DaemonRpcCode::Unknown(value),
            },
    {
        match RpcErrorCode::from_wire_value(value.as_str()) {
            Some(code) => DaemonRpcCode::Known(code),
            None => DaemonRpcCode::Unknown(value),
        }
    }

    pub fn as_wire_value(&self) -> (res: String)
        ensures
            res@ == code_wire(*self),
    {
        match self {
            DaemonRpcCode::Known(code) => code.wire_value(),
            DaemonRpcCode::Unknown(value) => value.clone(),
        }
    }

    pub fn known(&self) -> (res: Option<RpcErrorCode>)
        ensures
            res == code_known(*self),
    {
        match self {
            DaemonRpcCode::Known(code) => Some(*code),
            DaemonRpcCode::Unknown(_) => None,
        }
    }
}

/// How RPC errors are shown to tool callers.
#[derive(Debug, Clone, Copy, PartialEq, Eq, Structural)]
pub enum RpcToolErrorMode {
    Full,
    MessageOnly,
}

/// A failed daemon call. `status` is the HTTP status code and
/// `status_text` its rendering (such as `404 Not Found`).
#[derive(Debug)]
pub enum DaemonClientError {
    Transport(String),
    Rpc { status: u16, status_text: String, code: Option<DaemonRpcCode>, message: String },
    Decode(String),
}

pub open spec fn malformed_exec_prefix() -> Seq<char> {
    "daemon returned malformed exec response: "@
}

pub open spec fn spec_client_error_text(e: DaemonClientError) -> Seq<char> {
    match e {
        DaemonClientError::Transport(m) => "daemon transport error: "@ + m@,
        DaemonClientError::Decode(m) => if crate::text::has_prefix(m@, malformed_exec_prefix()) {
            m@
        } else {
            "daemon decode error: "@ + m@
        },
        DaemonClientError::Rpc { status_text, code, message, .. } => match code {
            Some(c) => code_wire(c) + ": "@ + message@ + " ("@ + status_text@ + ")"@,
            None => "daemon returned "@ + status_text@ + ": "@ + message@,
        },
    }
}

impl DaemonClientError {
    /// The wire code of an RPC error.
    pub fn rpc_code(&self) -> (res: Option<String>)
        ensures
            match *self {
                DaemonClientError::Rpc { code: Some(c), .. } => res is Some && res->0@ == code_wire(c),
                _ => res is None,
            },
    {
        match self {
            DaemonClientError::Rpc { code: Some(code), .. } => Some(code.as_wire_value()),
            _ => None,
        }
    }

    /// The known code of an RPC error.
    pub fn rpc_error_code(&self) -> (res: Option<RpcErrorCode>)
        ensures
            res == match *self {
                DaemonClientError::Rpc { code: Some(c), .. } => code_known(c),
                _ => None,
            },
    {
        match self {
            DaemonClientError::Rpc { code: Some(code), .. } => code.known(),
            _ => None,
        }
    }

    pub fn is_rpc_error_code(&self, expected: RpcErrorCode) -> (res: bool)
        ensures
            res == (match *self {
                DaemonClientError::Rpc { code: Some(c), .. } => code_known(c),
                _ => None,
            } == Some(expected)),
    {
        match self.rpc_error_code() {
            Some(code) => code == expected,
            None => false,
        }
    }

    pub fn is_transport(&self) -> (res: bool)
        ensures
            res == (*self is Transport),
    {
        match self {
            DaemonClientError::Transport(_) => true,
            _ => false,
        }
    }

    /// The error as the broker renders it.
    pub fn to_string(&self) -> (res: String)
        ensures
            res@ == spec_client_error_text(*self),
    {
        match self {
            DaemonClientError::Transport(m) => {
                let mut out = String::from_str("daemon transport error: ");
                out.append(m.as_str());
                out
            },
            DaemonClientError::Decode(m) => {
                if crate::text::starts_with(m.as_str(), "daemon returned malformed exec response: ") {
                    m.clone()
                } else {
                    let mut out = String::from_str("daemon decode error: ");
                    out.append(m.as_str());
                    out
                }
            },
            DaemonClientError::Rpc { status_text, code, message, .. } => match code {
                Some(c) => {
                    let mut out = c.as_wire_value();
                    out.append(": ");
                    out.append(message.as_str());
                    out.append(" (");
                    out.append(status_text.as_str());
                    out.append(")");
                    out
                },
                None => {
                    let mut out = String::from_str("daemon returned ");
                    out.append(status_text.as_str());
                    out.append(": ");
                    out.append(message.as_str());
                    out
                },
            },
        }
    }

    /// The message a tool reports for this error: for RPC errors in
    /// message-only mode just the daemon's message, else the full rendering.
    pub fn into_tool_error(self, rpc_mode: RpcToolErrorMode) -> (res: String)
        ensures
            res@ == match self {
                DaemonClientError::Rpc { message, .. } => if rpc_mode == RpcToolErrorMode::MessageOnly {
                    message@
                } else {
                    spec_client_error_text(self)
                },
                _ => spec_client_error_text(self),
            },
    {
        if rpc_mode == RpcToolErrorMode::MessageOnly {
            if let DaemonClientError::Rpc { message, .. } = self {
                return message;
            }
        }
        self.to_string()
    }
}

/// The fields `code` and `message` of a daemon's JSON error body, both
/// strings, or nothing when the body is not such an object.
pub uninterp spec fn json_error_fields(body: Seq<char>) -> Option<(Seq<char>, Seq<char>)>;

/// Calls `serde_json::from_str` into a `serde_json::Value` and reads the
/// string fields `code` and `message` with `Value::get` and `Value::as_str`.
/// What it returns is named by `json_error_fields`; the JSON grammar is not
/// stated here.
#[verifier::external_body]
fn parse_json_error_fields(body: &str) -> (res: Option<(String, String)>)
    ensures
        match json_error_fields(body@) {
            Some((c, m)) => res matches Some((rc, rm)) && rc@ == c && rm@ == m,
            None => res is None,
        },
{
    let value: serde_json::Value = serde_json::from_str(body).ok()?;
    let code = value.get("code")?.as_str()?.to_string();
    let message = value.get("message")?.as_str()?.to_string();
    Some((code, message))
}

/// Builds the error for a failed daemon response from its body: a JSON
/// error body gives its code and message, any other body is the message.
pub fn rpc_error_from_fields(status: u16, status_text: String, body: String, fields: Option<(String, String)>) -> (res: DaemonClientError)
    ensures
        match fields {
            Some((c, m)) => match res {
                DaemonClientError::Rpc { status: s, status_text: t, code: Some(code), message } =>
                    s == status && t == status_text && message == m
                    && match spec_from_wire(c@) {
                        Some(k) => code == DaemonRpcCode::Known(k),
                        None => code == DaemonRpcCode::Unknown(c),
                    },
                _ => false,
            },
            None => res == DaemonClientError::Rpc { status, status_text, code: None, message: body },
        },
{
    match fields {
        Some((code, message)) => DaemonClientError::Rpc {
            status,
            status_text,
            code: Some(DaemonRpcCode::from_wire_value(code)),
            message,
        },
        None => DaemonClientError::Rpc { status, status_text, code: None, message: body },
    }
}

/// The error for a daemon response with status `status` and body `body`.
pub fn decode_rpc_error_body(status: u16, status_text: String, body: String) -> (res: DaemonClientError)
    ensures
        match json_error_fields(body@) {
            Some((c, m)) => match res {
                DaemonClientError::Rpc { status: s, status_text: t, code: Some(code), message } =>
                    s == status && t == status_text && message@ == m && code_wire(code) == c
                    && code_known(code) == spec_from_wire(c),
                _ => false,
            },
            None => res == DaemonClientError::Rpc { status, status_text, code: None, message: body },
        },
{
    let fields = parse_json_error_fields(body.as_str());
    rpc_error_from_fields(status, status_text, body, fields)
}

/// The HTTP status a terminal transfer-stream error maps to.
pub fn status_for_terminal_error(code: Option<RpcErrorCode>) -> (res: u16)
    ensures
        res == match code {
            Some(RpcErrorCode::Internal) | Some(RpcErrorCode::TransferFailed) | None => 500u16,
            _ => 400u16,
        },
{
    match code {
        Some(RpcErrorCode::Internal) | Some(RpcErrorCode::TransferFailed) | None => 500,
        _ => 400,
    }
}

/// An error a tool call ended with: a daemon's, or one of the broker's own.
#[derive(Debug)]
pub enum ToolCallError {
    Daemon(DaemonClientError),
    Other(String),
}

/// The message a tool reports: a daemon error rendered for `rpc_mode`,
/// any other error as it is.
pub fn normalize_tool_error(err: ToolCallError, rpc_mode: RpcToolErrorMode) -> (res: String)
    ensures
        match err {
            ToolCallError::Daemon(e) => res@ == (match e {
                DaemonClientError::Rpc { message, .. } => if rpc_mode == RpcToolErrorMode::MessageOnly {
                    message@
                } else {
                    spec_client_error_text(e)
                },
                _ => spec_client_error_text(e),
            }),
            ToolCallError::Other(m) => res == m,
        },
{
    match err {
        ToolCallError::Daemon(e) => e.into_tool_error(rpc_mode),
        ToolCallError::Other(m) => m,
    }
}

/// A daemon call's result with its error rendered for `rpc_mode`.
pub fn normalize_tool_result<T>(result: Result<T, DaemonClientError>, rpc_mode: RpcToolErrorMode) -> (res: Result<T, String>)
    ensures
        match result {
            Ok(v) => res == Ok::<T, String>(v),
            Err(e) => res matches Err(m) && m@ == (match e {
                DaemonClientError::Rpc { message, .. } => if rpc_mode == RpcToolErrorMode::MessageOnly {
                    message@
                } else {
                    spec_client_error_text(e)
                },
                _ => spec_client_error_text(e),
            }),
        },
{
    match result {
        Ok(v) => Ok(v),
        Err(e) => Err(e.into_tool_error(rpc_mode)),
    }
}

/// Whether `res` is what `decode_rpc_error_body` makes of `body`.
pub open spec fn body_decoded(res: DaemonClientError, status: u16, status_text: String, body: String) -> bool {
    match json_error_fields(body@) {
        Some((c, m)) => match res {
            DaemonClientError::Rpc { status: s, status_text: t, code: Some(code), message } =>
                s == status && t == status_text && message@ == m && code_wire(code) == c
                && code_known(code) == spec_from_wire(c),
            _ => false,
        },
        None => res == DaemonClientError::Rpc { status, status_text, code: None, message: body },
    }
}

/// What to do when a failed response's body cannot be read.
#[derive(Debug, Clone, Copy, PartialEq, Eq, Structural)]
pub enum RpcErrorDecodePolicy {
    /// The read failure is a transport error.
    Strict,
    /// The read failure's text stands in for the body.
    Lenient,
}

/// The error for a failed daemon response, given how reading its body
/// went: the body decoded as `decode_rpc_error_body` does, or the read
/// failure handled by `policy`.
pub fn decode_rpc_error(
    status: u16,
    status_text: String,
    body: Result<String, String>,
    policy: RpcErrorDecodePolicy,
) -> (res: DaemonClientError)
    ensures
        if body is Err && policy == RpcErrorDecodePolicy::Strict {
            res == DaemonClientError::Transport(body->Err_0)
        } else {
            body_decoded(res, status, status_text, match body {
                Ok(b) => b,
                Err(e) => e,
            })
        },
{
    match body {
        Ok(b) => decode_rpc_error_body(status, status_text, b),
        Err(e) => match policy {
            RpcErrorDecodePolicy::Strict => DaemonClientError::Transport(e),
            RpcErrorDecodePolicy::Lenient => decode_rpc_error_body(status, status_text, e),
        },
    }
}

/// How decoding a transfer stream from a daemon failed.
#[derive(Debug)]
pub enum TransferStreamDecodeError {
    Transport(String),
    Invalid(String),
    MalformedComplete(String),
    MalformedError(String),
    ErrorFrame { code: String, message: String },
}

/// The rendering of an HTTP status as the daemon client reports it.
pub open spec fn status_line(status: u16) -> Seq<char> {
    if status == 400 { "400 Bad Request"@ } else { "500 Internal Server Error"@ }
}

/// The client error a failed transfer stream ends with; a daemon's error
/// frame becomes an RPC error with the status its code maps to.
pub fn decode_error_to_client_error(err: TransferStreamDecodeError) -> (res: DaemonClientError)
    ensures
        match err {
            TransferStreamDecodeError::Transport(m) => res == DaemonClientError::Transport(m),
            TransferStreamDecodeError::Invalid(m) => res matches DaemonClientError::Decode(d) && d@ == "daemon returned "@ + m@,
            TransferStreamDecodeError::MalformedComplete(m) => res == DaemonClientError::Decode(m),
            TransferStreamDecodeError::MalformedError(_) => res matches DaemonClientError::Decode(d)
                && d@ == "daemon returned malformed transfer stream error frame"@,
            TransferStreamDecodeError::ErrorFrame { code, message } => match res {
                DaemonClientError::Rpc { status, status_text, code: Some(k), message: msg } =>
                    msg == message && code_wire(k) == code@ && code_known(k) == spec_from_wire(code@)
                    && status == (match spec_from_wire(code@) {
                        Some(RpcErrorCode::Internal) | Some(RpcErrorCode::TransferFailed) | None => 500u16,
                        _ => 400u16,
                    })
                    && status_text@ == status_line(status),
                _ => false,
            },
        },
{
    match err {
        TransferStreamDecodeError::Transport(m) => DaemonClientError::Transport(m),
        TransferStreamDecodeError::Invalid(m) => {
            let mut out = String::from_str("daemon returned ");
            out.append(m.as_str());
            DaemonClientError::Decode(out)
        },
        TransferStreamDecodeError::MalformedComplete(m) => DaemonClientError::Decode(m),
        TransferStreamDecodeError::MalformedError(_) => {
            DaemonClientError::Decode(String::from_str("daemon returned malformed transfer stream error frame"))
        },
        TransferStreamDecodeError::ErrorFrame { code, message } => {
            let code = DaemonRpcCode::from_wire_value(code);
            let status = status_for_terminal_error(code.known());
            let status_text = if status == 400 {
                String::from_str("400 Bad Request")
            } else {
                String::from_str("500 Internal Server Error")
            };
            DaemonClientError::Rpc { status, status_text, code: Some(code), message }
        },
    }
}

} // verus!
