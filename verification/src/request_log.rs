//! What the broker records about each request: the request context a tool
//! call runs in, the labels of daemon calls, and how errors name their
//! request.
use vstd::prelude::*;

use crate::text::str_eq;

verus! {

/// The kind of a daemon call, for its log lines.
#[derive(Debug, Clone, Copy, PartialEq, Eq, Structural)]
pub enum RpcCallKind {
    Rpc,
    TransferExport,
    TransferImport,
}

pub open spec fn kind_prefix(kind: RpcCallKind) -> Seq<char> {
    match kind {
        RpcCallKind::Rpc => "daemon rpc"@,
        RpcCallKind::TransferExport => "daemon transfer export"@,
        RpcCallKind::TransferImport => "daemon transfer import"@,
    }
}

impl RpcCallKind {
    /// The log label of this kind of call with `suffix`.
    pub fn label(self, suffix: &str) -> (res: String)
        ensures
            res@ == kind_prefix(self) + " "@ + suffix@,
    {
        let mut out = match self {
            RpcCallKind::Rpc => String::from_str("daemon rpc"),
            RpcCallKind::TransferExport => String::from_str("daemon transfer export"),
            RpcCallKind::TransferImport => String::from_str("daemon transfer import"),
        };
        out.append(" ");
        out.append(suffix);
        out
    }
}

/// What a daemon call is about: the request path, or the destination path
/// of a transfer.
#[derive(Debug, Clone)]
pub enum RpcLogSubject {
    Path(String),
    DestinationPath(String),
}

/// One daemon call, as its log lines describe it. `started_ms` is when it
/// started on the caller's clock.
#[derive(Debug, Clone)]
pub struct RpcCallContext {
    pub target_name: String,
    pub base_url: String,
    pub started_ms: u64,
    pub kind: RpcCallKind,
    pub subject: RpcLogSubject,
}

impl RpcCallContext {
    pub fn path(target_name: String, base_url: String, started_ms: u64, kind: RpcCallKind, path: String) -> (res: Self)
        ensures
            res == (RpcCallContext { target_name, base_url, started_ms, kind, subject: RpcLogSubject::Path(path) }),
    {
        RpcCallContext { target_name, base_url, started_ms, kind, subject: RpcLogSubject::Path(path) }
    }

    pub fn destination_path(
        target_name: String,
        base_url: String,
        started_ms: u64,
        kind: RpcCallKind,
        destination_path: String,
    ) -> (res: Self)
        ensures
            res == (RpcCallContext {
                target_name,
                base_url,
                started_ms,
                kind,
                subject: RpcLogSubject::DestinationPath(destination_path),
            }),
    {
        RpcCallContext {
            target_name,
            base_url,
            started_ms,
            kind,
            subject: RpcLogSubject::DestinationPath(destination_path),
        }
    }

    /// Whether this is a health probe, which logs more quietly.
    pub fn is_health_rpc(&self) -> (res: bool)
        ensures
            res == (self.subject matches RpcLogSubject::Path(p) && p@ == "/v1/health"@),
    {
        match &self.subject {
            RpcLogSubject::Path(p) => str_eq(p.as_str(), "/v1/health"),
            RpcLogSubject::DestinationPath(_) => false,
        }
    }

    /// Milliseconds since the call started (none when the clock reads earlier).
    pub fn elapsed_ms(&self, now_ms: u64) -> (res: u64)
        ensures
            res == if now_ms >= self.started_ms { (now_ms - self.started_ms) as u64 } else { 0 },
    {
        now_ms.saturating_sub(self.started_ms)
    }
}

/// The context of one tool call: its request id, its tool and, once known,
/// the target it works on.
#[derive(Debug, Clone)]
pub struct RequestContext {
    pub request_id: String,
    pub tool: String,
    pub target: Option<String>,
}

impl RequestContext {
    pub fn new(request_id: String, tool: String) -> (res: Self)
        ensures
            res == (RequestContext { request_id, tool, target: None }),
    {
        RequestContext { request_id, tool, target: None }
    }

    /// Records the target; an empty name leaves the context as it was.
    pub fn set_target(&mut self, target: String)
        ensures
            final(self).request_id == old(self).request_id,
            final(self).tool == old(self).tool,
            final(self).target == if target@.len() == 0 { old(self).target } else { Some(target) },
    {
        if target.unicode_len() == 0 {
            return;
        }
        self.target = Some(target);
    }
}

pub open spec fn correlated_error_text(message: Seq<char>, request_id: Seq<char>, tool: Seq<char>, target: Option<Seq<char>>) -> Seq<char> {
    match target {
        Some(t) => "request_id="@ + request_id + " tool="@ + tool + " target="@ + t + ": "@ + message,
        None => "request_id="@ + request_id + " tool="@ + tool + ": "@ + message,
    }
}

/// A tool error that names the request, the tool and the target it ran on.
pub fn format_correlated_error(message: &str, context: &RequestContext) -> (res: String)
    ensures
        res@ == correlated_error_text(message@, context.request_id@, context.tool@, match context.target {
            Some(t) => Some(t@),
            None => None,
        }),
{
    let mut out = String::from_str("request_id=");
    out.append(context.request_id.as_str());
    out.append(" tool=");
    out.append(context.tool.as_str());
    if let Some(target) = &context.target {
        out.append(" target=");
        out.append(target.as_str());
    }
    out.append(": ");
    out.append(message);
    out
}

} // verus!
