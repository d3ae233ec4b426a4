//! The `remote-exec` command line: how its arguments turn into tool inputs,
//! and how a tool's answer turns into output and an exit status.
use base64::Engine;
use vstd::prelude::*;

use crate::client::{first_input_image_from, opt_view, ToolResponse};
use crate::port_forward::entry::ForwardPortProtocol;
use crate::text::{has_prefix, has_suffix, spec_split_once, split_once, str_eq, starts_with, ends_with};

verus! {

pub const EXIT_SUCCESS: u8 = 0;
pub const EXIT_USAGE: u8 = 2;
pub const EXIT_CONFIG: u8 = 3;
pub const EXIT_CONNECTION: u8 = 4;
pub const EXIT_TOOL: u8 = 5;

/// A failed command: the process's exit status and the error shown.
pub struct CliError {
    pub exit_code: u8,
    pub error: String,
}

impl CliError {
    pub fn usage(error: String) -> (res: Self)
        ensures
            res.exit_code == EXIT_USAGE,
            res.error == error,
    {
        CliError { exit_code: EXIT_USAGE, error }
    }

    pub fn config(error: String) -> (res: Self)
        ensures
            res.exit_code == EXIT_CONFIG,
            res.error == error,
    {
        CliError { exit_code: EXIT_CONFIG, error }
    }

    pub fn connection(error: String) -> (res: Self)
        ensures
            res.exit_code == EXIT_CONNECTION,
            res.error == error,
    {
        CliError { exit_code: EXIT_CONNECTION, error }
    }
}

/// The exit status after a tool answered.
pub fn status_code(is_error: bool) -> (res: u8)
    ensures
        res == if is_error { EXIT_TOOL } else { EXIT_SUCCESS },
{
    if is_error {
        EXIT_TOOL
    } else {
        EXIT_SUCCESS
    }
}

/// How the command reaches a broker.
#[derive(Debug, Clone)]
pub enum Connection {
    Config { config_path: String },
    StreamableHttp { url: String },
}

/// The connection the arguments name; the argument parser lets through
/// exactly one of the two.
pub fn resolve_connection(broker_config: Option<String>, broker_url: Option<String>) -> (res: Connection)
    requires
        broker_config is Some != broker_url is Some,
    ensures
        match broker_config {
            Some(p) => res == Connection::Config { config_path: p },
            None => res == Connection::StreamableHttp { url: broker_url->0 },
        },
{
    match broker_config {
        Some(config_path) => Connection::Config { config_path },
        None => match broker_url {
            Some(url) => Connection::StreamableHttp { url },
            None => Connection::StreamableHttp { url: String::new() },
        },
    }
}

/// A PTY size for `write-stdin`.
#[derive(Debug, Clone, Copy, PartialEq, Eq, Structural)]
pub struct ExecPtySize {
    pub rows: u16,
    pub cols: u16,
}

pub open spec fn spec_write_stdin_pty_size(rows: Option<u16>, cols: Option<u16>) -> Result<Option<ExecPtySize>, Seq<char>> {
    match (rows, cols) {
        (None, None) => Ok(None),
        (Some(r), Some(c)) => if r > 0 && c > 0 {
            Ok(Some(ExecPtySize { rows: r, cols: c }))
        } else {
            Err("--pty-rows and --pty-cols must be greater than zero"@)
        },
        _ => Err("--pty-rows and --pty-cols must be provided together"@),
    }
}

/// The PTY size given by `--pty-rows` and `--pty-cols`: both or neither,
/// and neither zero.
pub fn write_stdin_pty_size(rows: Option<u16>, cols: Option<u16>) -> (res: Result<Option<ExecPtySize>, String>)
    ensures
        match spec_write_stdin_pty_size(rows, cols) {
            Ok(v) => res == Ok::<Option<ExecPtySize>, String>(v),
            Err(m) => res matches Err(e) && e@ == m,
        },
{
    match (rows, cols) {
        (None, None) => Ok(None),
        (Some(r), Some(c)) => {
            if r > 0 && c > 0 {
                Ok(Some(ExecPtySize { rows: r, cols: c }))
            } else {
                Err(String::from_str("--pty-rows and --pty-cols must be greater than zero"))
            }
        },
        _ => Err(String::from_str("--pty-rows and --pty-cols must be provided together")),
    }
}

/// `--login` asks for a login shell, `--no-login` for none; neither, or
/// both, leaves it to the target.
pub fn resolve_login_flag(login: bool, no_login: bool) -> (res: Option<bool>)
    ensures
        res == if login && !no_login {
            Some(true)
        } else if !login && no_login {
            Some(false)
        } else {
            None::<bool>
        },
{
    if login && !no_login {
        Some(true)
    } else if !login && no_login {
        Some(false)
    } else {
        None
    }
}

/// Where a text argument comes from.
#[derive(Debug)]
pub enum TextInputSource {
    Inline(String),
    /// A file to read; `-` is standard input.
    File(String),
    Absent,
}

pub open spec fn both_text_sources_text() -> Seq<char> {
    "provide either inline text or a file path, not both"@
}

/// The source of a text argument given inline or as a file, not both.
pub fn text_input_source(inline: Option<String>, file: Option<String>) -> (res: Result<TextInputSource, String>)
    ensures
        match (inline, file) {
            (Some(t), None) => res == Ok::<TextInputSource, String>(TextInputSource::Inline(t)),
            (None, Some(p)) => res == Ok::<TextInputSource, String>(TextInputSource::File(p)),
            (None, None) => res == Ok::<TextInputSource, String>(TextInputSource::Absent),
            (Some(_), Some(_)) => res matches Err(e) && e@ == both_text_sources_text(),
        },
{
    match (inline, file) {
        (Some(text), None) => Ok(TextInputSource::Inline(text)),
        (None, Some(path)) => Ok(TextInputSource::File(path)),
        (None, None) => Ok(TextInputSource::Absent),
        (Some(_), Some(_)) => Err(String::from_str("provide either inline text or a file path, not both")),
    }
}

/// A required text argument: its text, or the error when none was given.
pub fn require_text_input(text: Option<String>) -> (res: Result<String, String>)
    ensures
        match text {
            Some(t) => res == Ok::<String, String>(t),
            None => res matches Err(e) && e@ == "missing required text input"@,
        },
{
    match text {
        Some(t) => Ok(t),
        None => Err(String::from_str("missing required text input")),
    }
}

/// Whether a text-file argument means standard input.
pub fn is_stdin_path(path: &str) -> (res: bool)
    ensures
        res == (path@ == "-"@),
{
    str_eq(path, "-")
}

/// A file or directory on a target.
#[derive(Debug)]
pub struct TransferEndpoint {
    pub target: String,
    pub path: String,
}

pub open spec fn invalid_endpoint_text(value: Seq<char>) -> Seq<char> {
    "invalid endpoint `"@ + value + "`; expected <target>:<path>"@
}

/// What `<target>:<path>` stands for: the target and the path, split at
/// the first colon, or the error message.
pub open spec fn spec_parse_endpoint(value: Seq<char>) -> Result<(Seq<char>, Seq<char>), Seq<char>> {
    match spec_split_once(value, ':') {
        None => Err(invalid_endpoint_text(value)),
        Some((t, p)) => if t.len() == 0 {
            Err("endpoint target must not be empty"@)
        } else if p.len() == 0 {
            Err("endpoint path must not be empty"@)
        } else {
            Ok((t, p))
        },
    }
}

/// Whether `ep` is what `value` parses to.
pub open spec fn endpoint_parsed_as(ep: TransferEndpoint, value: Seq<char>) -> bool {
    spec_parse_endpoint(value) matches Ok((t, p)) && ep.target@ == t && ep.path@ == p
}

/// Parses `<target>:<path>`, split at the first colon.
pub fn parse_transfer_endpoint(value: &str) -> (res: Result<TransferEndpoint, String>)
    ensures
        match spec_parse_endpoint(value@) {
            Ok((t, p)) => res matches Ok(ep) && ep.target@ == t && ep.path@ == p,
            Err(m) => res matches Err(e) && e@ == m,
        },
{
    let (target, path) = match split_once(value, ':') {
        Some(parts) => parts,
        None => {
            let mut msg = String::from_str("invalid endpoint `");
            msg.append(value);
            msg.append("`; expected <target>:<path>");
            return Err(msg);
        },
    };
    if target.unicode_len() == 0 {
        return Err(String::from_str("endpoint target must not be empty"));
    }
    if path.unicode_len() == 0 {
        return Err(String::from_str("endpoint path must not be empty"));
    }
    Ok(TransferEndpoint { target, path })
}

/// One forward asked for on the command line.
#[derive(Debug)]
pub struct ForwardPortSpec {
    pub listen_endpoint: String,
    pub connect_endpoint: String,
    pub protocol: ForwardPortProtocol,
}

pub open spec fn invalid_forward_text(value: Seq<char>) -> Seq<char> {
    "invalid forward `"@ + value + "`; expected <protocol>:<listen>=<connect>"@
}

/// What `<protocol>:<listen>=<connect>` stands for.
pub open spec fn spec_parse_forward(value: Seq<char>) -> Result<(ForwardPortProtocol, Seq<char>, Seq<char>), Seq<char>> {
    match spec_split_once(value, ':') {
        None => Err(invalid_forward_text(value)),
        Some((proto, endpoints)) => match spec_split_once(endpoints, '=') {
            None => Err(invalid_forward_text(value)),
            Some((listen, connect)) => {
                if proto != "tcp"@ && proto != "udp"@ {
                    Err("unsupported forward protocol `"@ + proto + "`"@)
                } else if listen.len() == 0 {
                    Err("forward listen endpoint must not be empty"@)
                } else if connect.len() == 0 {
                    Err("forward connect endpoint must not be empty"@)
                } else {
                    Ok((if proto == "tcp"@ { ForwardPortProtocol::Tcp } else { ForwardPortProtocol::Udp }, listen, connect))
                }
            },
        },
    }
}

fn invalid_forward_message(value: &str) -> (res: String)
    ensures
        res@ == invalid_forward_text(value@),
{
    let mut msg = String::from_str("invalid forward `");
    msg.append(value);
    msg.append("`; expected <protocol>:<listen>=<connect>");
    msg
}

/// Parses `<protocol>:<listen>=<connect>`, the protocol `tcp` or `udp`.
pub fn parse_forward_spec(value: &str) -> (res: Result<ForwardPortSpec, String>)
    ensures
        match spec_parse_forward(value@) {
            Ok((p, l, c)) => res matches Ok(s) && s.protocol == p && s.listen_endpoint@ == l && s.connect_endpoint@ == c,
            Err(m) => res matches Err(e) && e@ == m,
        },
        res matches Ok(s) ==> parsed_as(s, value@),
{
    proof {
        reveal(parsed_as);
    }
    let (protocol, endpoints) = match split_once(value, ':') {
        Some(parts) => parts,
        None => return Err(invalid_forward_message(value)),
    };
    let (listen_endpoint, connect_endpoint) = match split_once(endpoints.as_str(), '=') {
        Some(parts) => parts,
        None => return Err(invalid_forward_message(value)),
    };
    let protocol = if str_eq(protocol.as_str(), "tcp") {
        ForwardPortProtocol::Tcp
    } else if str_eq(protocol.as_str(), "udp") {
        ForwardPortProtocol::Udp
    } else {
        let mut msg = String::from_str("unsupported forward protocol `");
        msg.append(protocol.as_str());
        msg.append("`");
        return Err(msg);
    };
    if listen_endpoint.unicode_len() == 0 {
        return Err(String::from_str("forward listen endpoint must not be empty"));
    }
    if connect_endpoint.unicode_len() == 0 {
        return Err(String::from_str("forward connect endpoint must not be empty"));
    }
    Ok(ForwardPortSpec { listen_endpoint, connect_endpoint, protocol })
}

/// Whether `spec` is what `value` parses to.
#[verifier::opaque]
pub open spec fn parsed_as(spec: ForwardPortSpec, value: Seq<char>) -> bool {
    spec_parse_forward(value) matches Ok((p, l, c)) && spec.protocol == p && spec.listen_endpoint@ == l
        && spec.connect_endpoint@ == c
}

/// Parses each `--forward` in turn; the first bad one is the error.
pub fn parse_forward_specs(values: &Vec<String>) -> (res: Result<Vec<ForwardPortSpec>, String>)
    ensures
        match res {
            Ok(specs) => specs@.len() == values@.len() && forall|i: int| 0 <= i < values@.len() ==>
                parsed_as(#[trigger] specs@[i], values@[i]@),
            Err(e) => exists|i: int| 0 <= i < values@.len()
                && (forall|j: int| 0 <= j < i ==> #[trigger] spec_parse_forward(values@[j]@) is Ok)
                && spec_parse_forward(values@[i]@) == Err::<(ForwardPortProtocol, Seq<char>, Seq<char>), Seq<char>>(e@),
        },
{
    let mut specs: Vec<ForwardPortSpec> = Vec::new();
    let mut i: usize = 0;
    while i < values.len()
        invariant
            i <= values@.len(),
            specs@.len() == i,
            forall|j: int| 0 <= j < i ==> parsed_as(#[trigger] specs@[j], values@[j]@),
        decreases values@.len() - i,
    {
        match parse_forward_spec(values[i].as_str()) {
            Ok(spec) => specs.push(spec),
            Err(e) => {
                assert forall|j: int| 0 <= j < i implies #[trigger] spec_parse_forward(values@[j]@) is Ok by {
                    reveal(parsed_as);
                    assert(parsed_as(specs@[j], values@[j]@));
                }
                return Err(e);
            },
        }
        i = i + 1;
    }
    Ok(specs)
}

/// Where a plain-text answer goes: `Some((true, text))` to standard error,
/// `Some((false, text))` to standard output, `None` when there is nothing.
pub fn plain_response_output(is_error: bool, text_output: &str) -> (res: Option<(bool, String)>)
    ensures
        if text_output@.len() == 0 {
            res is None
        } else {
            res matches Some((to_stderr, t)) && to_stderr == is_error && t@ == text_output@
        },
{
    if text_output.unicode_len() == 0 {
        None
    } else {
        Some((is_error, text_output.to_owned()))
    }
}

/// The bytes of standard base64 `text`, or `None` when it is not valid
/// standard base64.
pub uninterp spec fn base64_standard_decode(text: Seq<char>) -> Option<Seq<u8>>;

/// Calls `Engine::decode` of `base64::engine::general_purpose::STANDARD`
/// (padded standard alphabet). What it returns is named by
/// `base64_standard_decode`; the encoding is not stated here.
#[verifier::external_body]
fn decode_base64_standard(text: &str) -> (res: Option<Vec<u8>>)
    ensures
        match base64_standard_decode(text@) {
            Some(b) => res matches Some(v) && v@ == b,
            None => res is None,
        },
{
    base64::engine::general_purpose::STANDARD.decode(text).ok()
}

pub open spec fn spec_data_url_parts(image_url: Seq<char>) -> Result<Seq<char>, Seq<char>> {
    match spec_split_once(image_url, ',') {
        None => Err("image payload was not a valid data URL"@),
        Some((meta, payload)) => if has_prefix(meta, "data:"@) && has_suffix(meta, ";base64"@) {
            Ok(payload)
        } else {
            Err("image payload was not a base64 data URL"@)
        },
    }
}

/// The base64 payload of a `data:...;base64,` URL.
pub fn data_url_payload(image_url: &str) -> (res: Result<String, String>)
    ensures
        match spec_data_url_parts(image_url@) {
            Ok(p) => res matches Ok(s) && s@ == p,
            Err(m) => res matches Err(e) && e@ == m,
        },
{
    let (metadata, payload) = match split_once(image_url, ',') {
        Some(parts) => parts,
        None => return Err(String::from_str("image payload was not a valid data URL")),
    };
    if !(starts_with(metadata.as_str(), "data:") && ends_with(metadata.as_str(), ";base64")) {
        return Err(String::from_str("image payload was not a base64 data URL"));
    }
    Ok(payload)
}

/// The bytes of an image given as a base64 data URL.
pub fn decode_data_url(image_url: &str) -> (res: Result<Vec<u8>, String>)
    ensures
        match spec_data_url_parts(image_url@) {
            Err(m) => res matches Err(e) && e@ == m,
            Ok(p) => match base64_standard_decode(p) {
                Some(b) => res matches Ok(v) && v@ == b,
                None => res matches Err(e) && e@ == "decoding image data URL"@,
            },
        },
{
    let payload = match data_url_payload(image_url) {
        Ok(p) => p,
        Err(e) => return Err(e),
    };
    match decode_base64_standard(payload.as_str()) {
        Some(bytes) => Ok(bytes),
        None => Err(String::from_str("decoding image data URL")),
    }
}

/// How an existing destination is handled.
#[derive(Clone, Copy, Debug, PartialEq, Eq, Structural)]
pub enum TransferOverwrite {
    Fail,
    Merge,
    Replace,
}

/// How the destination path is resolved.
#[derive(Clone, Copy, Debug, PartialEq, Eq, Structural)]
pub enum TransferDestinationMode {
    Auto,
    Exact,
    IntoDirectory,
}

/// How symlinks are handled while exporting.
#[derive(Clone, Copy, Debug, PartialEq, Eq, Structural)]
pub enum TransferSymlinkMode {
    Preserve,
    Follow,
    Skip,
}

/// The `transfer-files` arguments as given.
#[derive(Debug)]
pub struct TransferFilesArgs {
    pub sources: Vec<String>,
    pub destination: String,
    pub exclude: Vec<String>,
    pub overwrite: TransferOverwrite,
    pub destination_mode: TransferDestinationMode,
    pub symlink_mode: TransferSymlinkMode,
    pub create_parent: bool,
}

/// The `transfer_files` tool input: a single source goes in `source`, two
/// or more in `sources`.
#[derive(Debug)]
pub struct TransferFilesInput {
    pub source: Option<TransferEndpoint>,
    pub sources: Vec<TransferEndpoint>,
    pub destination: TransferEndpoint,
    pub exclude: Vec<String>,
    pub overwrite: TransferOverwrite,
    pub destination_mode: TransferDestinationMode,
    pub symlink_mode: TransferSymlinkMode,
    pub create_parent: bool,
}

/// Parses each endpoint in turn; the first bad one is the error.
pub fn parse_transfer_endpoints(values: &Vec<String>) -> (res: Result<Vec<TransferEndpoint>, String>)
    ensures
        match res {
            Ok(eps) => eps@.len() == values@.len() && forall|i: int| 0 <= i < values@.len() ==>
                endpoint_parsed_as(#[trigger] eps@[i], values@[i]@),
            Err(e) => exists|i: int| 0 <= i < values@.len()
                && (forall|j: int| 0 <= j < i ==> #[trigger] spec_parse_endpoint(values@[j]@) is Ok)
                && spec_parse_endpoint(values@[i]@) == Err::<(Seq<char>, Seq<char>), Seq<char>>(e@),
        },
{
    let mut eps: Vec<TransferEndpoint> = Vec::new();
    let mut i: usize = 0;
    while i < values.len()
        invariant
            i <= values@.len(),
            eps@.len() == i,
            forall|j: int| 0 <= j < i ==> endpoint_parsed_as(#[trigger] eps@[j], values@[j]@),
        decreases values@.len() - i,
    {
        match parse_transfer_endpoint(values[i].as_str()) {
            Ok(ep) => eps.push(ep),
            Err(e) => {
                assert forall|j: int| 0 <= j < i implies #[trigger] spec_parse_endpoint(values@[j]@) is Ok by {
                    assert(endpoint_parsed_as(eps@[j], values@[j]@));
                }
                return Err(e);
            },
        }
        i = i + 1;
    }
    Ok(eps)
}

/// The `transfer_files` input of the arguments: the sources are parsed
/// first, then the destination; the first bad endpoint is the error.
pub fn transfer_files_input(args: TransferFilesArgs) -> (res: Result<TransferFilesInput, String>)
    ensures
        match res {
            Ok(input) => {
                &&& forall|i: int| 0 <= i < args.sources@.len() ==> #[trigger] spec_parse_endpoint(args.sources@[i]@) is Ok
                &&& endpoint_parsed_as(input.destination, args.destination@)
                &&& if args.sources@.len() == 1 {
                    input.source matches Some(ep) && endpoint_parsed_as(ep, args.sources@[0]@)
                        && input.sources@.len() == 0
                } else {
                    input.source is None && input.sources@.len() == args.sources@.len()
                        && forall|i: int| 0 <= i < args.sources@.len() ==>
                            endpoint_parsed_as(#[trigger] input.sources@[i], args.sources@[i]@)
                }
                &&& input.exclude@ == args.exclude@
                &&& input.overwrite == args.overwrite
                &&& input.destination_mode == args.destination_mode
                &&& input.symlink_mode == args.symlink_mode
                &&& input.create_parent == args.create_parent
            },
            Err(e) => {
                ||| exists|i: int| 0 <= i < args.sources@.len()
                    && (forall|j: int| 0 <= j < i ==> #[trigger] spec_parse_endpoint(args.sources@[j]@) is Ok)
                    && spec_parse_endpoint(args.sources@[i]@) == Err::<(Seq<char>, Seq<char>), Seq<char>>(e@)
                ||| (forall|j: int| 0 <= j < args.sources@.len() ==> #[trigger] spec_parse_endpoint(args.sources@[j]@) is Ok)
                    && spec_parse_endpoint(args.destination@) == Err::<(Seq<char>, Seq<char>), Seq<char>>(e@)
            },
        },
{
    let mut endpoints = match parse_transfer_endpoints(&args.sources) {
        Ok(eps) => eps,
        Err(e) => return Err(e),
    };
    assert forall|i: int| 0 <= i < args.sources@.len() implies #[trigger] spec_parse_endpoint(args.sources@[i]@) is Ok by {
        assert(endpoint_parsed_as(endpoints@[i], args.sources@[i]@));
    }
    let destination = match parse_transfer_endpoint(args.destination.as_str()) {
        Ok(ep) => ep,
        Err(e) => return Err(e),
    };
    let (source, sources) = if endpoints.len() == 1 {
        let ghost before = endpoints@;
        let first = endpoints.pop();
        match first {
            Some(ep) => {
                assert(ep == before[0]);
                (Some(ep), Vec::new())
            },
            None => (None, Vec::new()),
        }
    } else {
        (None, endpoints)
    };
    Ok(TransferFilesInput {
        source,
        sources,
        destination,
        exclude: args.exclude,
        overwrite: args.overwrite,
        destination_mode: args.destination_mode,
        symlink_mode: args.symlink_mode,
        create_parent: args.create_parent,
    })
}

/// A `forward-ports` action as given on the command line.
#[allow(inconsistent_fields)]
#[derive(Debug)]
pub enum ForwardPortsAction {
    Open { listen_side: String, connect_side: String, forwards: Vec<String> },
    List { listen_side: Option<String>, connect_side: Option<String>, forward_ids: Vec<String> },
    Close { forward_ids: Vec<String> },
}

/// The `forward_ports` tool input.
#[allow(inconsistent_fields)]
#[derive(Debug)]
pub enum ForwardPortsInput {
    Open { listen_side: String, connect_side: String, forwards: Vec<ForwardPortSpec> },
    List { listen_side: Option<String>, connect_side: Option<String>, forward_ids: Vec<String> },
    Close { forward_ids: Vec<String> },
}

/// The `forward_ports` input of an action: an `open` has each forward spec
/// parsed, the first bad one being the error; `list` and `close` pass their
/// arguments on.
pub fn forward_ports_input(action: ForwardPortsAction) -> (res: Result<ForwardPortsInput, String>)
    ensures
        match action {
            ForwardPortsAction::Open { listen_side, connect_side, forwards } => match res {
                Ok(ForwardPortsInput::Open { listen_side: l, connect_side: c, forwards: f }) =>
                    l@ == listen_side@ && c@ == connect_side@ && f@.len() == forwards@.len()
                    && forall|i: int| 0 <= i < forwards@.len() ==> parsed_as(#[trigger] f@[i], forwards@[i]@),
                Ok(_) => false,
                Err(e) => exists|i: int| 0 <= i < forwards@.len()
                    && (forall|j: int| 0 <= j < i ==> #[trigger] spec_parse_forward(forwards@[j]@) is Ok)
                    && spec_parse_forward(forwards@[i]@) == Err::<(ForwardPortProtocol, Seq<char>, Seq<char>), Seq<char>>(e@),
            },
            ForwardPortsAction::List { listen_side, connect_side, forward_ids } =>
                res matches Ok(ForwardPortsInput::List { listen_side: l, connect_side: c, forward_ids: f })
                && l == listen_side && c == connect_side && f@ == forward_ids@,
            ForwardPortsAction::Close { forward_ids } =>
                res matches Ok(ForwardPortsInput::Close { forward_ids: f }) && f@ == forward_ids@,
        },
{
    match action {
        ForwardPortsAction::Open { listen_side, connect_side, forwards } => {
            match parse_forward_specs(&forwards) {
                Ok(specs) => Ok(ForwardPortsInput::Open { listen_side, connect_side, forwards: specs }),
                Err(e) => Err(e),
            }
        },
        ForwardPortsAction::List { listen_side, connect_side, forward_ids } =>
            Ok(ForwardPortsInput::List { listen_side, connect_side, forward_ids }),
        ForwardPortsAction::Close { forward_ids } => Ok(ForwardPortsInput::Close { forward_ids }),
    }
}

/// The `exec-command` arguments as given.
#[derive(Debug)]
pub struct ExecCommandArgs {
    pub target: String,
    pub cmd: String,
    pub workdir: Option<String>,
    pub shell: Option<String>,
    pub tty: bool,
    pub yield_time_ms: Option<u64>,
    pub max_output_tokens: Option<u32>,
    pub login: bool,
    pub no_login: bool,
}

/// The `exec_command` tool input.
#[derive(Debug)]
pub struct ExecCommandInput {
    pub target: String,
    pub cmd: String,
    pub workdir: Option<String>,
    pub shell: Option<String>,
    pub tty: bool,
    pub yield_time_ms: Option<u64>,
    pub max_output_tokens: Option<u32>,
    pub login: Option<bool>,
}

/// The `exec_command` input of the arguments, `--login`/`--no-login`
/// resolved as `resolve_login_flag` does.
pub fn exec_command_input(args: ExecCommandArgs) -> (res: ExecCommandInput)
    ensures
        res.target@ == args.target@,
        res.cmd@ == args.cmd@,
        res.workdir == args.workdir,
        res.shell == args.shell,
        res.tty == args.tty,
        res.yield_time_ms == args.yield_time_ms,
        res.max_output_tokens == args.max_output_tokens,
        res.login == (if args.login && !args.no_login {
            Some(true)
        } else if !args.login && args.no_login {
            Some(false)
        } else {
            None::<bool>
        }),
{
    let login = resolve_login_flag(args.login, args.no_login);
    ExecCommandInput {
        target: args.target,
        cmd: args.cmd,
        workdir: args.workdir,
        shell: args.shell,
        tty: args.tty,
        yield_time_ms: args.yield_time_ms,
        max_output_tokens: args.max_output_tokens,
        login,
    }
}

/// The `write_stdin` tool input.
#[derive(Debug)]
pub struct WriteStdinInput {
    pub session_id: String,
    pub chars: Option<String>,
    pub yield_time_ms: Option<u64>,
    pub max_output_tokens: Option<u32>,
    pub pty_size: Option<ExecPtySize>,
    pub target: Option<String>,
}

/// The `write_stdin` input, the text to write already read from where the
/// arguments named it; the PTY size is checked as `write_stdin_pty_size`
/// does, its error being the error.
pub fn write_stdin_input(
    session_id: String,
    chars: Option<String>,
    yield_time_ms: Option<u64>,
    max_output_tokens: Option<u32>,
    pty_rows: Option<u16>,
    pty_cols: Option<u16>,
    target: Option<String>,
) -> (res: Result<WriteStdinInput, String>)
    ensures
        match spec_write_stdin_pty_size(pty_rows, pty_cols) {
            Ok(size) => res matches Ok(input) && input.session_id@ == session_id@ && input.chars == chars
                && input.yield_time_ms == yield_time_ms && input.max_output_tokens == max_output_tokens
                && input.pty_size == size && input.target == target,
            Err(m) => res matches Err(e) && e@ == m,
        },
{
    let pty_size = match write_stdin_pty_size(pty_rows, pty_cols) {
        Ok(size) => size,
        Err(e) => return Err(e),
    };
    Ok(WriteStdinInput { session_id, chars, yield_time_ms, max_output_tokens, pty_size, target })
}

/// What `view-image` prints for an answer.
#[derive(Debug)]
pub enum ViewImageEmit {
    /// The whole answer as JSON.
    Json,
    /// The answer's text, as for any other tool.
    PlainResponse,
    /// One line on standard output.
    Line(String),
    /// Nothing.
    Nothing,
}

/// What `view-image` prints: JSON when asked for, the error text of a
/// failed call, where the image was written, else the image URL if any.
pub fn view_image_emit(response: &ToolResponse, json: bool, output_path: Option<&str>) -> (res: ViewImageEmit)
    ensures
        json ==> res is Json,
        !json && response.is_error ==> res is PlainResponse,
        !json && !response.is_error ==> match output_path {
            Some(p) => res matches ViewImageEmit::Line(l) && l@ == "Wrote image to "@ + p@,
            None => match response_image_url(*response) {
                Some(u) => res matches ViewImageEmit::Line(l) && l@ == u,
                None => res is Nothing,
            },
        },
{
    if json {
        return ViewImageEmit::Json;
    }
    if response.is_error {
        return ViewImageEmit::PlainResponse;
    }
    if let Some(path) = output_path {
        let mut line = String::from_str("Wrote image to ");
        line.append(path);
        return ViewImageEmit::Line(line);
    }
    match response.first_image_url() {
        Some(url) => ViewImageEmit::Line(url),
        None => ViewImageEmit::Nothing,
    }
}

/// The image URL `first_image_url` finds in an answer.
pub open spec fn response_image_url(response: ToolResponse) -> Option<Seq<char>> {
    match opt_view(response.structured_image_url) {
        Some(u) => Some(u),
        None => first_input_image_from(response.raw_content@, 0),
    }
}

/// The bytes to write for `view-image --out`: the answer's image URL decoded
/// as a base64 data URL.
pub fn image_output_bytes(response: &ToolResponse) -> (res: Result<Vec<u8>, String>)
    ensures
        match response_image_url(*response) {
            None => res matches Err(e) && e@ == "view_image response did not include an image payload"@,
            Some(u) => match spec_data_url_parts(u) {
                Err(m) => res matches Err(e) && e@ == m,
                Ok(p) => match base64_standard_decode(p) {
                    Some(b) => res matches Ok(v) && v@ == b,
                    None => res matches Err(e) && e@ == "decoding image data URL"@,
                },
            },
        },
{
    let image_url = match response.first_image_url() {
        Some(url) => url,
        None => return Err(String::from_str("view_image response did not include an image payload")),
    };
    decode_data_url(image_url.as_str())
}

} // verus!
