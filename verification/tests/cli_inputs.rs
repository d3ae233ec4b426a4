use remote_exec_broker::cli::{
    exec_command_input, forward_ports_input, image_output_bytes, transfer_files_input, view_image_emit,
    write_stdin_input, ExecCommandArgs, ForwardPortsAction, ForwardPortsInput, TransferDestinationMode,
    TransferFilesArgs, TransferOverwrite, TransferSymlinkMode, ViewImageEmit,
};
use remote_exec_broker::client::{normalize_content, ContentBlock, RawContent, ToolResponse};
use remote_exec_broker::port_forward::entry::ForwardPortProtocol;

fn transfer_args(sources: &[&str], destination: &str) -> TransferFilesArgs {
    TransferFilesArgs {
        sources: sources.iter().map(|s| s.to_string()).collect(),
        destination: destination.to_string(),
        exclude: vec!["*.log".to_string()],
        overwrite: TransferOverwrite::Replace,
        destination_mode: TransferDestinationMode::IntoDirectory,
        symlink_mode: TransferSymlinkMode::Follow,
        create_parent: true,
    }
}

fn response(is_error: bool, structured: Option<&str>, raw: Vec<RawContent>) -> ToolResponse {
    ToolResponse {
        is_error,
        text_output: String::new(),
        structured_image_url: structured.map(|s| s.to_string()),
        raw_content: raw,
    }
}

fn raw(kind: Option<&str>, image_url: Option<&str>) -> RawContent {
    RawContent { kind: kind.map(|s| s.to_string()), text: None, image_url: image_url.map(|s| s.to_string()) }
}

#[test]
fn single_transfer_source_goes_in_source() {
    let input = transfer_files_input(transfer_args(&["builder-a:/tmp/a"], "local:/tmp/out")).unwrap();
    let source = input.source.unwrap();
    assert_eq!(source.target, "builder-a");
    assert_eq!(source.path, "/tmp/a");
    assert!(input.sources.is_empty());
    assert_eq!(input.destination.target, "local");
    assert_eq!(input.destination.path, "/tmp/out");
    assert_eq!(input.exclude, vec!["*.log".to_string()]);
    assert_eq!(input.overwrite, TransferOverwrite::Replace);
    assert_eq!(input.destination_mode, TransferDestinationMode::IntoDirectory);
    assert_eq!(input.symlink_mode, TransferSymlinkMode::Follow);
    assert!(input.create_parent);
}

#[test]
fn several_transfer_sources_go_in_sources() {
    let input =
        transfer_files_input(transfer_args(&["builder-a:/tmp/a", "builder-b:/tmp/b"], "local:/tmp/out")).unwrap();
    assert!(input.source.is_none());
    assert_eq!(input.sources.len(), 2);
    assert_eq!(input.sources[1].target, "builder-b");
    assert_eq!(input.sources[1].path, "/tmp/b");
}

#[test]
fn bad_transfer_source_is_reported_before_bad_destination() {
    let err = transfer_files_input(transfer_args(&["builder-a:/tmp/a", "nocolon"], ":/x")).unwrap_err();
    assert_eq!(err, "invalid endpoint `nocolon`; expected <target>:<path>");
    let err = transfer_files_input(transfer_args(&["builder-a:/tmp/a"], ":/x")).unwrap_err();
    assert_eq!(err, "endpoint target must not be empty");
}

#[test]
fn forward_ports_open_parses_every_spec() {
    let input = forward_ports_input(ForwardPortsAction::Open {
        listen_side: "local".to_string(),
        connect_side: "builder-a".to_string(),
        forwards: vec!["tcp:127.0.0.1:0=127.0.0.1:5432".to_string(), "udp:0.0.0.0:53=10.0.0.1:53".to_string()],
    })
    .unwrap();
    match input {
        ForwardPortsInput::Open { listen_side, connect_side, forwards } => {
            assert_eq!(listen_side, "local");
            assert_eq!(connect_side, "builder-a");
            assert_eq!(forwards.len(), 2);
            assert_eq!(forwards[0].protocol, ForwardPortProtocol::Tcp);
            assert_eq!(forwards[0].listen_endpoint, "127.0.0.1:0");
            assert_eq!(forwards[0].connect_endpoint, "127.0.0.1:5432");
            assert_eq!(forwards[1].protocol, ForwardPortProtocol::Udp);
        }
        _ => panic!("expected an open input"),
    }
    let err = forward_ports_input(ForwardPortsAction::Open {
        listen_side: "local".to_string(),
        connect_side: "builder-a".to_string(),
        forwards: vec!["sctp:1=2".to_string()],
    })
    .unwrap_err();
    assert_eq!(err, "unsupported forward protocol `sctp`");
}

#[test]
fn forward_ports_list_and_close_pass_arguments_on() {
    match forward_ports_input(ForwardPortsAction::List {
        listen_side: Some("local".to_string()),
        connect_side: None,
        forward_ids: vec!["fwd_1".to_string()],
    })
    .unwrap()
    {
        ForwardPortsInput::List { listen_side, connect_side, forward_ids } => {
            assert_eq!(listen_side.as_deref(), Some("local"));
            assert!(connect_side.is_none());
            assert_eq!(forward_ids, vec!["fwd_1".to_string()]);
        }
        _ => panic!("expected a list input"),
    }
    match forward_ports_input(ForwardPortsAction::Close { forward_ids: vec!["fwd_2".to_string()] }).unwrap() {
        ForwardPortsInput::Close { forward_ids } => assert_eq!(forward_ids, vec!["fwd_2".to_string()]),
        _ => panic!("expected a close input"),
    }
}

#[test]
fn exec_command_input_resolves_login() {
    let input = exec_command_input(ExecCommandArgs {
        target: "builder-a".to_string(),
        cmd: "uname -a".to_string(),
        workdir: Some("/tmp".to_string()),
        shell: None,
        tty: true,
        yield_time_ms: Some(250),
        max_output_tokens: Some(100),
        login: false,
        no_login: true,
    });
    assert_eq!(input.target, "builder-a");
    assert_eq!(input.cmd, "uname -a");
    assert_eq!(input.workdir.as_deref(), Some("/tmp"));
    assert!(input.tty);
    assert_eq!(input.yield_time_ms, Some(250));
    assert_eq!(input.max_output_tokens, Some(100));
    assert_eq!(input.login, Some(false));
}

#[test]
fn write_stdin_input_checks_pty_size() {
    let input = write_stdin_input(
        "sess-1".to_string(),
        Some("ls\n".to_string()),
        Some(10),
        None,
        Some(24),
        Some(80),
        Some("builder-a".to_string()),
    )
    .unwrap();
    assert_eq!(input.session_id, "sess-1");
    assert_eq!(input.chars.as_deref(), Some("ls\n"));
    let size = input.pty_size.unwrap();
    assert_eq!((size.rows, size.cols), (24, 80));
    assert_eq!(input.target.as_deref(), Some("builder-a"));
    let err = write_stdin_input("sess-1".to_string(), None, None, None, Some(24), None, None).unwrap_err();
    assert_eq!(err, "--pty-rows and --pty-cols must be provided together");
}

#[test]
fn tool_result_text_items_are_joined_by_newlines() {
    let result = ToolResponse::from_call_tool_result(
        vec![
            ContentBlock::Text("first".to_string()),
            ContentBlock::Image { mime_type: "image/png".to_string(), data: "AAAA".to_string() },
            ContentBlock::Text("second".to_string()),
        ],
        None,
        None,
    );
    assert!(!result.is_error);
    assert_eq!(result.text_output, "first\nsecond");
    assert_eq!(result.raw_content.len(), 3);
    assert_eq!(result.raw_content[0].kind.as_deref(), Some("text"));
    assert_eq!(result.raw_content[0].text.as_deref(), Some("first"));
    assert_eq!(result.raw_content[1].kind.as_deref(), Some("input_image"));
    assert_eq!(result.raw_content[1].image_url.as_deref(), Some("data:image/png;base64,AAAA"));
    assert_eq!(result.first_image_url().as_deref(), Some("data:image/png;base64,AAAA"));
    let failed = ToolResponse::from_call_tool_result(Vec::new(), Some(true), None);
    assert!(failed.is_error);
    assert_eq!(failed.text_output, "");
}

#[test]
fn other_content_keeps_its_json_members() {
    let item = normalize_content(&ContentBlock::Other { kind: Some("resource".to_string()), image_url: None });
    assert_eq!(item.kind.as_deref(), Some("resource"));
    assert!(item.text.is_none());
    assert!(item.image_url.is_none());
}

#[test]
fn structured_image_url_wins_over_content_items() {
    let r = response(false, Some("data:image/png;base64,QQ=="), vec![raw(Some("input_image"), Some("data:x;base64,"))]);
    assert_eq!(r.first_image_url().as_deref(), Some("data:image/png;base64,QQ=="));
    let r = response(
        false,
        None,
        vec![raw(Some("text"), Some("ignored")), raw(Some("input_image"), None), raw(Some("input_image"), Some("u2"))],
    );
    assert_eq!(r.first_image_url().as_deref(), Some("u2"));
    assert_eq!(response(false, None, vec![raw(Some("text"), None)]).first_image_url(), None);
}

#[test]
fn view_image_emit_prefers_json_then_errors_then_paths() {
    let r = response(false, Some("data:image/png;base64,QQ=="), Vec::new());
    assert!(matches!(view_image_emit(&r, true, Some("/tmp/x.png")), ViewImageEmit::Json));
    assert!(matches!(view_image_emit(&response(true, None, Vec::new()), false, None), ViewImageEmit::PlainResponse));
    match view_image_emit(&r, false, Some("/tmp/x.png")) {
        ViewImageEmit::Line(line) => assert_eq!(line, "Wrote image to /tmp/x.png"),
        _ => panic!("expected a line"),
    }
    match view_image_emit(&r, false, None) {
        ViewImageEmit::Line(line) => assert_eq!(line, "data:image/png;base64,QQ=="),
        _ => panic!("expected a line"),
    }
    assert!(matches!(view_image_emit(&response(false, None, Vec::new()), false, None), ViewImageEmit::Nothing));
}

#[test]
fn image_output_bytes_decodes_the_image_url() {
    let r = response(false, Some("data:image/png;base64,QUJD"), Vec::new());
    assert_eq!(image_output_bytes(&r).unwrap(), b"ABC".to_vec());
    assert_eq!(
        image_output_bytes(&response(false, None, Vec::new())).unwrap_err(),
        "view_image response did not include an image payload"
    );
    let bad = response(false, Some("data:image/png;base64,***"), Vec::new());
    assert_eq!(image_output_bytes(&bad).unwrap_err(), "decoding image data URL");
}
