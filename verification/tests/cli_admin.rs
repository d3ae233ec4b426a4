use remote_exec_broker::admin::{
    build_daemon_specs, is_blank, invalid_ip_san_message, parse_daemon_sans, parse_subject_alt_name, resolve_dev_init_ca, run,
    CaSource, CertsArgs, CertsCommand, CertsPlan, DevInitArgs, InitCaArgs, ReuseCaArgs, SanText,
};
use remote_exec_broker::cli::{
    decode_data_url, is_stdin_path, parse_forward_spec, parse_forward_specs, parse_transfer_endpoint,
    plain_response_output, require_text_input, resolve_connection, resolve_login_flag, status_code,
    text_input_source, write_stdin_pty_size, CliError, Connection, ExecPtySize, TextInputSource, EXIT_TOOL,
};
use remote_exec_broker::port_forward::entry::ForwardPortProtocol;
use remote_exec_broker::request_log::{format_correlated_error, RequestContext, RpcCallContext, RpcCallKind};

#[test]
fn login_flags_resolve() {
    assert_eq!(resolve_login_flag(true, false), Some(true));
    assert_eq!(resolve_login_flag(false, true), Some(false));
    assert_eq!(resolve_login_flag(false, false), None);
    assert_eq!(resolve_login_flag(true, true), None);
}

#[test]
fn pty_size_needs_both_dimensions() {
    assert_eq!(write_stdin_pty_size(None, None), Ok(None));
    assert_eq!(write_stdin_pty_size(Some(24), Some(80)), Ok(Some(ExecPtySize { rows: 24, cols: 80 })));
    assert_eq!(
        write_stdin_pty_size(Some(0), Some(80)).unwrap_err(),
        "--pty-rows and --pty-cols must be greater than zero"
    );
    assert_eq!(
        write_stdin_pty_size(Some(24), None).unwrap_err(),
        "--pty-rows and --pty-cols must be provided together"
    );
}

#[test]
fn transfer_endpoints_split_at_the_first_colon() {
    let endpoint = parse_transfer_endpoint("builder-a:/tmp/a:b").unwrap();
    assert_eq!(endpoint.target, "builder-a");
    assert_eq!(endpoint.path, "/tmp/a:b");
    assert_eq!(
        parse_transfer_endpoint("nocolon").unwrap_err(),
        "invalid endpoint `nocolon`; expected <target>:<path>"
    );
    assert_eq!(parse_transfer_endpoint(":/tmp").unwrap_err(), "endpoint target must not be empty");
    assert_eq!(parse_transfer_endpoint("a:").unwrap_err(), "endpoint path must not be empty");
}

#[test]
fn forward_specs_parse() {
    let spec = parse_forward_spec("tcp:127.0.0.1:8080=127.0.0.1:80").unwrap();
    assert_eq!(spec.protocol, ForwardPortProtocol::Tcp);
    assert_eq!(spec.listen_endpoint, "127.0.0.1:8080");
    assert_eq!(spec.connect_endpoint, "127.0.0.1:80");
    let udp = parse_forward_spec("udp:a=b").unwrap();
    assert_eq!(udp.protocol, ForwardPortProtocol::Udp);
    assert_eq!(parse_forward_spec("sctp:a=b").unwrap_err(), "unsupported forward protocol `sctp`");
    assert_eq!(
        parse_forward_spec("tcp:a").unwrap_err(),
        "invalid forward `tcp:a`; expected <protocol>:<listen>=<connect>"
    );
    assert_eq!(parse_forward_spec("tcp:=b").unwrap_err(), "forward listen endpoint must not be empty");
    assert_eq!(parse_forward_spec("tcp:a=").unwrap_err(), "forward connect endpoint must not be empty");
    let all = parse_forward_specs(&vec!["tcp:a=b".to_string(), "udp:c=d".to_string()]).unwrap();
    assert_eq!(all.len(), 2);
    assert_eq!(
        parse_forward_specs(&vec!["tcp:a=b".to_string(), "bad".to_string()]).unwrap_err(),
        "invalid forward `bad`; expected <protocol>:<listen>=<connect>"
    );
}

#[test]
fn text_inputs_come_from_one_place() {
    assert!(matches!(text_input_source(Some("x".to_string()), None), Ok(TextInputSource::Inline(t)) if t == "x"));
    assert!(matches!(text_input_source(None, Some("-".to_string())), Ok(TextInputSource::File(p)) if p == "-"));
    assert!(matches!(text_input_source(None, None), Ok(TextInputSource::Absent)));
    assert_eq!(
        text_input_source(Some("x".to_string()), Some("f".to_string())).unwrap_err(),
        "provide either inline text or a file path, not both"
    );
    assert_eq!(require_text_input(None).unwrap_err(), "missing required text input");
    assert!(is_stdin_path("-"));
    assert!(!is_stdin_path("./-"));
}

#[test]
fn data_urls_decode() {
    assert_eq!(decode_data_url("data:image/png;base64,AQID").unwrap(), vec![1u8, 2, 3]);
    assert_eq!(decode_data_url("no comma").unwrap_err(), "image payload was not a valid data URL");
    assert_eq!(decode_data_url("data:image/png,AQID").unwrap_err(), "image payload was not a base64 data URL");
    assert_eq!(decode_data_url("data:image/png;base64,!!").unwrap_err(), "decoding image data URL");
}

#[test]
fn exit_status_and_output_routing() {
    assert_eq!(status_code(true), EXIT_TOOL);
    assert_eq!(status_code(false), 0);
    assert_eq!(plain_response_output(true, "oops"), Some((true, "oops".to_string())));
    assert_eq!(plain_response_output(false, "ok"), Some((false, "ok".to_string())));
    assert_eq!(plain_response_output(false, ""), None);
    assert_eq!(CliError::usage("u".to_string()).exit_code, 2);
    assert_eq!(CliError::config("c".to_string()).exit_code, 3);
    assert_eq!(CliError::connection("n".to_string()).exit_code, 4);
    assert!(matches!(resolve_connection(Some("b.toml".to_string()), None), Connection::Config { config_path } if config_path == "b.toml"));
    assert!(matches!(resolve_connection(None, Some("http://x".to_string())), Connection::StreamableHttp { url } if url == "http://x"));
}

fn reuse(cert: Option<&str>, key: Option<&str>, dir: Option<&str>) -> ReuseCaArgs {
    ReuseCaArgs {
        reuse_ca_cert_pem: cert.map(str::to_string),
        reuse_ca_key_pem: key.map(str::to_string),
        reuse_ca_from_dir: dir.map(str::to_string),
    }
}

#[test]
fn dev_init_rejects_partial_or_mixed_reuse_ca_inputs() {
    let partial = resolve_dev_init_ca(&reuse(Some("source/ca.pem"), None, None)).unwrap_err();
    assert!(partial.contains("--reuse-ca-key-pem"), "unexpected error: {partial}");

    let mixed = resolve_dev_init_ca(&reuse(Some("source/ca.pem"), Some("source/ca.key"), Some("source"))).unwrap_err();
    assert!(mixed.contains("--reuse-ca-from-dir"), "unexpected error: {mixed}");
}

#[test]
fn dev_init_ca_sources() {
    assert!(matches!(resolve_dev_init_ca(&reuse(None, None, None)), Ok(CaSource::Generate)));
    assert!(matches!(resolve_dev_init_ca(&reuse(None, None, Some("d"))), Ok(CaSource::FromDir(d)) if d == "d"));
    assert!(matches!(
        resolve_dev_init_ca(&reuse(Some("c"), Some("k"), None)),
        Ok(CaSource::FromFiles { cert_pem, key_pem }) if cert_pem == "c" && key_pem == "k"
    ));
    assert_eq!(
        resolve_dev_init_ca(&reuse(None, Some("k"), None)).unwrap_err(),
        "--reuse-ca-key-pem requires --reuse-ca-cert-pem"
    );
}

#[test]
fn subject_alt_names_parse() {
    assert!(matches!(parse_subject_alt_name("dns:builder-a.example.com"), Ok(SanText::Dns(h)) if h == "builder-a.example.com"));
    assert!(matches!(parse_subject_alt_name("ip:10.0.0.1"), Ok(SanText::Ip(a)) if a == "10.0.0.1"));
    assert_eq!(parse_subject_alt_name("dns:  ").unwrap_err(), "DNS SAN values cannot be empty");
    assert_eq!(
        parse_subject_alt_name("uri:x").unwrap_err(),
        "unsupported SAN `uri:x`; expected dns:<hostname> or ip:<address>"
    );
    assert_eq!(invalid_ip_san_message("999"), "invalid IP SAN `999`");
    assert!(parse_daemon_sans(&Vec::new()).unwrap().is_none());
    assert_eq!(parse_daemon_sans(&vec!["dns:a".to_string(), "ip:1".to_string()]).unwrap().unwrap().len(), 2);
}

fn dev_init(targets: &[&str], sans: &[&str]) -> DevInitArgs {
    DevInitArgs {
        out_dir: "out".to_string(),
        targets: targets.iter().map(|t| t.to_string()).collect(),
        daemon_sans: sans.iter().map(|s| s.to_string()).collect(),
        broker_common_name: "remote-exec-broker".to_string(),
        force: false,
        reuse_ca: reuse(None, None, None),
    }
}

#[test]
fn daemon_specs_group_sans_by_target() {
    let specs = build_daemon_specs(&dev_init(
        &["builder-a", "builder-b"],
        &["builder-a=dns:builder-a.example.com", "builder-a=ip:10.0.0.1"],
    ))
    .unwrap();
    assert_eq!(specs.len(), 2);
    assert_eq!(specs[0].target, "builder-a");
    assert_eq!(specs[0].sans.as_ref().map(|s| s.len()), Some(2));
    assert_eq!(specs[1].target, "builder-b");
    assert!(specs[1].sans.is_none());
    assert_eq!(
        build_daemon_specs(&dev_init(&["builder-a"], &["builder-c=dns:x"])).err().unwrap(),
        "unknown target `builder-c` in --san"
    );
    assert_eq!(
        build_daemon_specs(&dev_init(&["builder-a"], &["dns:x"])).err().unwrap(),
        "invalid --san `dns:x`; expected target=dns:... or target=ip:..."
    );
    assert_eq!(build_daemon_specs(&dev_init(&[], &[])).err().unwrap(), "at least one --target is required");
}

#[test]
fn tool_errors_include_request_context_and_preserve_suffix() {
    let mut context = RequestContext::new("req-1".to_string(), "exec_command".to_string());
    context.set_target("builder-a".to_string());
    assert_eq!(
        format_correlated_error("boom", &context),
        "request_id=req-1 tool=exec_command target=builder-a: boom"
    );
}

#[test]
fn tool_errors_omit_unknown_target_context() {
    let mut context = RequestContext::new("req-2".to_string(), "list_targets".to_string());
    context.set_target(String::new());
    assert_eq!(format_correlated_error("boom", &context), "request_id=req-2 tool=list_targets: boom");
}

#[test]
fn rpc_call_labels_and_health_probes() {
    assert_eq!(RpcCallKind::Rpc.label("failed"), "daemon rpc failed");
    assert_eq!(RpcCallKind::TransferImport.label("done"), "daemon transfer import done");
    let health = RpcCallContext::path("t".to_string(), "u".to_string(), 10, RpcCallKind::Rpc, "/v1/health".to_string());
    assert!(health.is_health_rpc());
    assert_eq!(health.elapsed_ms(25), 15);
    let transfer = RpcCallContext::destination_path("t".to_string(), "u".to_string(), 10, RpcCallKind::TransferImport, "/v1/health".to_string());
    assert!(!transfer.is_health_rpc());
}

#[test]
fn certs_plans_check_sans_before_ca_flags() {
    let mut args = dev_init(&["builder-a"], &["builder-b=dns:x"]);
    args.reuse_ca = reuse(Some("c"), None, None);
    let err = run(CertsArgs { command: CertsCommand::DevInit(args) }).err().unwrap();
    assert_eq!(err, "unknown target `builder-b` in --san");

    let mut args = dev_init(&["builder-a"], &[]);
    args.reuse_ca = reuse(Some("c"), None, None);
    let err = run(CertsArgs { command: CertsCommand::DevInit(args) }).err().unwrap();
    assert_eq!(err, "--reuse-ca-cert-pem requires --reuse-ca-key-pem");

    match run(CertsArgs { command: CertsCommand::DevInit(dev_init(&["builder-a"], &[])) }) {
        Ok(CertsPlan::DevInit { daemon_specs, ca, out_dir, .. }) => {
            assert_eq!(daemon_specs.len(), 1);
            assert!(matches!(ca, CaSource::Generate));
            assert_eq!(out_dir, "out");
        }
        _ => panic!("expected a dev-init plan"),
    }
    let init = InitCaArgs { out_dir: "o".to_string(), ca_common_name: "remote-exec-ca".to_string(), force: true };
    assert!(matches!(
        run(CertsArgs { command: CertsCommand::InitCa(init) }),
        Ok(CertsPlan::InitCa(a)) if a.out_dir == "o" && a.force
    ));
}

#[test]
fn unicode_white_space_counts_as_blank() {
    assert!(is_blank(" \t\u{a0}\u{3000}\u{2009}"));
    assert!(!is_blank(" x "));
    assert!(!is_blank("\u{200b}"));
    assert_eq!(parse_subject_alt_name("dns:\u{3000}").unwrap_err(), "DNS SAN values cannot be empty");
}
