use remote_exec_broker::config::{
    sse_interval_from_millis, BrokerConfig, BrokerHealthRefreshConfig, BrokerToolsConfig, FileToolConfig,
    HttpAuthConfig, McpServerConfig, ReverseListenerConfig, ReverseListenerTlsConfig, ReverseTransport, SseInterval,
    TargetConfig, TargetTimeoutConfig, TargetTransportKind,
};
use remote_exec_broker::local::{is_target_name, BrokerHostOrTarget};
use remote_exec_broker::port_forward::limits::BrokerPortForwardLimits;

fn http_target() -> TargetConfig {
    TargetConfig {
        base_url: "http://127.0.0.1:8181".to_string(),
        http_auth: None,
        timeouts: TargetTimeoutConfig::default(),
        ca_pem: None,
        client_cert_pem: None,
        client_key_pem: None,
        allow_insecure_http: true,
        skip_server_name_verification: false,
        pinned_server_cert_pem: None,
        expected_daemon_name: None,
    }
}

fn https_target() -> TargetConfig {
    TargetConfig {
        base_url: "https://127.0.0.1:8443".to_string(),
        ca_pem: Some("/tmp/ca.pem".to_string()),
        client_cert_pem: Some("/tmp/broker.pem".to_string()),
        client_key_pem: Some("/tmp/broker.key".to_string()),
        allow_insecure_http: false,
        ..http_target()
    }
}

fn broker(targets: Vec<(String, TargetConfig)>) -> BrokerConfig {
    BrokerConfig {
        mcp: McpServerConfig::Stdio,
        targets,
        local: None,
        enable_transfer_compression: true,
        disable_structured_content: false,
        tools: BrokerToolsConfig { file: FileToolConfig::default() },
        port_forward_limits: BrokerPortForwardLimits::default(),
        health_refresh: BrokerHealthRefreshConfig::default(),
        reverse: None,
    }
}

fn validate(config: &BrokerConfig) -> Result<(), String> {
    assert!(config.targets_in_order());
    config.validate(&Ok(()), &Ok(()))
}

#[test]
fn load_rejects_reserved_local_target_name() {
    let err = validate(&broker(vec![("local".to_string(), http_target())])).unwrap_err();
    assert!(err.contains("configured target name `local` is reserved"), "unexpected error: {err}");
}

#[test]
fn load_accepts_non_reserved_target_names() {
    assert!(validate(&broker(vec![("builder-a".to_string(), http_target())])).is_ok());
}

#[test]
fn load_accepts_remote_target_timeout_config() {
    let mut target = http_target();
    target.timeouts = TargetTimeoutConfig { connect_ms: 1234, read_ms: 2345, request_ms: 3456, startup_probe_ms: 4567 };
    let config = broker(vec![("builder-a".to_string(), target)]);
    assert!(validate(&config).is_ok());
    assert_eq!(config.targets[0].1.timeouts.request_timeout(), 3456);
}

#[test]
fn load_rejects_zero_remote_target_timeout() {
    let mut target = http_target();
    target.timeouts.request_ms = 0;
    let err = validate(&broker(vec![("builder-a".to_string(), target)])).unwrap_err();
    assert!(
        err.contains("target `builder-a` timeouts.request_ms must be greater than zero"),
        "unexpected error: {err}"
    );
}

#[test]
fn load_accepts_https_targets_even_when_broker_tls_feature_disabled() {
    let config = broker(vec![("builder-a".to_string(), https_target())]);
    assert!(validate(&config).is_ok());
    assert_eq!(config.targets[0].1.transport_kind(), TargetTransportKind::Https);
}

#[test]
fn load_rejects_http_target_without_explicit_insecure_opt_in() {
    let target = TargetConfig { allow_insecure_http: false, ..http_target() };
    let err = validate(&broker(vec![("builder-xp".to_string(), target)])).unwrap_err();
    assert!(err.contains("http:// targets require allow_insecure_http = true"), "unexpected error: {err}");
}

#[test]
fn load_rejects_empty_http_bearer_auth_for_target() {
    let target = TargetConfig { http_auth: Some(HttpAuthConfig { bearer_token: String::new() }), ..http_target() };
    let err = validate(&broker(vec![("builder-xp".to_string(), target)])).unwrap_err();
    assert!(err.contains("http_auth.bearer_token must not be empty"), "unexpected error: {err}");
    assert!(err.starts_with("target `builder-xp`"));
}

#[test]
fn load_rejects_server_name_skip_for_http_target() {
    let target = TargetConfig { skip_server_name_verification: true, ..http_target() };
    let err = validate(&broker(vec![("builder-xp".to_string(), target)])).unwrap_err();
    assert!(err.contains("cannot set skip_server_name_verification"), "unexpected error: {err}");
}

#[test]
fn load_rejects_server_cert_pin_for_http_target() {
    let target = TargetConfig { pinned_server_cert_pem: Some("/tmp/pin.pem".to_string()), ..http_target() };
    let err = validate(&broker(vec![("builder-xp".to_string(), target)])).unwrap_err();
    assert!(err.contains("cannot set pinned_server_cert_pem"), "unexpected error: {err}");
}

#[test]
fn load_rejects_streamable_http_path_without_leading_slash() {
    let mut config = broker(Vec::new());
    config.mcp = McpServerConfig::StreamableHttp {
        listen: "127.0.0.1:8787".to_string(),
        path: "mcp".to_string(),
        stateful: true,
        sse_keep_alive: SseInterval::Duration(15_000),
        sse_retry: SseInterval::Duration(3_000),
    };
    let err = validate(&config).unwrap_err();
    assert!(err.contains("streamable_http MCP path must start with `/`"), "unexpected error: {err}");
    assert_eq!(config.mcp.transport_name(), "streamable_http");
}

#[test]
fn sse_intervals_from_millis() {
    assert_eq!(sse_interval_from_millis(0), SseInterval::Disabled);
    assert_eq!(sse_interval_from_millis(1000), SseInterval::Duration(1000));
    assert_eq!(SseInterval::Disabled.as_duration(), None);
    assert_eq!(SseInterval::Duration(7).as_duration(), Some(7));
}

#[test]
fn https_targets_need_their_certificates() {
    let target = TargetConfig { client_key_pem: None, ..https_target() };
    assert_eq!(target.validate("b").unwrap_err(), "target `b` is missing client_key_pem");
    let bad_scheme = TargetConfig { base_url: "ftp://x".to_string(), ..https_target() };
    assert_eq!(bad_scheme.validate("b").unwrap_err(), "target `b` base_url must start with http:// or https://");
}

fn reverse_listener(transport: ReverseTransport) -> ReverseListenerConfig {
    ReverseListenerConfig {
        listen: "0.0.0.0:9443".to_string(),
        transport,
        allow_insecure_http: true,
        tls: None,
        registration_timeout_ms: 5_000,
        lane_wait_timeout_ms: 30_000,
        max_connections: 1024,
    }
}

#[test]
fn reverse_targets_need_a_listener_and_http_auth_over_http() {
    let reverse_target = TargetConfig { base_url: "reverse://".to_string(), allow_insecure_http: false, ..http_target() };
    assert!(reverse_target.is_reverse());
    let err = validate(&broker(vec![("r".to_string(), reverse_target.clone())])).unwrap_err();
    assert_eq!(err, "target `r` uses reverse mode but broker reverse listener is not configured");

    let mut config = broker(vec![("r".to_string(), reverse_target.clone())]);
    config.reverse = Some(reverse_listener(ReverseTransport::Http));
    assert_eq!(validate(&config).unwrap_err(), "reverse HTTP target `r` requires http_auth for lane registration");

    let with_auth = TargetConfig { http_auth: Some(HttpAuthConfig { bearer_token: "t".to_string() }), ..reverse_target };
    config.targets = vec![("r".to_string(), with_auth)];
    assert!(validate(&config).is_ok());
}

#[test]
fn reverse_listener_rules() {
    let mut config = broker(Vec::new());
    config.reverse = Some(reverse_listener(ReverseTransport::Tls));
    assert_eq!(validate(&config).unwrap_err(), "reverse.tls is required when reverse.transport = \"tls\"");
    let mut tls = reverse_listener(ReverseTransport::Tls);
    tls.tls = Some(ReverseListenerTlsConfig {
        cert_pem: "c".to_string(),
        key_pem: "k".to_string(),
        ca_pem: "a".to_string(),
    });
    config.reverse = Some(tls);
    assert!(validate(&config).is_ok());
    let mut zero = reverse_listener(ReverseTransport::Http);
    zero.max_connections = 0;
    config.reverse = Some(zero);
    assert_eq!(validate(&config).unwrap_err(), "reverse.max_connections must be greater than zero");
}

#[test]
fn checks_from_other_crates_are_reported_in_order() {
    let config = broker(Vec::new());
    assert_eq!(config.validate(&Err("transfer limits".to_string()), &Ok(())).unwrap_err(), "transfer limits");
    assert!(config.validate(&Ok(()), &Err("local.default_workdir does not exist".to_string())).is_ok());
    let mut with_local = broker(Vec::new());
    with_local.local = Some(remote_exec_broker::config::LocalTargetConfig {
        default_workdir: "/nowhere".to_string(),
        windows_posix_root: None,
        allow_login_shell: true,
        default_shell: None,
        experimental_apply_patch_target_encoding_autodetect: false,
    });
    assert_eq!(
        with_local.validate(&Ok(()), &Err("local.default_workdir does not exist".to_string())).unwrap_err(),
        "local.default_workdir does not exist"
    );
}

#[test]
fn file_tool_and_health_refresh_rules() {
    let bad = FileToolConfig { default_read_limit_lines: 30, max_read_limit_lines: 20, ..FileToolConfig::default() };
    assert_eq!(
        bad.validate().unwrap_err(),
        "tools.file.default_read_limit_lines must be less than or equal to tools.file.max_read_limit_lines"
    );
    assert!(FileToolConfig::default().validate().is_ok());
    let refresh = BrokerHealthRefreshConfig::from_file_fields(None, Some(5), Some(7));
    assert_eq!(refresh.healthy_interval(), 7);
    assert_eq!(refresh.unhealthy_interval(), 5);
    let defaults = BrokerHealthRefreshConfig::from_file_fields(None, None, None);
    assert_eq!(defaults, BrokerHealthRefreshConfig::default());
    assert_eq!(defaults.healthy_interval_ms, 60_000);
    let zero = BrokerHealthRefreshConfig { healthy_interval_ms: 0, unhealthy_interval_ms: 1 };
    assert_eq!(zero.validate().unwrap_err(), "health_refresh.healthy_interval_ms must be greater than zero");
}

#[test]
fn local_name_selects_the_broker_host() {
    assert!(is_target_name("local"));
    assert!(!is_target_name("builder-a"));
    assert_eq!(BrokerHostOrTarget::from_name("local"), BrokerHostOrTarget::BrokerHost);
    assert_eq!(BrokerHostOrTarget::from_name("builder-a"), BrokerHostOrTarget::Target("builder-a"));
}

#[test]
fn targets_must_stand_in_strict_name_order() {
    assert!(broker(vec![]).targets_in_order());
    assert!(broker(vec![("a".to_string(), http_target()), ("b".to_string(), http_target())]).targets_in_order());
    assert!(!broker(vec![("b".to_string(), http_target()), ("a".to_string(), http_target())]).targets_in_order());
    assert!(!broker(vec![("a".to_string(), http_target()), ("a".to_string(), http_target())]).targets_in_order());
}
