use mkservice::config::{env_from_pairs, ServiceConfig, ServiceLevel};
use mkservice::render::systemd_quote;
use mkservice::systemd::Systemd;

fn hello_config() -> ServiceConfig {
    ServiceConfig {
        name: "hello".to_string(),
        command: vec!["/bin/sh".to_string(), "-c".to_string(), "echo hello".to_string()],
        env: env_from_pairs(vec![
            ("FOO".to_string(), "foo".to_string()),
            ("BAR".to_string(), "bar".to_string()),
        ]),
        level: ServiceLevel::System,
    }
}

#[test]
fn test_systemd_unit_render() {
    let systemd = Systemd { service: hello_config() };
    let unit_cfg = systemd.to_systemd_unit();
    assert_eq!(
        unit_cfg,
        "[Unit]\n\
        Description=hello\n\
        [Install]\n\
        WantedBy=multi-user.target\n\
        [Service]\n\
        Environment=BAR=bar\n\
        Environment=FOO=foo\n\
        ExecStart=\"/bin/sh\" \"-c\" \"echo hello\"\n\
        Type=simple\n\
        ",
    )
}

#[test]
fn render_is_deterministic() {
    let systemd = Systemd { service: hello_config() };
    let first = systemd.to_systemd_unit();
    let second = systemd.to_systemd_unit();
    assert_eq!(first.as_bytes(), second.as_bytes());
}

#[test]
fn env_lines_are_sorted_by_key() {
    let systemd = Systemd { service: hello_config() };
    let unit_cfg = systemd.to_systemd_unit();
    let bar = unit_cfg.find("Environment=BAR=bar").unwrap();
    let foo = unit_cfg.find("Environment=FOO=foo").unwrap();
    assert!(bar < foo);
}

#[test]
fn sections_come_in_fixed_order() {
    let mut config = hello_config();
    config.env = Vec::new();
    config.command = Vec::new();
    let systemd = Systemd { service: config };
    let unit_cfg = systemd.to_systemd_unit();
    let unit = unit_cfg.find("[Unit]\n").unwrap();
    let install = unit_cfg.find("[Install]\n").unwrap();
    let service = unit_cfg.find("[Service]\n").unwrap();
    assert_eq!(unit, 0);
    assert!(unit < install && install < service);
}

#[test]
fn quoting_wraps_and_escapes_tokens() {
    let quoted = systemd_quote(vec![
        "/bin/sh".to_string(),
        "-c".to_string(),
        "echo hello".to_string(),
    ]);
    assert_eq!(quoted, "\"/bin/sh\" \"-c\" \"echo hello\"");
}

#[test]
fn quoting_escapes_inner_double_quotes() {
    let quoted = systemd_quote(vec!["say \"hi\"".to_string()]);
    assert_eq!(quoted, "\"say \\\"hi\\\"\"");
}

#[test]
fn quoting_of_no_tokens_is_empty() {
    let quoted = systemd_quote(Vec::new());
    assert_eq!(quoted, "");
}

#[test]
fn no_crlf_in_rendered_output() {
    let mut config = hello_config();
    config.env = env_from_pairs(vec![
        ("A".to_string(), "with \"quotes\"".to_string()),
        ("B".to_string(), "plain".to_string()),
    ]);
    let systemd = Systemd { service: config };
    let unit_cfg = systemd.to_systemd_unit();
    assert!(!unit_cfg.as_bytes().windows(2).any(|w| w == b"\r\n"));
    assert!(!unit_cfg.contains('\r'));
}
