use mkservice::config::{env_from_pairs, ServiceConfig, ServiceLevel};
use mkservice::install::{InstallAction, InstallEvent, InstallState, ServiceError};
use mkservice::provider::get_provider;
use mkservice::systemd::{parse_escape_output, Systemd};
use mkservice::ServiceOperator;

fn config(level: ServiceLevel) -> ServiceConfig {
    ServiceConfig {
        name: "hello".to_string(),
        command: vec!["/bin/sh".to_string(), "-c".to_string(), "echo hello".to_string()],
        env: env_from_pairs(vec![
            ("FOO".to_string(), "foo".to_string()),
            ("BAR".to_string(), "bar".to_string()),
        ]),
        level,
    }
}

/// Drives one install, answering every action with a success outcome, and
/// returns the actions performed plus the terminal state.
fn drive_happy(systemd: &Systemd, home: &str) -> (Vec<InstallAction>, InstallState) {
    let (mut state, mut action) = systemd.install_begin();
    let mut performed = Vec::new();
    loop {
        let event = match &action {
            InstallAction::LookupHome => InstallEvent::HomeDir { home: Some(home.to_string()) },
            InstallAction::EnsureDir { .. } => InstallEvent::DirReady { ok: true },
            InstallAction::RunTool { .. } => InstallEvent::ToolOutput {
                spawned: true,
                stdout: b"hello.service-escaped\n".to_vec(),
            },
            InstallAction::WriteUnitFile { .. } => InstallEvent::WriteOutcome { ok: true },
            InstallAction::RunManager { .. } => InstallEvent::ManagerDone { spawned: true },
            InstallAction::Stop => break,
        };
        performed.push(action);
        let (next_state, next_action) = systemd.install_step(state, event);
        state = next_state;
        action = next_action;
    }
    performed.push(action);
    (performed, state)
}

#[test]
fn system_scope_selects_the_system_directory() {
    let systemd = Systemd { service: config(ServiceLevel::System) };
    let (state, action) = systemd.install_begin();
    assert_eq!(state, InstallState::Escaping { dir: "/etc/systemd/system".to_string() });
    assert_eq!(
        action,
        InstallAction::RunTool {
            argv: vec!["systemd-escape".to_string(), "--".to_string(), "hello".to_string()],
        }
    );
}

#[test]
fn user_scope_selects_the_home_directory_tree() {
    let systemd = Systemd { service: config(ServiceLevel::User) };
    let (state, action) = systemd.install_begin();
    assert_eq!(state, InstallState::ResolvingHome);
    assert_eq!(action, InstallAction::LookupHome);
    let (state, action) = systemd.install_step(
        state,
        InstallEvent::HomeDir { home: Some("/home/me".to_string()) },
    );
    let dir = "/home/me/.config/systemd/user".to_string();
    assert_eq!(state, InstallState::PreparingDir { dir: dir.clone() });
    assert_eq!(action, InstallAction::EnsureDir { dir });
}

#[test]
fn unresolvable_home_aborts_before_any_write() {
    let systemd = Systemd { service: config(ServiceLevel::User) };
    let (state, _) = systemd.install_begin();
    let (state, action) = systemd.install_step(state, InstallEvent::HomeDir { home: None });
    assert_eq!(state, InstallState::Failed { error: ServiceError::HomeNotResolvable });
    assert_eq!(action, InstallAction::Stop);
}

#[test]
fn happy_path_walks_all_five_steps_in_order() {
    let systemd = Systemd { service: config(ServiceLevel::System) };
    let (performed, state) = drive_happy(&systemd, "/home/me");
    assert_eq!(state, InstallState::Installed);
    assert_eq!(performed.len(), 5);
    assert!(matches!(performed[0], InstallAction::RunTool { .. }));
    match &performed[1] {
        InstallAction::WriteUnitFile { path, content } => {
            assert_eq!(path, "/etc/systemd/system/hello.service-escaped.service");
            assert!(content.starts_with("[Unit]\n"));
        },
        other => panic!("expected a write, got {:?}", other),
    }
    assert_eq!(
        performed[2],
        InstallAction::RunManager {
            argv: vec!["systemctl".to_string(), "daemon-reload".to_string()],
        }
    );
    assert_eq!(
        performed[3],
        InstallAction::RunManager {
            argv: vec!["systemctl".to_string(), "enable".to_string(), "hello".to_string()],
        }
    );
    assert_eq!(performed[4], InstallAction::Stop);
}

#[test]
fn user_scope_qualifies_every_manager_invocation() {
    let systemd = Systemd { service: config(ServiceLevel::User) };
    let (performed, state) = drive_happy(&systemd, "/home/me");
    assert_eq!(state, InstallState::Installed);
    let manager_calls: Vec<&InstallAction> = performed
        .iter()
        .filter(|a| matches!(a, InstallAction::RunManager { .. }))
        .collect();
    assert_eq!(manager_calls.len(), 2);
    for call in manager_calls {
        if let InstallAction::RunManager { argv } = call {
            assert_eq!(argv[0], "systemctl");
            assert_eq!(argv[1], "--user");
        }
    }
    assert_eq!(
        systemd.start_command(),
        vec!["systemctl".to_string(), "--user".to_string(), "start".to_string(),
            "hello".to_string()]
    );
}

#[test]
fn start_command_uses_the_unescaped_name() {
    let systemd = Systemd { service: config(ServiceLevel::System) };
    assert_eq!(
        systemd.start_command(),
        vec!["systemctl".to_string(), "start".to_string(), "hello".to_string()]
    );
}

#[test]
fn escape_spawn_failure_short_circuits() {
    let systemd = Systemd { service: config(ServiceLevel::System) };
    let (state, _) = systemd.install_begin();
    let (state, action) = systemd.install_step(
        state,
        InstallEvent::ToolOutput { spawned: false, stdout: Vec::new() },
    );
    assert_eq!(state, InstallState::Failed { error: ServiceError::ToolSpawnFailed });
    assert_eq!(action, InstallAction::Stop);
}

#[test]
fn malformed_escape_output_short_circuits() {
    let systemd = Systemd { service: config(ServiceLevel::System) };
    let (state, _) = systemd.install_begin();
    let (state, action) = systemd.install_step(
        state,
        InstallEvent::ToolOutput { spawned: true, stdout: b"no-trailing-newline".to_vec() },
    );
    assert_eq!(state, InstallState::Failed { error: ServiceError::ToolOutputMalformed });
    assert_eq!(action, InstallAction::Stop);
}

#[test]
fn uncreatable_unit_directory_aborts_before_any_write() {
    let systemd = Systemd { service: config(ServiceLevel::User) };
    let (state, _) = systemd.install_begin();
    let (state, _) = systemd.install_step(
        state,
        InstallEvent::HomeDir { home: Some("/home/me".to_string()) },
    );
    let (state, action) = systemd.install_step(state, InstallEvent::DirReady { ok: false });
    assert_eq!(state, InstallState::Failed { error: ServiceError::DirCreateFailed });
    assert_eq!(action, InstallAction::Stop);
}

#[test]
fn failed_reload_spawn_stops_before_enable() {
    let systemd = Systemd { service: config(ServiceLevel::System) };
    let (state, _) = systemd.install_begin();
    let (state, _) = systemd.install_step(
        state,
        InstallEvent::ToolOutput { spawned: true, stdout: b"hello\n".to_vec() },
    );
    let (state, _) = systemd.install_step(state, InstallEvent::WriteOutcome { ok: true });
    assert_eq!(state, InstallState::Reloading);
    let (state, action) = systemd.install_step(state, InstallEvent::ManagerDone { spawned: false });
    assert_eq!(state, InstallState::Failed { error: ServiceError::ToolSpawnFailed });
    assert_eq!(action, InstallAction::Stop);
}

#[test]
fn failed_write_stops_before_manager_invocations() {
    let systemd = Systemd { service: config(ServiceLevel::System) };
    let (state, _) = systemd.install_begin();
    let (state, _) = systemd.install_step(
        state,
        InstallEvent::ToolOutput { spawned: true, stdout: b"hello\n".to_vec() },
    );
    let (state, action) = systemd.install_step(state, InstallEvent::WriteOutcome { ok: false });
    assert_eq!(state, InstallState::Failed { error: ServiceError::WriteFailed });
    assert_eq!(action, InstallAction::Stop);
}

#[test]
fn installing_twice_writes_the_identical_file() {
    let systemd = Systemd { service: config(ServiceLevel::System) };
    let (first, s1) = drive_happy(&systemd, "/home/me");
    let (second, s2) = drive_happy(&systemd, "/home/me");
    assert_eq!(s1, InstallState::Installed);
    assert_eq!(s2, InstallState::Installed);
    assert_eq!(first[1], second[1]);
    assert_eq!(first[3], second[3]);
}

#[test]
fn parse_escape_output_strips_one_trailing_newline() {
    assert_eq!(parse_escape_output(b"hello\n".to_vec()), Ok("hello".to_string()));
    assert_eq!(
        parse_escape_output("caf\u{e9}\n".as_bytes().to_vec()),
        Ok("caf\u{e9}".to_string())
    );
}

#[test]
fn parse_escape_output_rejects_malformed_output() {
    assert_eq!(parse_escape_output(Vec::new()), Err(ServiceError::ToolOutputMalformed));
    assert_eq!(parse_escape_output(b"hello".to_vec()), Err(ServiceError::ToolOutputMalformed));
    assert_eq!(parse_escape_output(b"\n".to_vec()), Err(ServiceError::ToolOutputMalformed));
}

#[test]
fn parse_escape_output_rejects_undecodable_output() {
    assert_eq!(
        parse_escape_output(vec![0xff, 0xfe, b'\n']),
        Err(ServiceError::ToolOutputNotText)
    );
}

#[test]
fn provider_is_selected_only_when_the_manager_is_present() {
    let provided = get_provider(config(ServiceLevel::System), true);
    assert!(provided.is_some());
    assert_eq!(provided.unwrap().service.name, "hello");
    assert!(get_provider(config(ServiceLevel::System), false).is_none());
}
