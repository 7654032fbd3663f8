//! The systemd backend: renders the unit file text for a descriptor and
//! decides every transition of the install workflow.

use vstd::prelude::*;
use vstd::string::{StrSliceExecFns, StringExecFns};
use vstd::utf8::{decode_utf8, valid_utf8};

use crate::config::{ServiceConfig, ServiceLevel};
use crate::install::{step_allowed_spec, InstallAction, InstallEvent, InstallState, ServiceError};
use crate::render::{
    entry_lines, env_lines, kv_line, lemma_list_lines_env, serialize_systemd_section, spec_unit_text,
    systemd_quote, value_lines, SystemdValue,
};
use crate::ServiceOperator;

verus! {

#[verifier::external_type_specification]
#[verifier::external_body]
pub struct ExFromUtf8Error(std::string::FromUtf8Error);

/// Relies on std's `String::from_utf8`: it succeeds exactly on valid UTF-8
/// input and then decodes it; vstd's `valid_utf8` and `decode_utf8` give the
/// encoding's meaning.
pub assume_specification[ String::from_utf8 ](bytes: Vec<u8>) -> (r: Result<
    String,
    std::string::FromUtf8Error,
>)
    ensures
        r matches Ok(s) ==> valid_utf8(bytes@) && s@ == decode_utf8(bytes@),
        r is Err ==> !valid_utf8(bytes@),
;

/// What the escaping tool's raw standard output means: the escaped name is
/// everything before a single trailing line feed. Output that is empty,
/// lacks the trailing line feed, is empty once it is stripped, or does not
/// decode as UTF-8 is rejected.
pub open spec fn spec_parse_escape(stdout: Seq<u8>) -> Result<Seq<char>, ServiceError> {
    if stdout.len() == 0 {
        Err(ServiceError::ToolOutputMalformed)
    } else if stdout.last() != 10u8 {
        Err(ServiceError::ToolOutputMalformed)
    } else if stdout.len() == 1 {
        Err(ServiceError::ToolOutputMalformed)
    } else if !valid_utf8(stdout.drop_last()) {
        Err(ServiceError::ToolOutputNotText)
    } else {
        Ok(decode_utf8(stdout.drop_last()))
    }
}

/// Extracts the escaped name from the escaping tool's standard output:
/// strips the single trailing line feed the tool appends and decodes the
/// rest as text.
pub fn parse_escape_output(stdout: Vec<u8>) -> (r: Result<String, ServiceError>)
    ensures
        r matches Ok(s) ==> (spec_parse_escape(stdout@) matches Ok(t) && s@ == t),
        r matches Err(e) ==> spec_parse_escape(stdout@) == Err::<Seq<char>, ServiceError>(e),
{
    let ghost given = stdout@;
    let mut bytes = stdout;
    let n = bytes.len();
    if n == 0 {
        return Err(ServiceError::ToolOutputMalformed);
    }
    let last = bytes[n - 1];
    if last != 10u8 {
        return Err(ServiceError::ToolOutputMalformed);
    }
    let _ = bytes.pop();
    proof {
        assert(bytes@ =~= given.drop_last());
    }
    if bytes.len() == 0 {
        return Err(ServiceError::ToolOutputMalformed);
    }
    match String::from_utf8(bytes) {
        Ok(s) => Ok(s),
        Err(_) => Err(ServiceError::ToolOutputNotText),
    }
}

/// The fixed unit directory of the system scope.
pub fn system_unit_dir() -> (r: &'static str)
    ensures
        r@ == "/etc/systemd/system"@,
{
    "/etc/systemd/system"
}

/// The per-user unit directory under a home directory.
pub open spec fn spec_user_unit_dir(home: Seq<char>) -> Seq<char> {
    home + "/.config/systemd/user"@
}

/// Builds the per-user unit directory path from a home directory.
pub fn user_unit_dir(home: &str) -> (r: String)
    ensures
        r@ == spec_user_unit_dir(home@),
{
    let mut out = home.to_owned();
    out.append("/.config/systemd/user");
    out
}

/// The unit file path: the escaped name with the unit-file suffix, under the
/// install directory.
pub open spec fn spec_unit_path(dir: Seq<char>, escaped: Seq<char>) -> Seq<char> {
    dir + "/"@ + escaped + ".service"@
}

/// Builds the unit file path for an escaped name.
pub fn unit_file_path(dir: &str, escaped: &str) -> (r: String)
    ensures
        r@ == spec_unit_path(dir@, escaped@),
{
    let mut out = dir.to_owned();
    out.append("/");
    out.append(escaped);
    out.append(".service");
    out
}

/// The manager invocation prefix: a per-user scope qualifies every
/// invocation with `--user`; the system scope uses the bare form.
pub open spec fn spec_systemctl_base(level: ServiceLevel) -> Seq<Seq<char>> {
    if level is User {
        seq!["systemctl"@, "--user"@]
    } else {
        seq!["systemctl"@]
    }
}

/// The escaping tool's command line: the raw name as the single positional
/// argument after a `--` separator.
pub open spec fn spec_escape_argv(name: Seq<char>) -> Seq<Seq<char>> {
    seq!["systemd-escape"@, "--"@, name]
}

/// The systemd backend: owns the descriptor it installs.
pub struct Systemd {
    pub service: ServiceConfig,
}

/// What beginning an install yields: the system scope goes straight to
/// escaping under the fixed directory; the user scope first resolves the
/// home directory.
pub open spec fn install_begin_spec(c: ServiceConfig, r: (InstallState, InstallAction)) -> bool {
    if c.level is User {
        r.0 == InstallState::ResolvingHome && r.1 == InstallAction::LookupHome
    } else {
        &&& r.0 matches InstallState::Escaping { dir } && dir@ == "/etc/systemd/system"@
        &&& r.1 matches InstallAction::RunTool { argv } && argv.deep_view() == spec_escape_argv(
            c.name@,
        )
    }
}

/// The transition relation of the install machine: for each waiting state
/// and the event that answers it, the exact next state and action.
pub open spec fn install_step_spec(
    c: ServiceConfig,
    state: InstallState,
    event: InstallEvent,
    r: (InstallState, InstallAction),
) -> bool {
    match (state, event) {
        (InstallState::ResolvingHome, InstallEvent::HomeDir { home }) => match home {
            Some(h) => {
                &&& r.0 matches InstallState::PreparingDir { dir } && dir@ == spec_user_unit_dir(
                    h@,
                )
                &&& r.1 matches InstallAction::EnsureDir { dir } && dir@ == spec_user_unit_dir(h@)
            },
            None => r.0 == (InstallState::Failed { error: ServiceError::HomeNotResolvable })
                && r.1 == InstallAction::Stop,
        },
        (InstallState::PreparingDir { dir }, InstallEvent::DirReady { ok }) => {
            if ok {
                &&& r.0 matches InstallState::Escaping { dir: d } && d@ == dir@
                &&& r.1 matches InstallAction::RunTool { argv } && argv.deep_view()
                    == spec_escape_argv(c.name@)
            } else {
                r.0 == (InstallState::Failed { error: ServiceError::DirCreateFailed }) && r.1
                    == InstallAction::Stop
            }
        },
        (InstallState::Escaping { dir }, InstallEvent::ToolOutput { spawned, stdout }) => {
            if !spawned {
                r.0 == (InstallState::Failed { error: ServiceError::ToolSpawnFailed }) && r.1
                    == InstallAction::Stop
            } else {
                match spec_parse_escape(stdout@) {
                    Ok(esc) => {
                        &&& r.0 is AwaitingWrite
                        &&& r.1 matches InstallAction::WriteUnitFile { path, content } && path@
                            == spec_unit_path(dir@, esc) && content@ == spec_unit_text(c)
                    },
                    Err(e) => r.0 == (InstallState::Failed { error: e }) && r.1
                        == InstallAction::Stop,
                }
            }
        },
        (InstallState::AwaitingWrite, InstallEvent::WriteOutcome { ok }) => {
            if ok {
                &&& r.0 is Reloading
                &&& r.1 matches InstallAction::RunManager { argv } && argv.deep_view()
                    == spec_systemctl_base(c.level).push("daemon-reload"@)
            } else {
                r.0 == (InstallState::Failed { error: ServiceError::WriteFailed }) && r.1
                    == InstallAction::Stop
            }
        },
        (InstallState::Reloading, InstallEvent::ManagerDone { spawned }) => {
            if spawned {
                &&& r.0 is Enabling
                &&& r.1 matches InstallAction::RunManager { argv } && argv.deep_view()
                    == spec_systemctl_base(c.level) + seq!["enable"@, c.name@]
            } else {
                r.0 == (InstallState::Failed { error: ServiceError::ToolSpawnFailed }) && r.1
                    == InstallAction::Stop
            }
        },
        (InstallState::Enabling, InstallEvent::ManagerDone { spawned }) => {
            if spawned {
                r.0 == InstallState::Installed && r.1 == InstallAction::Stop
            } else {
                r.0 == (InstallState::Failed { error: ServiceError::ToolSpawnFailed }) && r.1
                    == InstallAction::Stop
            }
        },
        _ => true,
    }
}

/// The manager's start invocation for a descriptor.
pub open spec fn spec_start_argv(c: ServiceConfig) -> Seq<Seq<char>> {
    spec_systemctl_base(c.level) + seq!["start"@, c.name@]
}

proof fn lemma_entry_lines_singleton(e: (String, SystemdValue))
    ensures
        entry_lines(seq![e]) == value_lines(e.0@, e.1),
{
    assert(seq![e].drop_first() =~= Seq::<(String, SystemdValue)>::empty());
    assert(entry_lines(Seq::<(String, SystemdValue)>::empty()) == Seq::<char>::empty());
    assert(entry_lines(seq![e]) == value_lines(e.0@, e.1) + entry_lines(seq![e].drop_first()));
    assert(value_lines(e.0@, e.1) + Seq::<char>::empty() =~= value_lines(e.0@, e.1));
}

proof fn lemma_entry_lines_triple(
    e1: (String, SystemdValue),
    e2: (String, SystemdValue),
    e3: (String, SystemdValue),
)
    ensures
        entry_lines(seq![e1, e2, e3]) == value_lines(e1.0@, e1.1) + value_lines(e2.0@, e2.1)
            + value_lines(e3.0@, e3.1),
{
    assert(seq![e1, e2, e3].drop_first() =~= seq![e2, e3]);
    assert(seq![e2, e3].drop_first() =~= seq![e3]);
    lemma_entry_lines_singleton(e3);
    assert(entry_lines(seq![e2, e3]) == value_lines(e2.0@, e2.1) + entry_lines(
        seq![e2, e3].drop_first(),
    ));
    assert(entry_lines(seq![e1, e2, e3]) == value_lines(e1.0@, e1.1) + entry_lines(
        seq![e1, e2, e3].drop_first(),
    ));
    assert(value_lines(e1.0@, e1.1) + (value_lines(e2.0@, e2.1) + value_lines(e3.0@, e3.1)) =~= (
    value_lines(e1.0@, e1.1) + value_lines(e2.0@, e2.1)) + value_lines(e3.0@, e3.1));
}

/// Copies a vector of strings, keeping every element's characters.
fn clone_string_vec(v: &Vec<String>) -> (r: Vec<String>)
    ensures
        r@ == v@,
{
    let mut r: Vec<String> = Vec::new();
    let mut i: usize = 0;
    while i < v.len()
        invariant
            0 <= i <= v@.len(),
            r@ == v@.subrange(0, i as int),
        decreases v@.len() - i,
    {
        r.push(v[i].clone());
        proof {
            assert(r@ =~= v@.subrange(0, i + 1));
        }
        i = i + 1;
    }
    proof {
        assert(v@.subrange(0, v@.len() as int) =~= v@);
    }
    r
}

impl Systemd {
    /// Renders the complete unit file text for the owned descriptor. The
    /// result is exactly [`spec_unit_text`] of the descriptor, so rendering
    /// is deterministic.
    pub fn to_systemd_unit(&self) -> (r: String)
        ensures
            r@ == spec_unit_text(self.service),
    {
        let unit_key = String::from_str("Description");
        let unit_val = SystemdValue::Str(self.service.name.clone());
        let mut unit_entries: Vec<(String, SystemdValue)> = Vec::new();
        unit_entries.push((unit_key, unit_val));

        let install_key = String::from_str("WantedBy");
        let install_val = SystemdValue::Str(String::from_str("multi-user.target"));
        let mut install_entries: Vec<(String, SystemdValue)> = Vec::new();
        install_entries.push((install_key, install_val));

        let mut env_values: Vec<String> = Vec::new();
        let mut i: usize = 0;
        while i < self.service.env.len()
            invariant
                0 <= i <= self.service.env@.len(),
                env_values@.len() == i,
                forall|j: int|
                    0 <= j < i ==> #[trigger] env_values@[j]@ == self.service.env@[j].0@
                        + seq!['='] + self.service.env@[j].1@,
            decreases self.service.env@.len() - i,
        {
            let mut line = self.service.env[i].0.clone();
            line.append("=");
            line.append(self.service.env[i].1.as_str());
            proof {
                reveal_strlit("=");
                assert(line@ =~= self.service.env@[i as int].0@ + seq!['=']
                    + self.service.env@[i as int].1@);
            }
            env_values.push(line);
            i = i + 1;
        }
        let ghost env_values_view = env_values@;

        let exec_start = systemd_quote(clone_string_vec(&self.service.command));
        let mut service_entries: Vec<(String, SystemdValue)> = Vec::new();
        service_entries.push(
            (String::from_str("Environment"), SystemdValue::List(env_values)),
        );
        service_entries.push((String::from_str("ExecStart"), SystemdValue::Str(exec_start)));
        service_entries.push(
            (String::from_str("Type"), SystemdValue::Str(String::from_str("simple"))),
        );

        let unit_text = serialize_systemd_section("Unit", &unit_entries);
        let install_text = serialize_systemd_section("Install", &install_entries);
        let service_text = serialize_systemd_section("Service", &service_entries);
        proof {
            assert(unit_entries@ =~= seq![unit_entries@[0]]);
            lemma_entry_lines_singleton(unit_entries@[0]);
            assert(unit_text@ =~= crate::render::unit_section_lines(self.service));

            assert(install_entries@ =~= seq![install_entries@[0]]);
            lemma_entry_lines_singleton(install_entries@[0]);
            assert(install_text@ =~= crate::render::install_section_lines(self.service));

            assert(service_entries@ =~= seq![
                service_entries@[0],
                service_entries@[1],
                service_entries@[2],
            ]);
            lemma_entry_lines_triple(
                service_entries@[0],
                service_entries@[1],
                service_entries@[2],
            );
            lemma_list_lines_env(env_values_view, self.service.env@);
            assert(service_text@ =~= crate::render::service_section_lines(self.service));
        }
        let out = unit_text.concat(install_text.as_str()).concat(service_text.as_str());
        proof {
            assert(out@ =~= spec_unit_text(self.service));
        }
        out
    }

    /// The manager invocation prefix for the descriptor's scope: `systemctl`,
    /// qualified with `--user` for a per-user install.
    pub fn systemctl_command(&self) -> (r: Vec<String>)
        ensures
            r.deep_view() == spec_systemctl_base(self.service.level),
    {
        let mut argv: Vec<String> = Vec::new();
        argv.push(String::from_str("systemctl"));
        if self.service.level == ServiceLevel::User {
            argv.push(String::from_str("--user"));
            assert(argv.deep_view() =~= spec_systemctl_base(self.service.level));
        } else {
            assert(argv.deep_view() =~= spec_systemctl_base(self.service.level));
        }
        argv
    }

    /// The escaping tool's command line for the descriptor's raw name.
    fn escape_argv(&self) -> (r: Vec<String>)
        ensures
            r.deep_view() == spec_escape_argv(self.service.name@),
    {
        let mut argv: Vec<String> = Vec::new();
        argv.push(String::from_str("systemd-escape"));
        argv.push(String::from_str("--"));
        argv.push(self.service.name.clone());
        assert(argv.deep_view() =~= spec_escape_argv(self.service.name@));
        argv
    }
}

impl ServiceOperator for Systemd {
    open spec fn begin_spec(&self, r: (InstallState, InstallAction)) -> bool {
        install_begin_spec(self.service, r)
    }

    open spec fn step_allowed(&self, state: InstallState, event: InstallEvent) -> bool {
        step_allowed_spec(state, event)
    }

    open spec fn step_spec(
        &self,
        state: InstallState,
        event: InstallEvent,
        r: (InstallState, InstallAction),
    ) -> bool {
        &&& install_step_spec(self.service, state, event, r)
        &&& (r.1 is Stop <==> (r.0 is Installed || r.0 is Failed))
    }

    open spec fn start_spec(&self, argv: Seq<Seq<char>>) -> bool {
        argv == spec_start_argv(self.service)
    }

    fn install_begin(&self) -> (r: (InstallState, InstallAction)) {
        if self.service.level == ServiceLevel::User {
            (InstallState::ResolvingHome, InstallAction::LookupHome)
        } else {
            let dir = system_unit_dir().to_owned();
            (InstallState::Escaping { dir }, InstallAction::RunTool { argv: self.escape_argv() })
        }
    }

    fn install_step(&self, state: InstallState, event: InstallEvent) -> (r: (
        InstallState,
        InstallAction,
    )) {
        match (state, event) {
            (InstallState::ResolvingHome, InstallEvent::HomeDir { home }) => match home {
                Some(h) => {
                    let dir = user_unit_dir(h.as_str());
                    let target = dir.clone();
                    (
                        InstallState::PreparingDir { dir },
                        InstallAction::EnsureDir { dir: target },
                    )
                },
                None => (
                    InstallState::Failed { error: ServiceError::HomeNotResolvable },
                    InstallAction::Stop,
                ),
            },
            (InstallState::PreparingDir { dir }, InstallEvent::DirReady { ok }) => {
                if ok {
                    (
                        InstallState::Escaping { dir },
                        InstallAction::RunTool { argv: self.escape_argv() },
                    )
                } else {
                    (
                        InstallState::Failed { error: ServiceError::DirCreateFailed },
                        InstallAction::Stop,
                    )
                }
            },
            (InstallState::Escaping { dir }, InstallEvent::ToolOutput { spawned, stdout }) => {
                if !spawned {
                    (
                        InstallState::Failed { error: ServiceError::ToolSpawnFailed },
                        InstallAction::Stop,
                    )
                } else {
                    match parse_escape_output(stdout) {
                        Ok(escaped) => {
                            let path = unit_file_path(dir.as_str(), escaped.as_str());
                            let content = self.to_systemd_unit();
                            (
                                InstallState::AwaitingWrite,
                                InstallAction::WriteUnitFile { path, content },
                            )
                        },
                        Err(error) => (InstallState::Failed { error }, InstallAction::Stop),
                    }
                }
            },
            (InstallState::AwaitingWrite, InstallEvent::WriteOutcome { ok }) => {
                if ok {
                    let mut argv = self.systemctl_command();
                    argv.push(String::from_str("daemon-reload"));
                    assert(argv.deep_view() =~= spec_systemctl_base(
                        self.service.level,
                    ).push("daemon-reload"@));
                    (InstallState::Reloading, InstallAction::RunManager { argv })
                } else {
                    (
                        InstallState::Failed { error: ServiceError::WriteFailed },
                        InstallAction::Stop,
                    )
                }
            },
            (InstallState::Reloading, InstallEvent::ManagerDone { spawned }) => {
                if spawned {
                    let mut argv = self.systemctl_command();
                    argv.push(String::from_str("enable"));
                    argv.push(self.service.name.clone());
                    assert(argv.deep_view() =~= spec_systemctl_base(self.service.level)
                        + seq!["enable"@, self.service.name@]);
                    (InstallState::Enabling, InstallAction::RunManager { argv })
                } else {
                    (
                        InstallState::Failed { error: ServiceError::ToolSpawnFailed },
                        InstallAction::Stop,
                    )
                }
            },
            (InstallState::Enabling, InstallEvent::ManagerDone { spawned }) => {
                if spawned {
                    (InstallState::Installed, InstallAction::Stop)
                } else {
                    (
                        InstallState::Failed { error: ServiceError::ToolSpawnFailed },
                        InstallAction::Stop,
                    )
                }
            },
            _ => (
                InstallState::Failed { error: ServiceError::ToolSpawnFailed },
                InstallAction::Stop,
            ),
        }
    }

    fn start_command(&self) -> (r: Vec<String>) {
        let mut argv = self.systemctl_command();
        argv.push(String::from_str("start"));
        argv.push(self.service.name.clone());
        assert(argv.deep_view() =~= spec_start_argv(self.service));
        argv
    }
}

/// Law: failure short-circuit. If the escaping step fails — the tool could
/// not be spawned, or its output is malformed or undecodable — the machine
/// reaches a failed terminal state and issues no file write and no manager
/// invocation, only a stop.
pub proof fn lemma_escape_failure_short_circuits(
    c: ServiceConfig,
    state: InstallState,
    event: InstallEvent,
    r: (InstallState, InstallAction),
)
    requires
        state is Escaping,
        event matches InstallEvent::ToolOutput { spawned, stdout } && (!spawned
            || spec_parse_escape(stdout@) is Err),
        install_step_spec(c, state, event, r),
    ensures
        r.0 is Failed,
        r.1 == InstallAction::Stop,
{
}

/// Law: idempotence of the written file. The unit path and content handed to
/// the write step are functions of the descriptor, the target directory and
/// the escape tool's output alone, so a second install from the same inputs
/// writes the byte-identical file to the same path.
pub proof fn lemma_install_write_deterministic(
    c1: ServiceConfig,
    c2: ServiceConfig,
    s1: InstallState,
    s2: InstallState,
    e1: InstallEvent,
    e2: InstallEvent,
    r1: (InstallState, InstallAction),
    r2: (InstallState, InstallAction),
)
    requires
        c1 == c2,
        s1 matches InstallState::Escaping { dir: d1 } && s2 matches InstallState::Escaping {
            dir: d2,
        } && d1@ == d2@,
        e1 matches InstallEvent::ToolOutput { spawned: sp1, stdout: o1 } && e2
            matches InstallEvent::ToolOutput { spawned: sp2, stdout: o2 } && sp1 == sp2 && o1@
            == o2@,
        install_step_spec(c1, s1, e1, r1),
        install_step_spec(c2, s2, e2, r2),
    ensures
        r1.1 matches InstallAction::WriteUnitFile { path: p1, content: t1 } ==> (r2.1
            matches InstallAction::WriteUnitFile { path: p2, content: t2 } && p1@ == p2@ && t1@
            == t2@),
{
}

} // verus!
