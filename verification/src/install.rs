//! The install workflow as a state machine.
//!
//! An install is a strict sequence of side-effecting steps: resolve the
//! target directory, escape the name, write the unit file, reload the
//! manager, enable the unit. The library decides; an unverified shell
//! performs each [`InstallAction`], feeds the outcome back as an
//! [`InstallEvent`], and stops when told to. Every transition is computed by
//! a verified function, so a failed step provably reaches a terminal
//! [`InstallState::Failed`] without issuing further side effects.

use vstd::prelude::*;

verus! {

/// Why an install stopped early.
#[derive(Clone, Copy, Debug, PartialEq, Eq, Structural)]
pub enum ServiceError {
    /// The escaping tool or the manager command could not be spawned.
    ToolSpawnFailed,
    /// The escaping tool's output was empty or lacked its trailing newline.
    ToolOutputMalformed,
    /// The escaping tool's output could not be decoded as text.
    ToolOutputNotText,
    /// The invoking user's home directory could not be resolved.
    HomeNotResolvable,
    /// The per-user unit directory could not be created.
    DirCreateFailed,
    /// The unit file could not be written.
    WriteFailed,
}

/// Where an install stands: which outcome it waits for, or how it ended.
#[derive(Debug, Clone, PartialEq)]
pub enum InstallState {
    /// Waiting for the user's home directory (user scope only).
    ResolvingHome,
    /// Waiting for the unit directory `dir` to exist (user scope only).
    PreparingDir { dir: String },
    /// Waiting for the escaping tool's output; the file will go under `dir`.
    Escaping { dir: String },
    /// Waiting for the outcome of writing the unit file.
    AwaitingWrite,
    /// Waiting for the manager's reload invocation.
    Reloading,
    /// Waiting for the manager's enable invocation.
    Enabling,
    /// Terminal: the install completed.
    Installed,
    /// Terminal: the install stopped at the first failing step.
    Failed { error: ServiceError },
}

/// The outcome of one side-effecting step, fed back into the machine.
#[derive(Debug, Clone, PartialEq)]
pub enum InstallEvent {
    /// The user's home directory, or `None` if it could not be resolved.
    HomeDir { home: Option<String> },
    /// Whether the unit directory now exists.
    DirReady { ok: bool },
    /// Whether the escaping tool ran to completion, and what it wrote.
    ToolOutput { spawned: bool, stdout: Vec<u8> },
    /// Whether the unit file was written.
    WriteOutcome { ok: bool },
    /// Whether a manager invocation ran to completion.
    ManagerDone { spawned: bool },
}

/// The one side-effecting step to perform next.
#[derive(Debug, Clone, PartialEq)]
pub enum InstallAction {
    /// Resolve the invoking user's home directory; answer with `HomeDir`.
    LookupHome,
    /// Create `dir` (recursively) if absent; answer with `DirReady`.
    EnsureDir { dir: String },
    /// Run the escaping tool; answer with `ToolOutput`.
    RunTool { argv: Vec<String> },
    /// Create or truncate `path` and write `content`; answer with
    /// `WriteOutcome`.
    WriteUnitFile { path: String, content: String },
    /// Run the service manager; answer with `ManagerDone`.
    RunManager { argv: Vec<String> },
    /// Terminal: the install is over; perform nothing further.
    Stop,
}

/// Which event answers which waiting state: the protocol a driver of the
/// machine follows.
pub open spec fn step_allowed_spec(state: InstallState, event: InstallEvent) -> bool {
    match (state, event) {
        (InstallState::ResolvingHome, InstallEvent::HomeDir { .. }) => true,
        (InstallState::PreparingDir { .. }, InstallEvent::DirReady { .. }) => true,
        (InstallState::Escaping { .. }, InstallEvent::ToolOutput { .. }) => true,
        (InstallState::AwaitingWrite, InstallEvent::WriteOutcome { .. }) => true,
        (InstallState::Reloading, InstallEvent::ManagerDone { .. }) => true,
        (InstallState::Enabling, InstallEvent::ManagerDone { .. }) => true,
        _ => false,
    }
}

} // verus!
