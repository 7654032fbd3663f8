//! Library for turning a service description into a systemd unit file and
//! driving the install workflow (escape the name, write the file, reload and
//! enable the manager).
//!
//! The rendering of the unit text is pure and fully specified; the
//! side-effecting steps of an install are expressed as a state machine whose
//! transition function is verified, while an unverified shell performs the
//! actual process spawns and file writes and feeds the outcomes back in.

pub mod config;
pub mod install;
pub mod provider;
pub mod render;
pub mod strutil;
pub mod systemd;

use vstd::prelude::*;

use crate::install::{InstallAction, InstallEvent, InstallState};

verus! {

/// A service-manager backend: it decides every step of an install, and a
/// driver performs the decided actions and feeds the outcomes back.
///
/// Each backend brings its own specification of what its decisions mean; the
/// method contracts hold any implementation to the specification it states.
pub trait ServiceOperator {
    /// What beginning an install yields.
    spec fn begin_spec(&self, r: (InstallState, InstallAction)) -> bool;

    /// Which event answers which waiting state.
    spec fn step_allowed(&self, state: InstallState, event: InstallEvent) -> bool;

    /// What one transition of the install machine yields.
    spec fn step_spec(
        &self,
        state: InstallState,
        event: InstallEvent,
        r: (InstallState, InstallAction),
    ) -> bool;

    /// What the start invocation's command line is.
    spec fn start_spec(&self, argv: Seq<Seq<char>>) -> bool;

    /// Begins an install: the first waiting state and the first action to
    /// perform.
    fn install_begin(&self) -> (r: (InstallState, InstallAction))
        ensures
            self.begin_spec(r),
    ;

    /// Advances the install by one step: from the waiting state and the
    /// event that answers it to the next state and action.
    fn install_step(&self, state: InstallState, event: InstallEvent) -> (r: (
        InstallState,
        InstallAction,
    ))
        requires
            self.step_allowed(state, event),
        ensures
            self.step_spec(state, event, r),
    ;

    /// The manager invocation that starts the installed service; to be run
    /// only after a completed install.
    fn start_command(&self) -> (r: Vec<String>)
        ensures
            self.start_spec(r.deep_view()),
    ;
}

} // verus!
