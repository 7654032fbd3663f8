//! Selecting a service-manager backend.
//!
//! Whether a supported manager is present on the host is probed by the
//! caller (a sentinel path check); the outcome arrives here as a plain
//! truth value, and the descriptor is handed to the one supported backend
//! or to nobody.

use vstd::prelude::*;

use crate::config::ServiceConfig;
use crate::systemd::Systemd;

verus! {

/// Hands the descriptor to the systemd backend when the manager was probed
/// as present, and to nobody otherwise.
pub fn get_provider(service: ServiceConfig, manager_present: bool) -> (r: Option<Systemd>)
    ensures
        manager_present ==> (r matches Some(p) && p.service == service),
        !manager_present ==> r is None,
{
    if manager_present {
        Some(Systemd { service })
    } else {
        None
    }
}

} // verus!
