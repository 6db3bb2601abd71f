//! The connection state machine behind a toggle request.  A toggle runs in
//! three decisions: what to do at all (connect, disconnect, or reject the
//! request), how the service action's outcomes combine into the reported
//! result, and how the result updates the active-protocol marker and the
//! user-visible status.  The caller performs the service actions between the
//! decisions and feeds their outcomes back in.
use crate::types::{Credentials, Protocol, Status};
use vstd::prelude::*;

verus! {

/// The status a connection query republishes, derived from the
/// active-protocol marker alone.
pub fn active_status(active: &Option<Protocol>) -> (r: Status)
    ensures
        r == (if *active is Some {
            Status::Connected
        } else {
            Status::Disconnected
        }),
{
    match active {
        Some(_) => Status::Connected,
        None => Status::Disconnected,
    }
}

/// What a toggle request decides to do.
#[derive(Debug, Clone, Copy, PartialEq, Eq, Structural)]
pub enum ToggleStep {
    /// Nothing: a connect without config or credentials, or a disconnect
    /// with no protocol marked active.  No service action is taken.
    Rejected,
    /// Patch the config and ensure the configured protocol's service runs.
    Connect { protocol: Protocol },
    /// Stop the active protocol's service if it runs.
    Disconnect { protocol: Protocol },
}

/// The status published optimistically before any service action.
pub open spec fn spec_optimistic_status(desired: bool) -> Status {
    if desired {
        Status::Connecting
    } else {
        Status::Disconnecting
    }
}

/// The decision table of a toggle request.  A connect needs both config and
/// credentials and goes to the configured protocol; a disconnect needs a
/// marked active protocol and goes to it.
pub open spec fn spec_toggle_step(
    desired: bool,
    has_config: bool,
    has_credentials: bool,
    active: Option<Protocol>,
    configured: Protocol,
) -> ToggleStep {
    if desired {
        if has_config && has_credentials {
            ToggleStep::Connect { protocol: configured }
        } else {
            ToggleStep::Rejected
        }
    } else {
        match active {
            Some(p) => ToggleStep::Disconnect { protocol: p },
            None => ToggleStep::Rejected,
        }
    }
}

/// Decide a toggle request: the optimistic status to publish at once, and
/// the step to carry out.
pub fn toggle_begin(
    desired: bool,
    config: &Option<String>,
    credentials: &Option<Credentials>,
    active: &Option<Protocol>,
    configured: &Protocol,
) -> (r: (Status, ToggleStep))
    ensures
        r.0 == spec_optimistic_status(desired),
        r.1 == spec_toggle_step(desired, config is Some, credentials is Some, *active, *configured),
{
    let status = if desired {
        Status::Connecting
    } else {
        Status::Disconnecting
    };
    let step = if desired {
        if config.is_some() && credentials.is_some() {
            ToggleStep::Connect { protocol: *configured }
        } else {
            ToggleStep::Rejected
        }
    } else {
        match active {
            Some(p) => ToggleStep::Disconnect { protocol: *p },
            None => ToggleStep::Rejected,
        }
    };
    (status, step)
}

/// A connect request is rejected, before any service action, exactly when
/// the config or the credentials are missing.
pub proof fn lemma_connect_requires_config_and_credentials(
    has_config: bool,
    has_credentials: bool,
    active: Option<Protocol>,
    configured: Protocol,
)
    ensures
        spec_toggle_step(true, has_config, has_credentials, active, configured) is Rejected <==> !(
        has_config && has_credentials),
{
}

/// How the outcomes of the carried-out step combine into the reported
/// toggle result.
pub open spec fn spec_toggle_result(
    step: ToggleStep,
    patch_ok: bool,
    already_started: bool,
    action_ok: bool,
) -> bool {
    match step {
        ToggleStep::Rejected => false,
        // the config must have been written, and the service must run
        // (started now unless it already was)
        ToggleStep::Connect { .. } => patch_ok && (already_started || action_ok),
        // an already-stopped service counts as a successful disconnect
        ToggleStep::Disconnect { .. } => !already_started || action_ok,
    }
}

/// Combine the outcomes of the carried-out step: `patch_ok` whether the
/// patched config was written, `already_started` whether the service was
/// found running beforehand, `action_ok` whether the start (connect) or
/// stop (disconnect) succeeded.  Unused flags are ignored.
pub fn toggle_result(step: &ToggleStep, patch_ok: bool, already_started: bool, action_ok: bool) -> (r:
    bool)
    ensures
        r == spec_toggle_result(*step, patch_ok, already_started, action_ok),
{
    match step {
        ToggleStep::Rejected => false,
        ToggleStep::Connect { .. } => patch_ok && (already_started || action_ok),
        ToggleStep::Disconnect { .. } => !already_started || action_ok,
    }
}

/// The active-protocol marker after a toggle: set to the configured protocol
/// on a successful connect, cleared on a successful disconnect, untouched on
/// failure.
pub open spec fn spec_new_active(
    desired: bool,
    result: bool,
    configured: Protocol,
    old_active: Option<Protocol>,
) -> Option<Protocol> {
    if result {
        if desired {
            Some(configured)
        } else {
            None
        }
    } else {
        old_active
    }
}

/// The synchronously confirmed status for the protocol without a control
/// socket: the requested state on success, its opposite on failure.
pub open spec fn spec_sync_status(desired: bool, result: bool) -> Status {
    if desired {
        if result {
            Status::Connected
        } else {
            Status::Disconnected
        }
    } else {
        if result {
            Status::Disconnected
        } else {
            Status::Connected
        }
    }
}

/// Finalize a toggle: the new active-protocol marker, and the status to
/// publish now.  For the protocol with a control socket no status is
/// published here: confirmation is delegated to the bounded confirmation
/// runner.
pub fn toggle_finalize(
    desired: bool,
    result: bool,
    configured: &Protocol,
    old_active: &Option<Protocol>,
) -> (r: (Option<Protocol>, Option<Status>))
    ensures
        r.0 == spec_new_active(desired, result, *configured, *old_active),
        *configured is WireGuard ==> r.1 == Some(spec_sync_status(desired, result)),
        *configured is OpenVPN ==> r.1 is None,
{
    let new_active = if result {
        if desired {
            Some(*configured)
        } else {
            None
        }
    } else {
        *old_active
    };
    let published = match configured {
        Protocol::WireGuard => {
            let s = if desired {
                if result {
                    Status::Connected
                } else {
                    Status::Disconnected
                }
            } else {
                if result {
                    Status::Disconnected
                } else {
                    Status::Connected
                }
            };
            Some(s)
        },
        Protocol::OpenVPN => None,
    };
    (new_active, published)
}

} // verus!
