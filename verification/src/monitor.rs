//! The management-interface monitor.  A long-lived background loop polls the
//! local control socket on a fixed cadence, parses its line-oriented status
//! responses into structured samples and republishes them.  Every cycle it
//! first checks whether it may poll at all: it stands down while a bounded
//! confirmation runner owns the state transition, and whenever the configured
//! protocol is not the socket-exposing one — so switching protocols stops its
//! publications within one polling interval.
use crate::text::{
    parse_decimal, parse_decimal_spec, replace_all, replace_str, split_char, split_when, starts_with,
    str_eq, trim_str, trimmed,
};
use crate::types::{OpenVPNState, Protocol};
use vstd::prelude::*;

verus! {

/// Fixed local port of the management interface.
pub const MANAGEMENT_PORT: u16 = 7505;

/// Fixed polling cadence of the monitor, in milliseconds.
pub const POLL_INTERVAL_MS: u64 = 500;

/// The newline-terminated status query sent on every poll.
pub fn status_query() -> (r: &'static str)
    ensures
        r@ == "state\n"@,
{
    "state\n"
}

/// What the monitor does with one cycle.
#[derive(Debug, Clone, Copy, PartialEq, Eq, Structural)]
pub enum MonitorGate {
    /// Publish nothing; sleep one interval and re-check.
    Sleep,
    /// Poll the control socket.
    Poll,
}

/// The monitor polls only while no confirmation runner owns the state
/// transition and the configured protocol exposes the control socket.
pub open spec fn spec_monitor_gate(confirmation_active: bool, configured: Protocol) -> MonitorGate {
    if confirmation_active || !(configured is OpenVPN) {
        MonitorGate::Sleep
    } else {
        MonitorGate::Poll
    }
}

/// Decide one monitor cycle; re-checked before every poll, inner ones
/// included.
pub fn monitor_gate(confirmation_active: bool, configured: &Protocol) -> (r: MonitorGate)
    ensures
        r == spec_monitor_gate(confirmation_active, *configured),
{
    if confirmation_active || !matches!(configured, Protocol::OpenVPN) {
        MonitorGate::Sleep
    } else {
        MonitorGate::Poll
    }
}

/// Once the configured protocol is no longer the socket-exposing one, or a
/// confirmation runner owns the transition, the monitor publishes nothing:
/// every later cycle decides Sleep.
pub proof fn lemma_monitor_stands_down(confirmation_active: bool, configured: Protocol)
    ensures
        !(configured is OpenVPN) ==> spec_monitor_gate(confirmation_active, configured) is Sleep,
        confirmation_active ==> spec_monitor_gate(confirmation_active, configured) is Sleep,
        spec_monitor_gate(confirmation_active, configured) is Poll ==> configured is OpenVPN
            && !confirmation_active,
{
}

/// Spec-level image of a structured sample.
pub struct SampleV {
    pub start: u64,
    pub connected: bool,
    pub state: Seq<char>,
    pub local_ip: Seq<char>,
    pub remote_ip: Seq<char>,
    pub port: u16,
}

impl View for OpenVPNState {
    type V = SampleV;

    open spec fn view(&self) -> SampleV {
        SampleV {
            start: self.start,
            connected: self.connected,
            state: self.state@,
            local_ip: self.local_ip@,
            remote_ip: self.remote_ip@,
            port: self.port,
        }
    }
}

/// What one management-interface response means.
#[derive(Debug, Clone, PartialEq, Eq)]
pub enum PollOutcome {
    /// Not authoritative yet (blank or informational line): query again on
    /// the same socket.
    Transient,
    /// Unparsable: the socket is presumed stale; abort the inner loop and
    /// reopen next cycle.
    Stale,
    /// A structured status sample to republish.
    Sample(OpenVPNState),
}

/// Spec-level image of a `PollOutcome`.
pub enum PollOutcomeV {
    Transient,
    Stale,
    Sample(SampleV),
}

impl View for PollOutcome {
    type V = PollOutcomeV;

    open spec fn view(&self) -> PollOutcomeV {
        match self {
            PollOutcome::Transient => PollOutcomeV::Transient,
            PollOutcome::Stale => PollOutcomeV::Stale,
            PollOutcome::Sample(s) => PollOutcomeV::Sample(s@),
        }
    }
}

/// The response with the trailing null padding of the read buffer removed.
pub open spec fn spec_cleaned(raw: Seq<char>) -> Seq<char> {
    replace_all(raw, "\0"@, ""@)
}

/// How a management-interface response is interpreted: strip null padding;
/// blank and informational responses are transient and re-polled; otherwise
/// the response splits on commas into at least six fields — epoch start
/// time, the literal token `CONNECTED` or not, state label, local address,
/// remote address, port — and fewer fields, or a numeric field that fails
/// to parse, make it stale.
pub open spec fn spec_interpret(raw: Seq<char>) -> PollOutcomeV {
    let s = spec_cleaned(raw);
    if trimmed(s).len() == 0 {
        PollOutcomeV::Transient
    } else if ">INFO"@.len() <= s.len() && s.take(">INFO"@.len() as int) == ">INFO"@ {
        PollOutcomeV::Transient
    } else {
        let fields = split_when(s, |c: char| c == ',');
        if fields.len() < 6 {
            PollOutcomeV::Stale
        } else {
            let start = parse_decimal_spec(fields[0], u64::MAX);
            let port = parse_decimal_spec(fields[5], 65535);
            if start is Some && port is Some {
                PollOutcomeV::Sample(
                    SampleV {
                        start: start->0,
                        connected: fields[1] == "CONNECTED"@,
                        state: fields[2],
                        local_ip: fields[3],
                        remote_ip: fields[4],
                        port: port->0 as u16,
                    },
                )
            } else {
                PollOutcomeV::Stale
            }
        }
    }
}

/// Interpret one raw management-interface response.
pub fn interpret_response(raw: &str) -> (r: PollOutcome)
    ensures
        r@ == spec_interpret(raw@),
{
    proof {
        reveal_strlit("\0");
        reveal_strlit("");
        reveal_strlit(">INFO");
    }
    let cleaned = replace_str(raw, "\0", "");
    let t = trim_str(cleaned.as_str());
    if t.as_str().unicode_len() == 0 {
        return PollOutcome::Transient;
    }
    if starts_with(cleaned.as_str(), ">INFO") {
        return PollOutcome::Transient;
    }
    let fields = split_char(cleaned.as_str(), ',');
    let ghost fs = split_when(spec_cleaned(raw@), |c: char| c == ',');
    proof {
        assert(fields.deep_view() == fs);
    }
    if fields.len() < 6 {
        return PollOutcome::Stale;
    }
    proof {
        assert(fields@[0]@ == fs[0]);
        assert(fields@[1]@ == fs[1]);
        assert(fields@[2]@ == fs[2]);
        assert(fields@[3]@ == fs[3]);
        assert(fields@[4]@ == fs[4]);
        assert(fields@[5]@ == fs[5]);
    }
    let start = parse_decimal(fields[0].as_str(), u64::MAX);
    let port = parse_decimal(fields[5].as_str(), 65535);
    match (start, port) {
        (Some(start), Some(port)) => {
            let connected = str_eq(fields[1].as_str(), "CONNECTED");
            let sample = OpenVPNState {
                start,
                connected,
                state: fields[2].clone(),
                local_ip: fields[3].clone(),
                remote_ip: fields[4].clone(),
                port: port as u16,
            };
            PollOutcome::Sample(sample)
        },
        _ => PollOutcome::Stale,
    }
}

} // verus!
