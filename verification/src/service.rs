//! The OS service contract: where each protocol's files live under the user's
//! home directory, the service command line and display name that the
//! installer must keep in sync, the autostart values the credentialed
//! protocol's daemon reads from the persistent key-value store, and how the
//! service manager's reported states are interpreted as success or failure of
//! a start, stop or liveness query.
use crate::types::Protocol;
use vstd::prelude::*;

verus! {

/// The service manager's reported state of a service, as this library reads
/// it.  `Other` stands for any state word not singled out here.
#[derive(Debug, Clone, Copy, PartialEq, Eq, Structural)]
pub enum ServiceState {
    Stopped,
    StartPending,
    StopPending,
    Running,
    Other,
}

/// A start request succeeded if the queried state is running, or still
/// pending: service transitions are asynchronous at the OS level.
pub fn start_succeeded(s: ServiceState) -> (r: bool)
    ensures
        r == (s is Running || s is StartPending),
{
    match s {
        ServiceState::Running => true,
        ServiceState::StartPending => true,
        _ => false,
    }
}

/// A stop request succeeded if the queried state is stopped, or still
/// pending.
pub fn stop_succeeded(s: ServiceState) -> (r: bool)
    ensures
        r == (s is Stopped || s is StopPending),
{
    match s {
        ServiceState::Stopped => true,
        ServiceState::StopPending => true,
        _ => false,
    }
}

/// A service counts as started unless its state was queried successfully and
/// came back fully stopped.
pub fn counts_as_started(query_ok: bool, s: ServiceState) -> (r: bool)
    ensures
        r == !(query_ok && s is Stopped),
{
    !(query_ok && matches!(s, ServiceState::Stopped))
}

/// Whether installing this protocol's service must grant the
/// unrestricted-identity capability.
pub fn needs_unrestricted_sid(protocol: &Protocol) -> (r: bool)
    ensures
        r == (*protocol is WireGuard),
{
    matches!(protocol, Protocol::WireGuard)
}

/// The protocol's directory under the user's home.
pub open spec fn spec_protocol_dir(home: Seq<char>, p: Protocol) -> Seq<char> {
    home + "/.octovpn/"@ + (if p is OpenVPN {
        "openvpn"@
    } else {
        "wireguard"@
    })
}

/// Build the protocol's directory path under `home`.
pub fn protocol_dir(home: &str, protocol: &Protocol) -> (r: String)
    ensures
        r@ == spec_protocol_dir(home@, *protocol),
{
    let mut out = home.to_owned();
    out.append("/.octovpn/");
    out.append(protocol.subdirectory());
    proof {
        assert(out@ =~= spec_protocol_dir(home@, *protocol));
    }
    out
}

/// The full path of the protocol's executable.
pub open spec fn spec_executable_path(home: Seq<char>, p: Protocol) -> Seq<char> {
    spec_protocol_dir(home, p) + "/"@ + (if p is OpenVPN {
        "openvpnserv2.exe"@
    } else {
        "wireguard.exe"@
    })
}

/// Build the full path of the protocol's executable under `home`.
pub fn executable_path(home: &str, protocol: &Protocol) -> (r: String)
    ensures
        r@ == spec_executable_path(home@, *protocol),
{
    let mut out = protocol_dir(home, protocol);
    out.append("/");
    out.append(protocol.executable());
    proof {
        assert(out@ =~= spec_executable_path(home@, *protocol));
    }
    out
}

/// The command line the installed service definition must carry: the
/// executable path, plus the service flag and config file for the protocol
/// that takes them on its command line.
pub open spec fn spec_command_line(home: Seq<char>, p: Protocol) -> Seq<char> {
    if p is OpenVPN {
        spec_executable_path(home, p)
    } else {
        spec_executable_path(home, p) + " /service "@ + home + "/.octovpn/wireguard/wireguard.conf"@
    }
}

/// Build the service command line for `protocol` under `home`.
pub fn command_line(home: &str, protocol: &Protocol) -> (r: String)
    ensures
        r@ == spec_command_line(home@, *protocol),
{
    let mut out = executable_path(home, protocol);
    if let Protocol::WireGuard = protocol {
        out.append(" /service ");
        out.append(home);
        out.append("/.octovpn/wireguard/wireguard.conf");
    }
    proof {
        assert(out@ =~= spec_command_line(home@, *protocol));
    }
    out
}

/// The service's display name.
pub open spec fn spec_display_name(p: Protocol) -> Seq<char> {
    "OctoVPN Service ("@ + (if p is OpenVPN {
        "OpenVPN"@
    } else {
        "WireGuard"@
    }) + ")"@
}

/// Build the service's display name.
pub fn display_name(protocol: &Protocol) -> (r: String)
    ensures
        r@ == spec_display_name(*protocol),
{
    let mut out = String::from_str("OctoVPN Service (");
    out.append(protocol.label());
    out.append(")");
    proof {
        assert(out@ =~= spec_display_name(*protocol));
    }
    out
}

/// Where the generated config file for a connection attempt is written.
pub open spec fn spec_config_path(home: Seq<char>, p: Protocol) -> Seq<char> {
    spec_protocol_dir(home, p) + "/"@ + (if p is OpenVPN {
        "config.ovpn"@
    } else {
        "wireguard.conf"@
    })
}

/// Build the generated config file's path.
pub fn config_path(home: &str, protocol: &Protocol) -> (r: String)
    ensures
        r@ == spec_config_path(home@, *protocol),
{
    let mut out = protocol_dir(home, protocol);
    out.append("/");
    match protocol {
        Protocol::OpenVPN => out.append("config.ovpn"),
        Protocol::WireGuard => out.append("wireguard.conf"),
    }
    proof {
        assert(out@ =~= spec_config_path(home@, *protocol));
    }
    out
}

/// The credentialed protocol's log directory under `home`.
pub open spec fn spec_log_dir(home: Seq<char>) -> Seq<char> {
    home + "/.octovpn/openvpn/logs"@
}

/// Build the credentialed protocol's log directory path.
pub fn log_dir(home: &str) -> (r: String)
    ensures
        r@ == spec_log_dir(home@),
{
    let mut out = home.to_owned();
    out.append("/.octovpn/openvpn/logs");
    out
}

/// The namespace in the persistent key-value store that the credentialed
/// protocol's daemon reads.
pub fn registry_namespace() -> (r: &'static str)
    ensures
        r@ == "Software\\OctoVPN"@,
{
    "Software\\OctoVPN"
}

/// One named value the autostart contract requires.
#[derive(Debug, Clone, PartialEq, Eq)]
pub struct RegistryValue {
    pub name: String,
    pub value: String,
}

impl DeepView for RegistryValue {
    type V = (Seq<char>, Seq<char>);

    open spec fn deep_view(&self) -> (Seq<char>, Seq<char>) {
        (self.name@, self.value@)
    }
}

/// The six named values the autostart contract requires, with the values
/// computed from the user's home directory.
pub open spec fn spec_registry_values(home: Seq<char>) -> Seq<(Seq<char>, Seq<char>)> {
    seq![
        ("autostart_config_dir"@, home + "/.octovpn/openvpn"@),
        ("exe_path"@, home + "/.octovpn/openvpn/openvpn.exe"@),
        ("config_ext"@, "ovpn"@),
        ("log_append"@, "0"@),
        ("log_dir"@, home + "/.octovpn/openvpn/logs"@),
        ("priority"@, "NORMAL_PRIORITY_CLASS"@),
    ]
}

/// Build the autostart values required under `home`, in order.
pub fn registry_values(home: &str) -> (r: Vec<RegistryValue>)
    ensures
        r.deep_view() == spec_registry_values(home@),
{
    let mut out: Vec<RegistryValue> = Vec::new();
    let mut dir = home.to_owned();
    dir.append("/.octovpn/openvpn");
    out.push(RegistryValue { name: String::from_str("autostart_config_dir"), value: dir });
    let mut exe = home.to_owned();
    exe.append("/.octovpn/openvpn/openvpn.exe");
    out.push(RegistryValue { name: String::from_str("exe_path"), value: exe });
    out.push(
        RegistryValue { name: String::from_str("config_ext"), value: String::from_str("ovpn") },
    );
    out.push(RegistryValue { name: String::from_str("log_append"), value: String::from_str("0") });
    let mut logs = home.to_owned();
    logs.append("/.octovpn/openvpn/logs");
    out.push(RegistryValue { name: String::from_str("log_dir"), value: logs });
    out.push(
        RegistryValue {
            name: String::from_str("priority"),
            value: String::from_str("NORMAL_PRIORITY_CLASS"),
        },
    );
    proof {
        assert(out.deep_view() =~= spec_registry_values(home@));
    }
    out
}

/// Read-before-write: a value is written only when the store holds nothing
/// under the name, or something different from the desired value.
pub fn registry_write_needed(current: Option<&String>, desired: &String) -> (r: bool)
    ensures
        r == !(current matches Some(c) && c@ == desired@),
{
    match current {
        Some(c) => !c.eq(desired),
        None => true,
    }
}

} // verus!
