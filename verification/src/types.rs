//! The data model: supported protocols, user-facing connection status,
//! credentials and persisted configuration, and the parsed management-interface
//! sample.
use vstd::prelude::*;

verus! {

/// One of the two supported VPN backends.
#[derive(Debug, Clone, Copy, PartialEq, Eq, Structural)]
pub enum Protocol {
    OpenVPN,
    WireGuard,
}

impl Protocol {
    /// File name of the backend's executable.
    pub fn executable(&self) -> (r: &'static str)
        ensures
            *self is OpenVPN ==> r@ == "openvpnserv2.exe"@,
            *self is WireGuard ==> r@ == "wireguard.exe"@,
    {
        match self {
            Protocol::OpenVPN => "openvpnserv2.exe",
            Protocol::WireGuard => "wireguard.exe",
        }
    }

    /// Fixed name of the OS service that supervises the backend.
    pub fn service_name(&self) -> (r: &'static str)
        ensures
            *self is OpenVPN ==> r@ == "OctoVPNService$OpenVPN"@,
            *self is WireGuard ==> r@ == "OctoVPNService$WireGuard"@,
    {
        match self {
            Protocol::OpenVPN => "OctoVPNService$OpenVPN",
            Protocol::WireGuard => "OctoVPNService$WireGuard",
        }
    }

    /// On-disk subdirectory that holds the backend's files.
    pub fn subdirectory(&self) -> (r: &'static str)
        ensures
            *self is OpenVPN ==> r@ == "openvpn"@,
            *self is WireGuard ==> r@ == "wireguard"@,
    {
        match self {
            Protocol::OpenVPN => "openvpn",
            Protocol::WireGuard => "wireguard",
        }
    }

    /// Display name of the protocol.
    pub fn label(&self) -> (r: &'static str)
        ensures
            *self is OpenVPN ==> r@ == "OpenVPN"@,
            *self is WireGuard ==> r@ == "WireGuard"@,
    {
        match self {
            Protocol::OpenVPN => "OpenVPN",
            Protocol::WireGuard => "WireGuard",
        }
    }

    /// Whether the backend's daemon reads its autostart parameters from the
    /// OS key-value store (true only for the OpenVPN variant).
    pub fn uses_registry(&self) -> (r: bool)
        ensures
            r == (*self is OpenVPN),
    {
        match self {
            Protocol::OpenVPN => true,
            Protocol::WireGuard => false,
        }
    }

    /// Whether the backend exposes a local control-plane socket, so that a
    /// toggle must be confirmed asynchronously instead of synchronously.
    pub fn has_control_socket(&self) -> (r: bool)
        ensures
            r == (*self is OpenVPN),
    {
        match self {
            Protocol::OpenVPN => true,
            Protocol::WireGuard => false,
        }
    }
}

/// User-facing connection status.
#[derive(Debug, Clone, Copy, PartialEq, Eq, Structural)]
pub enum Status {
    Disconnected,
    Connecting,
    Connected,
    Disconnecting,
}

/// Account credentials; only ever written into a generated config blob.
#[derive(Debug, Clone, PartialEq, Eq)]
pub struct Credentials {
    pub username: String,
    pub password: String,
}

/// A selectable server location, as the configuration store hands it over.
#[derive(Debug, Clone, PartialEq, Eq)]
pub struct Location {
    pub city: String,
    pub config: Option<String>,
    pub country: String,
    pub wireguard: bool,
    pub id: i32,
    pub ip: String,
    pub name: String,
    pub status: bool,
}

/// Persisted user preferences.
#[derive(Debug, Clone, PartialEq, Eq)]
pub struct Configuration {
    pub credentials: Option<Credentials>,
    pub theme: String,
    pub discord_rpc: bool,
    pub protocol: Protocol,
}

impl Default for Configuration {
    /// The configuration used before any was saved: no credentials, dark
    /// theme, presence integration off, OpenVPN selected.
    fn default() -> (r: Self)
        ensures
            r.credentials is None,
            r.theme@ == "dark"@,
            !r.discord_rpc,
            r.protocol is OpenVPN,
    {
        Configuration {
            credentials: None,
            theme: String::from_str("dark"),
            discord_rpc: false,
            protocol: Protocol::OpenVPN,
        }
    }
}

/// One parsed snapshot from the management interface.
#[derive(Debug, Clone, PartialEq, Eq)]
pub struct OpenVPNState {
    pub start: u64,
    pub connected: bool,
    pub state: String,
    pub local_ip: String,
    pub remote_ip: String,
    pub port: u16,
}

/// Why a preflight check failed.
#[derive(Debug, Clone, Copy, PartialEq, Eq, Structural)]
pub enum PreflightError {
    ServiceNotInstalled,
    FilesMissing,
    InvalidHash,
}

} // verus!
