//! Core logic of a desktop VPN client supervisor: integrity provisioning of
//! the protocol binaries, OS service configuration, config patching, the
//! connection state machine, and the socket-polling monitor and confirmation
//! runner.  Everything here is decision and text logic on plain values; the
//! surrounding process (network, disk, service manager, sockets) feeds these
//! functions and carries out the actions they decide.
pub mod confirm;
pub mod manifest;
pub mod monitor;
pub mod patch;
pub mod preflight;
pub mod provision;
pub mod service;
pub mod text;
pub mod toggle;
pub mod types;
