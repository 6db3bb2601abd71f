//! End-to-end tests of the library's decision and text logic on concrete
//! values.
use octovpn_core::confirm::{ConfirmOutcome, ConfirmRunner, ReverseAction};
use octovpn_core::manifest::{parse_manifest, ManifestEntry};
use octovpn_core::monitor::{interpret_response, monitor_gate, MonitorGate, PollOutcome};
use octovpn_core::patch::patch_config;
use octovpn_core::provision::{
    download_url, entry_next, entry_observe_content, manifest_url, EntryEvent, EntryStep,
    FetchReason,
};
use octovpn_core::service::{
    command_line, config_path, counts_as_started, display_name, executable_path, log_dir,
    needs_unrestricted_sid, protocol_dir, registry_namespace, registry_values,
    registry_write_needed, start_succeeded, stop_succeeded, ServiceState,
};
use octovpn_core::text::{parse_decimal, replace_str, split_char, str_eq, trim_str};
use octovpn_core::toggle::{
    active_status, toggle_begin, toggle_finalize, toggle_result, ToggleStep,
};
use octovpn_core::types::{
    Configuration, Credentials, OpenVPNState, PreflightError, Protocol, Status,
};

fn creds(u: &str, p: &str) -> Credentials {
    Credentials { username: u.to_string(), password: p.to_string() }
}

const ABC_SHA256: &str = "ba7816bf8f01cfea414140de5dae2223b00361a396177a9cb410ff61f20015ad";

// ---- protocol table ----

#[test]
fn protocol_fixed_data() {
    assert_eq!(Protocol::OpenVPN.executable(), "openvpnserv2.exe");
    assert_eq!(Protocol::WireGuard.executable(), "wireguard.exe");
    assert_eq!(Protocol::OpenVPN.service_name(), "OctoVPNService$OpenVPN");
    assert_eq!(Protocol::WireGuard.service_name(), "OctoVPNService$WireGuard");
    assert_eq!(Protocol::OpenVPN.subdirectory(), "openvpn");
    assert_eq!(Protocol::WireGuard.subdirectory(), "wireguard");
    assert!(Protocol::OpenVPN.uses_registry());
    assert!(!Protocol::WireGuard.uses_registry());
    assert!(Protocol::OpenVPN.has_control_socket());
    assert!(!Protocol::WireGuard.has_control_socket());
}

#[test]
fn default_configuration() {
    let c = Configuration::default();
    assert!(c.credentials.is_none());
    assert_eq!(c.theme, "dark");
    assert!(!c.discord_rpc);
    assert_eq!(c.protocol, Protocol::OpenVPN);
}

// ---- manifest parsing ----

#[test]
fn manifest_two_tokens_per_line_parses() {
    let entries = parse_manifest("aaaa file1.exe\nbbbb file2.dll").unwrap();
    assert_eq!(
        entries,
        vec![
            ManifestEntry { hash: "aaaa".to_string(), filename: "file1.exe".to_string() },
            ManifestEntry { hash: "bbbb".to_string(), filename: "file2.dll".to_string() },
        ]
    );
}

#[test]
fn manifest_single_token_line_is_invalid_hash() {
    assert_eq!(parse_manifest("aaaa file1.exe\nonlyonetoken"), Err(PreflightError::InvalidHash));
}

#[test]
fn manifest_empty_line_is_invalid_hash() {
    assert_eq!(parse_manifest("aaaa file1.exe\n\nbbbb file2.dll"), Err(PreflightError::InvalidHash));
}

#[test]
fn manifest_three_token_line_is_invalid_hash() {
    assert_eq!(parse_manifest("aaaa file1.exe extra"), Err(PreflightError::InvalidHash));
}

#[test]
fn manifest_empty_body_is_empty() {
    assert_eq!(parse_manifest(""), Ok(vec![]));
    assert_eq!(parse_manifest("  \n \n"), Ok(vec![]));
}

#[test]
fn manifest_tolerates_crlf_and_padding() {
    let entries = parse_manifest("aaaa  file1.exe\r\n\tbbbb\tfile2.dll\r\n").unwrap();
    assert_eq!(entries.len(), 2);
    assert_eq!(entries[0].hash, "aaaa");
    assert_eq!(entries[0].filename, "file1.exe");
    assert_eq!(entries[1].hash, "bbbb");
    assert_eq!(entries[1].filename, "file2.dll");
}

// ---- per-file integrity machine ----

#[test]
fn entry_present_and_matching_is_accepted() {
    let s = entry_next(&EntryStep::Probe, &EntryEvent::Present, "h");
    assert_eq!(s, EntryStep::Hash { refetched: false });
    let s = entry_next(&s, &EntryEvent::Digest("h".to_string()), "h");
    assert_eq!(s, EntryStep::Accepted);
}

#[test]
fn entry_mismatch_is_redownloaded_once_then_revalidated() {
    // present file with a wrong digest: exactly one download is ordered,
    // then the digest is checked again
    let s = entry_next(&EntryStep::Probe, &EntryEvent::Present, "good");
    let s = entry_next(&s, &EntryEvent::Digest("bad".to_string()), "good");
    assert_eq!(s, EntryStep::Fetch { reason: FetchReason::Mismatch });
    let s = entry_next(&s, &EntryEvent::FetchOk, "good");
    assert_eq!(s, EntryStep::Hash { refetched: true });
    // served content now matches: accepted, no second download
    let accepted = entry_next(&s, &EntryEvent::Digest("good".to_string()), "good");
    assert_eq!(accepted, EntryStep::Accepted);
    // served content still mismatched: failed, no second download either
    let failed = entry_next(&s, &EntryEvent::Digest("bad".to_string()), "good");
    assert_eq!(failed, EntryStep::Failed { error: PreflightError::InvalidHash });
}

#[test]
fn entry_missing_download_failure_is_files_missing() {
    let s = entry_next(&EntryStep::Probe, &EntryEvent::Absent, "h");
    assert_eq!(s, EntryStep::Fetch { reason: FetchReason::Missing });
    let s = entry_next(&s, &EntryEvent::FetchFailed, "h");
    assert_eq!(s, EntryStep::Failed { error: PreflightError::FilesMissing });
}

#[test]
fn entry_any_download_failure_is_files_missing() {
    let s = EntryStep::Fetch { reason: FetchReason::Mismatch };
    let s = entry_next(&s, &EntryEvent::FetchFailed, "h");
    assert_eq!(s, EntryStep::Failed { error: PreflightError::FilesMissing });
}

#[test]
fn entry_digest_of_content_is_computed() {
    // would fail if the digest wrapper handed its input back unchanged
    let content: Vec<u8> = b"abc".to_vec();
    let s = EntryStep::Hash { refetched: false };
    assert_eq!(entry_observe_content(&s, &content, ABC_SHA256), EntryStep::Accepted);
    assert_eq!(
        entry_observe_content(&s, &content, "abc"),
        EntryStep::Fetch { reason: FetchReason::Mismatch }
    );
}

// one simulated provisioning environment: (present file digest, served digest)
fn run_simulated_entry(
    local: &mut Option<String>,
    download: Option<&str>,
    expected: &str,
) -> EntryStep {
    let mut step = EntryStep::Probe;
    loop {
        step = match step {
            EntryStep::Probe => {
                let ev = if local.is_some() { EntryEvent::Present } else { EntryEvent::Absent };
                entry_next(&EntryStep::Probe, &ev, expected)
            }
            EntryStep::Hash { refetched } => {
                let d = local.clone().unwrap();
                entry_next(&EntryStep::Hash { refetched }, &EntryEvent::Digest(d), expected)
            }
            EntryStep::Fetch { reason } => {
                let ev = match download {
                    Some(d) => {
                        *local = Some(d.to_string());
                        EntryEvent::FetchOk
                    }
                    None => EntryEvent::FetchFailed,
                };
                entry_next(&EntryStep::Fetch { reason }, &ev, expected)
            }
            done => return done,
        };
    }
}

#[test]
fn simulated_provisioning_is_idempotent() {
    // run the integrity check twice against the same environment: the
    // second run, over the files the first run left, gives the same result
    let cases: [(Option<&str>, Option<&str>); 6] = [
        (Some("good"), Some("good")),
        (Some("good"), None),
        (Some("bad"), Some("good")),
        (Some("bad"), Some("other")),
        (None, Some("good")),
        (None, None),
    ];
    for (start, served) in cases {
        let mut local = start.map(|s| s.to_string());
        let first = run_simulated_entry(&mut local, served, "good");
        let second = run_simulated_entry(&mut local, served, "good");
        assert_eq!(first, second);
    }
}

#[test]
fn remote_endpoints() {
    assert_eq!(manifest_url(&Protocol::OpenVPN), "https://vpn.zephs.tech/openvpn/hashes");
    assert_eq!(manifest_url(&Protocol::WireGuard), "https://vpn.zephs.tech/wireguard/hashes");
    assert_eq!(
        download_url(&Protocol::OpenVPN, "openvpn.exe"),
        "https://vpn.zephs.tech/openvpn/openvpn.exe"
    );
}

// ---- config patcher ----

#[test]
fn patch_comments_directive_and_embeds_credentials() {
    let out = patch_config(
        &Protocol::OpenVPN,
        "route-method exe\nfoo".to_string(),
        &creds("a", "b"),
    );
    assert_eq!(
        out,
        "# route-method exe\nfoo\n\n<auth-user-pass>\na\nb\n</auth-user-pass>\n\nmanagement localhost 7505\nverb 2"
    );
    assert!(out.contains("# route-method exe"));
    assert!(out.contains("<auth-user-pass>\na\nb\n</auth-user-pass>"));
    assert!(out.lines().any(|l| l == "management localhost 7505"));
}

#[test]
fn patch_comments_all_three_directives() {
    let out = patch_config(
        &Protocol::OpenVPN,
        "route-method exe\nroute-delay 2\nregister-dns\n".to_string(),
        &creds("u", "p"),
    );
    assert!(out.contains("# route-method exe"));
    assert!(out.contains("# route-delay 2"));
    assert!(out.contains("# register-dns"));
    assert!(out.ends_with("\n\nmanagement localhost 7505\nverb 2"));
}

#[test]
fn patch_leaves_keyed_protocol_config_unmodified() {
    let raw = "[Interface]\nPrivateKey = x\n".to_string();
    let out = patch_config(&Protocol::WireGuard, raw.clone(), &creds("a", "b"));
    assert_eq!(out, raw);
}

// ---- toggle state machine ----

#[test]
fn connect_without_config_fails_without_service_action() {
    let (status, step) = toggle_begin(
        true,
        &None,
        &Some(creds("u", "p")),
        &None,
        &Protocol::OpenVPN,
    );
    assert_eq!(status, Status::Connecting);
    assert_eq!(step, ToggleStep::Rejected);
    assert!(!toggle_result(&step, true, true, true));
}

#[test]
fn connect_without_credentials_fails_without_service_action() {
    let (status, step) = toggle_begin(
        true,
        &Some("cfg".to_string()),
        &None,
        &None,
        &Protocol::WireGuard,
    );
    assert_eq!(status, Status::Connecting);
    assert_eq!(step, ToggleStep::Rejected);
    assert!(!toggle_result(&step, true, true, true));
}

#[test]
fn connect_with_both_goes_to_configured_protocol() {
    let (_, step) = toggle_begin(
        true,
        &Some("cfg".to_string()),
        &Some(creds("u", "p")),
        &None,
        &Protocol::WireGuard,
    );
    assert_eq!(step, ToggleStep::Connect { protocol: Protocol::WireGuard });
    // patched config written and service started
    assert!(toggle_result(&step, true, false, true));
    // already running counts
    assert!(toggle_result(&step, true, true, false));
    // failed config write fails the toggle
    assert!(!toggle_result(&step, false, true, true));
    // service neither running nor started fails the toggle
    assert!(!toggle_result(&step, true, false, false));
}

#[test]
fn disconnect_without_active_protocol_fails() {
    let (status, step) = toggle_begin(false, &None, &None, &None, &Protocol::OpenVPN);
    assert_eq!(status, Status::Disconnecting);
    assert_eq!(step, ToggleStep::Rejected);
    assert!(!toggle_result(&step, false, false, false));
}

#[test]
fn disconnect_goes_to_active_protocol() {
    let (_, step) = toggle_begin(
        false,
        &None,
        &None,
        &Some(Protocol::WireGuard),
        &Protocol::OpenVPN,
    );
    assert_eq!(step, ToggleStep::Disconnect { protocol: Protocol::WireGuard });
    // running service stopped
    assert!(toggle_result(&step, false, true, true));
    // not running counts as disconnected
    assert!(toggle_result(&step, false, false, false));
    // running service that would not stop fails
    assert!(!toggle_result(&step, false, true, false));
}

#[test]
fn finalize_updates_marker_and_synchronous_status() {
    // successful connect marks the protocol active
    let (active, published) =
        toggle_finalize(true, true, &Protocol::WireGuard, &None);
    assert_eq!(active, Some(Protocol::WireGuard));
    assert_eq!(published, Some(Status::Connected));
    // failed connect keeps the old marker
    let (active, published) =
        toggle_finalize(true, false, &Protocol::WireGuard, &Some(Protocol::OpenVPN));
    assert_eq!(active, Some(Protocol::OpenVPN));
    assert_eq!(published, Some(Status::Disconnected));
    // successful disconnect clears the marker
    let (active, published) =
        toggle_finalize(false, true, &Protocol::WireGuard, &Some(Protocol::WireGuard));
    assert_eq!(active, None);
    assert_eq!(published, Some(Status::Disconnected));
    // failed disconnect reports Connected again
    let (_, published) =
        toggle_finalize(false, false, &Protocol::WireGuard, &Some(Protocol::WireGuard));
    assert_eq!(published, Some(Status::Connected));
    // the socket-exposing protocol defers to the confirmation runner
    let (active, published) = toggle_finalize(true, true, &Protocol::OpenVPN, &None);
    assert_eq!(active, Some(Protocol::OpenVPN));
    assert_eq!(published, None);
}

#[test]
fn connection_query_derives_status_from_marker() {
    assert_eq!(active_status(&Some(Protocol::OpenVPN)), Status::Connected);
    assert_eq!(active_status(&None), Status::Disconnected);
}

// ---- bounded confirmation runner ----

#[test]
fn connect_confirmation_abandons_after_exactly_five_failed_polls() {
    let mut runner = ConfirmRunner::new(true);
    for _ in 0..4 {
        assert_eq!(runner.observe(false), ConfirmOutcome::Continue);
    }
    assert_eq!(runner.observe(false), ConfirmOutcome::Abandoned);
    assert_eq!(runner.failed_tries, 5);
    assert_eq!(runner.abandoned_status(), Status::Disconnected);
    assert_eq!(runner.reverse_action(), ReverseAction::StopService);
}

#[test]
fn disconnect_confirmation_confirms_on_first_unreachable_poll() {
    let mut runner = ConfirmRunner::new(false);
    assert_eq!(runner.observe(false), ConfirmOutcome::Confirmed);
    assert_eq!(runner.successful_tries, 1);
    assert_eq!(runner.confirmed_status(), Status::Disconnected);
    assert!(runner.clears_sample_on_confirm());
}

#[test]
fn connect_confirmation_needs_four_consecutive_successes() {
    let mut runner = ConfirmRunner::new(true);
    assert_eq!(runner.observe(true), ConfirmOutcome::Continue);
    assert_eq!(runner.observe(true), ConfirmOutcome::Continue);
    assert_eq!(runner.observe(true), ConfirmOutcome::Continue);
    // an unexpected poll resets the consecutive count
    assert_eq!(runner.observe(false), ConfirmOutcome::Continue);
    assert_eq!(runner.successful_tries, 0);
    assert_eq!(runner.observe(true), ConfirmOutcome::Continue);
    assert_eq!(runner.observe(true), ConfirmOutcome::Continue);
    assert_eq!(runner.observe(true), ConfirmOutcome::Continue);
    let last = runner.observe(true);
    assert_eq!(last, ConfirmOutcome::Confirmed);
    assert_eq!(runner.confirmed_status(), Status::Connected);
}

#[test]
fn abandoned_disconnect_restarts_the_service() {
    let mut runner = ConfirmRunner::new(false);
    for _ in 0..4 {
        assert_eq!(runner.observe(true), ConfirmOutcome::Continue);
    }
    assert_eq!(runner.observe(true), ConfirmOutcome::Abandoned);
    assert_eq!(runner.abandoned_status(), Status::Connected);
    assert_eq!(runner.reverse_action(), ReverseAction::StartService);
}

#[test]
fn connect_confirmation_terminates_within_twenty_polls() {
    // worst case: three expected polls, then an unexpected one, over and
    // over; the twentieth poll is the fifth unexpected one and abandons
    let mut runner = ConfirmRunner::new(true);
    let mut outcome = ConfirmOutcome::Continue;
    let mut polls = 0;
    for round in 0..5 {
        for _ in 0..3 {
            outcome = runner.observe(true);
            polls += 1;
            assert_eq!(outcome, ConfirmOutcome::Continue);
        }
        outcome = runner.observe(false);
        polls += 1;
        if round < 4 {
            assert_eq!(outcome, ConfirmOutcome::Continue);
        }
    }
    assert_eq!(polls, 20);
    assert_eq!(outcome, ConfirmOutcome::Abandoned);
}

// ---- management-interface monitor ----

#[test]
fn monitor_stands_down_for_other_protocol_within_one_cycle() {
    assert_eq!(monitor_gate(false, &Protocol::WireGuard), MonitorGate::Sleep);
    assert_eq!(monitor_gate(true, &Protocol::WireGuard), MonitorGate::Sleep);
    assert_eq!(monitor_gate(true, &Protocol::OpenVPN), MonitorGate::Sleep);
    assert_eq!(monitor_gate(false, &Protocol::OpenVPN), MonitorGate::Poll);
}

#[test]
fn valid_status_line_parses_into_sample() {
    let out = interpret_response("1700000000,CONNECTED,CONNECTED,10.8.0.2,203.0.113.9,1194");
    assert_eq!(
        out,
        PollOutcome::Sample(OpenVPNState {
            start: 1700000000,
            connected: true,
            state: "CONNECTED".to_string(),
            local_ip: "10.8.0.2".to_string(),
            remote_ip: "203.0.113.9".to_string(),
            port: 1194,
        })
    );
}

#[test]
fn null_padding_is_stripped_before_parsing() {
    let out = interpret_response("123,WAIT,reconnecting,10.8.0.2,203.0.113.9,80\u{0}\u{0}\u{0}");
    assert_eq!(
        out,
        PollOutcome::Sample(OpenVPNState {
            start: 123,
            connected: false,
            state: "reconnecting".to_string(),
            local_ip: "10.8.0.2".to_string(),
            remote_ip: "203.0.113.9".to_string(),
            port: 80,
        })
    );
}

#[test]
fn informational_response_is_transient() {
    assert_eq!(
        interpret_response(">INFO:OpenVPN Management Interface Version 1"),
        PollOutcome::Transient
    );
}

#[test]
fn empty_response_is_transient() {
    assert_eq!(interpret_response(""), PollOutcome::Transient);
    assert_eq!(interpret_response("\u{0}\u{0}"), PollOutcome::Transient);
    assert_eq!(interpret_response("  \n"), PollOutcome::Transient);
}

#[test]
fn short_response_is_stale() {
    assert_eq!(interpret_response("123,CONNECTED,s,l,r"), PollOutcome::Stale);
}

#[test]
fn unparsable_fields_are_stale() {
    assert_eq!(interpret_response("abc,CONNECTED,s,l,r,1194"), PollOutcome::Stale);
    assert_eq!(interpret_response("123,CONNECTED,s,l,r,99999"), PollOutcome::Stale);
    assert_eq!(interpret_response("123,CONNECTED,s,l,r,"), PollOutcome::Stale);
}

// ---- service contract ----

#[test]
fn command_lines_follow_home_directory() {
    let home = "C:/Users/u";
    assert_eq!(protocol_dir(home, &Protocol::OpenVPN), "C:/Users/u/.octovpn/openvpn");
    assert_eq!(
        executable_path(home, &Protocol::OpenVPN),
        "C:/Users/u/.octovpn/openvpn/openvpnserv2.exe"
    );
    assert_eq!(
        command_line(home, &Protocol::OpenVPN),
        "C:/Users/u/.octovpn/openvpn/openvpnserv2.exe"
    );
    assert_eq!(
        command_line(home, &Protocol::WireGuard),
        "C:/Users/u/.octovpn/wireguard/wireguard.exe /service C:/Users/u/.octovpn/wireguard/wireguard.conf"
    );
    assert_eq!(display_name(&Protocol::OpenVPN), "OctoVPN Service (OpenVPN)");
    assert_eq!(display_name(&Protocol::WireGuard), "OctoVPN Service (WireGuard)");
    assert_eq!(config_path(home, &Protocol::OpenVPN), "C:/Users/u/.octovpn/openvpn/config.ovpn");
    assert_eq!(
        config_path(home, &Protocol::WireGuard),
        "C:/Users/u/.octovpn/wireguard/wireguard.conf"
    );
    assert_eq!(log_dir(home), "C:/Users/u/.octovpn/openvpn/logs");
}

#[test]
fn registry_contract_values() {
    assert_eq!(registry_namespace(), "Software\\OctoVPN");
    let values = registry_values("C:/Users/u");
    let pairs: Vec<(&str, &str)> =
        values.iter().map(|v| (v.name.as_str(), v.value.as_str())).collect();
    assert_eq!(
        pairs,
        vec![
            ("autostart_config_dir", "C:/Users/u/.octovpn/openvpn"),
            ("exe_path", "C:/Users/u/.octovpn/openvpn/openvpn.exe"),
            ("config_ext", "ovpn"),
            ("log_append", "0"),
            ("log_dir", "C:/Users/u/.octovpn/openvpn/logs"),
            ("priority", "NORMAL_PRIORITY_CLASS"),
        ]
    );
}

#[test]
fn registry_writes_only_differing_values() {
    let desired = "x".to_string();
    assert!(!registry_write_needed(Some(&"x".to_string()), &desired));
    assert!(registry_write_needed(Some(&"y".to_string()), &desired));
    assert!(registry_write_needed(None, &desired));
}

#[test]
fn service_state_interpretation() {
    assert!(start_succeeded(ServiceState::Running));
    assert!(start_succeeded(ServiceState::StartPending));
    assert!(!start_succeeded(ServiceState::Stopped));
    assert!(stop_succeeded(ServiceState::Stopped));
    assert!(stop_succeeded(ServiceState::StopPending));
    assert!(!stop_succeeded(ServiceState::Running));
    assert!(!counts_as_started(true, ServiceState::Stopped));
    assert!(counts_as_started(true, ServiceState::Running));
    assert!(counts_as_started(false, ServiceState::Stopped));
    assert!(!needs_unrestricted_sid(&Protocol::OpenVPN));
    assert!(needs_unrestricted_sid(&Protocol::WireGuard));
}

// ---- text utilities ----

#[test]
fn decimal_parsing_bounds() {
    assert_eq!(parse_decimal("0", u64::MAX), Some(0));
    assert_eq!(parse_decimal("1194", u64::MAX), Some(1194));
    assert_eq!(parse_decimal("18446744073709551615", u64::MAX), Some(u64::MAX));
    assert_eq!(parse_decimal("18446744073709551616", u64::MAX), None);
    assert_eq!(parse_decimal("65535", 65535), Some(65535));
    assert_eq!(parse_decimal("65536", 65535), None);
    assert_eq!(parse_decimal("", u64::MAX), None);
    assert_eq!(parse_decimal("12a", u64::MAX), None);
    assert_eq!(parse_decimal("-1", u64::MAX), None);
}

#[test]
fn text_building_blocks() {
    assert_eq!(replace_str("aXbXc", "X", "--"), "a--b--c");
    assert_eq!(replace_str("route-method exe", "route-method exe", "# route-method exe"),
        "# route-method exe");
    assert_eq!(trim_str(" \t hi \n"), "hi");
    assert_eq!(split_char("a,b,,c", ','), vec!["a", "b", "", "c"]);
    assert_eq!(split_char("", ','), vec![""]);
    assert!(str_eq("same", "same"));
    assert!(!str_eq("same", "samE"));
}
