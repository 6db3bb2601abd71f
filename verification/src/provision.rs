//! Per-file integrity provisioning.  For each manifest entry the environment
//! is asked, step by step, whether the file exists, what its content digest
//! is, and to download it; this module decides every next step.  A file that
//! is absent is downloaded; a file whose digest does not match the published
//! hash is re-downloaded exactly once and then re-validated.  A failed
//! download is `FilesMissing`; a digest that still mismatches after the
//! re-download is `InvalidHash`, as is a malformed manifest.
use crate::text::str_eq;
use crate::types::PreflightError;
use vstd::prelude::*;

verus! {

/// The hex digest that the checksum library computes for these bytes.
pub uninterp spec fn sha256_hex_of(data: Seq<u8>) -> Seq<char>;

/// Relies on sha256::digest: the lowercase hex digest of the input bytes, a
/// function of the input alone.
#[verifier::external_body]
fn sha256_hex(data: &Vec<u8>) -> (r: String)
    ensures
        r@ == sha256_hex_of(data@),
{
    sha256::digest(data.as_slice())
}

/// The protocol-scoped endpoint that serves the manifest of published hashes.
pub open spec fn spec_manifest_url(p: crate::types::Protocol) -> Seq<char> {
    "https://vpn.zephs.tech/"@ + (if p is OpenVPN {
        "openvpn"@
    } else {
        "wireguard"@
    }) + "/hashes"@
}

/// Build the manifest endpoint's URL for `protocol`.
pub fn manifest_url(protocol: &crate::types::Protocol) -> (r: String)
    ensures
        r@ == spec_manifest_url(*protocol),
{
    let mut out = String::from_str("https://vpn.zephs.tech/");
    out.append(protocol.subdirectory());
    out.append("/hashes");
    proof {
        assert(out@ =~= spec_manifest_url(*protocol));
    }
    out
}

/// The protocol-scoped endpoint that serves one named file.
pub open spec fn spec_download_url(p: crate::types::Protocol, name: Seq<char>) -> Seq<char> {
    "https://vpn.zephs.tech/"@ + (if p is OpenVPN {
        "openvpn"@
    } else {
        "wireguard"@
    }) + "/"@ + name
}

/// Build the download URL of the file `name` for `protocol`.
pub fn download_url(protocol: &crate::types::Protocol, name: &str) -> (r: String)
    ensures
        r@ == spec_download_url(*protocol, name@),
{
    let mut out = String::from_str("https://vpn.zephs.tech/");
    out.append(protocol.subdirectory());
    out.append("/");
    out.append(name);
    proof {
        assert(out@ =~= spec_download_url(*protocol, name@));
    }
    out
}

/// A manifest that cannot be fetched at all is handled as a malformed one.
pub fn manifest_fetch_failure() -> (e: PreflightError)
    ensures
        e is InvalidHash,
{
    PreflightError::InvalidHash
}

/// Why a download was ordered.
#[derive(Debug, Clone, Copy, PartialEq, Eq, Structural)]
pub enum FetchReason {
    Missing,
    Mismatch,
}

/// Where the integrity check of one file stands; the non-terminal steps name
/// what the environment is asked next.
#[derive(Debug, Clone, Copy, PartialEq, Eq, Structural)]
pub enum EntryStep {
    /// Ask whether the file exists locally.
    Probe,
    /// Ask for the digest of the local file's content.
    Hash { refetched: bool },
    /// Ask to download the file and overwrite the local copy.
    Fetch { reason: FetchReason },
    /// The local file matches the manifest.
    Accepted,
    /// Provisioning of this file failed.
    Failed { error: PreflightError },
}

/// What the environment reported back.
#[derive(Debug, Clone, PartialEq, Eq)]
pub enum EntryEvent {
    Present,
    Absent,
    FetchOk,
    FetchFailed,
    Digest(String),
}

/// Spec-level image of an `EntryEvent`.
pub enum EntryEventV {
    Present,
    Absent,
    FetchOk,
    FetchFailed,
    Digest(Seq<char>),
}

impl View for EntryEvent {
    type V = EntryEventV;

    open spec fn view(&self) -> EntryEventV {
        match self {
            EntryEvent::Present => EntryEventV::Present,
            EntryEvent::Absent => EntryEventV::Absent,
            EntryEvent::FetchOk => EntryEventV::FetchOk,
            EntryEvent::FetchFailed => EntryEventV::FetchFailed,
            EntryEvent::Digest(d) => EntryEventV::Digest(d@),
        }
    }
}

/// The transition table of the per-file integrity check.  An event that does
/// not fit the current step leaves it unchanged; terminal steps absorb every
/// event.
pub open spec fn entry_next_spec(s: EntryStep, ev: EntryEventV, expected: Seq<char>) -> EntryStep {
    match (s, ev) {
        (EntryStep::Probe, EntryEventV::Present) => EntryStep::Hash { refetched: false },
        (EntryStep::Probe, EntryEventV::Absent) => EntryStep::Fetch {
            reason: FetchReason::Missing,
        },
        (EntryStep::Fetch { reason }, EntryEventV::FetchOk) => EntryStep::Hash {
            refetched: reason is Mismatch,
        },
        (EntryStep::Fetch { reason: _ }, EntryEventV::FetchFailed) => EntryStep::Failed {
            error: PreflightError::FilesMissing,
        },
        (EntryStep::Hash { refetched }, EntryEventV::Digest(d)) => if d == expected {
            EntryStep::Accepted
        } else if !refetched {
            EntryStep::Fetch { reason: FetchReason::Mismatch }
        } else {
            EntryStep::Failed { error: PreflightError::InvalidHash }
        },
        (other, _) => other,
    }
}

/// Advance the integrity check of one file by one observation.
pub fn entry_next(s: &EntryStep, ev: &EntryEvent, expected: &str) -> (r: EntryStep)
    ensures
        r == entry_next_spec(*s, ev@, expected@),
{
    match (s, ev) {
        (EntryStep::Probe, EntryEvent::Present) => EntryStep::Hash { refetched: false },
        (EntryStep::Probe, EntryEvent::Absent) => EntryStep::Fetch {
            reason: FetchReason::Missing,
        },
        (EntryStep::Fetch { reason }, EntryEvent::FetchOk) => EntryStep::Hash {
            refetched: *reason == FetchReason::Mismatch,
        },
        (EntryStep::Fetch { reason: _ }, EntryEvent::FetchFailed) => EntryStep::Failed {
            error: PreflightError::FilesMissing,
        },
        (EntryStep::Hash { refetched }, EntryEvent::Digest(d)) => {
            if str_eq(d.as_str(), expected) {
                EntryStep::Accepted
            } else if !*refetched {
                EntryStep::Fetch { reason: FetchReason::Mismatch }
            } else {
                EntryStep::Failed { error: PreflightError::InvalidHash }
            }
        },
        (other, _) => *other,
    }
}

/// Digest the local file's content and advance the integrity check by the
/// resulting observation.
pub fn entry_observe_content(s: &EntryStep, content: &Vec<u8>, expected: &str) -> (r: EntryStep)
    ensures
        r == entry_next_spec(*s, EntryEventV::Digest(sha256_hex_of(content@)), expected@),
{
    let digest = sha256_hex(content);
    entry_next(s, &EntryEvent::Digest(digest), expected)
}

/// How many downloads ordered by a hash mismatch the run from `s` through
/// `evs` carries out.
pub open spec fn mismatch_downloads(s: EntryStep, evs: Seq<EntryEventV>, expected: Seq<char>) -> nat
    decreases evs.len(),
{
    if evs.len() == 0 {
        0
    } else {
        let here: nat = if s == (EntryStep::Fetch { reason: FetchReason::Mismatch }) && (evs[0]
            is FetchOk || evs[0] is FetchFailed) {
            1
        } else {
            0
        };
        (here + mismatch_downloads(entry_next_spec(s, evs[0], expected), evs.skip(1), expected))
            as nat
    }
}

/// A digest that does not match the manifest orders a re-download, and a
/// completed re-download is re-validated by a further digest check.
pub proof fn lemma_mismatch_redownloaded_then_revalidated(d: Seq<char>, expected: Seq<char>)
    requires
        d != expected,
    ensures
        entry_next_spec(EntryStep::Hash { refetched: false }, EntryEventV::Digest(d), expected)
            == (EntryStep::Fetch { reason: FetchReason::Mismatch }),
        entry_next_spec(
            EntryStep::Fetch { reason: FetchReason::Mismatch },
            EntryEventV::FetchOk,
            expected,
        ) == (EntryStep::Hash { refetched: true }),
{
}

proof fn lemma_no_mismatch_downloads_after(s: EntryStep, evs: Seq<EntryEventV>, expected: Seq<char>)
    requires
        s == (EntryStep::Hash { refetched: true }) || s is Accepted || s is Failed,
    ensures
        mismatch_downloads(s, evs, expected) == 0,
    decreases evs.len(),
{
    if evs.len() > 0 {
        let next = entry_next_spec(s, evs[0], expected);
        assert(next == (EntryStep::Hash { refetched: true }) || next is Accepted || next is Failed);
        lemma_no_mismatch_downloads_after(next, evs.skip(1), expected);
    }
}

proof fn lemma_one_mismatch_download_from_fetch(
    s: EntryStep,
    evs: Seq<EntryEventV>,
    expected: Seq<char>,
)
    requires
        s == (EntryStep::Fetch { reason: FetchReason::Mismatch }),
    ensures
        mismatch_downloads(s, evs, expected) <= 1,
    decreases evs.len(),
{
    if evs.len() > 0 {
        let next = entry_next_spec(s, evs[0], expected);
        if evs[0] is FetchOk || evs[0] is FetchFailed {
            lemma_no_mismatch_downloads_after(next, evs.skip(1), expected);
        } else {
            lemma_one_mismatch_download_from_fetch(next, evs.skip(1), expected);
        }
    }
}

proof fn lemma_mismatch_downloads_bound(s: EntryStep, evs: Seq<EntryEventV>, expected: Seq<char>)
    requires
        s is Probe || s == (EntryStep::Hash { refetched: false }) || s == (EntryStep::Fetch {
            reason: FetchReason::Missing,
        }),
    ensures
        mismatch_downloads(s, evs, expected) <= 1,
    decreases evs.len(),
{
    if evs.len() > 0 {
        let next = entry_next_spec(s, evs[0], expected);
        if next is Probe || next == (EntryStep::Hash { refetched: false }) || next
            == (EntryStep::Fetch { reason: FetchReason::Missing }) {
            lemma_mismatch_downloads_bound(next, evs.skip(1), expected);
        } else if next == (EntryStep::Fetch { reason: FetchReason::Mismatch }) {
            lemma_one_mismatch_download_from_fetch(next, evs.skip(1), expected);
        } else {
            lemma_no_mismatch_downloads_after(next, evs.skip(1), expected);
        }
    }
}

/// Over any whole run of the integrity check of one file, at most one
/// download is ordered by a hash mismatch: a file is never re-downloaded
/// twice within one provisioning pass.
pub proof fn lemma_mismatch_downloaded_at_most_once(evs: Seq<EntryEventV>, expected: Seq<char>)
    ensures
        mismatch_downloads(EntryStep::Probe, evs, expected) <= 1,
{
    lemma_mismatch_downloads_bound(EntryStep::Probe, evs, expected);
}

} // verus!
