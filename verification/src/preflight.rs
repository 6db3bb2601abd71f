//! The preflight orchestrator, modeled against an environment.  Preflight
//! runs the integrity provisioner, then (for the protocol whose daemon reads
//! the key-value store) the registry configurator, then the service
//! resolution, short-circuiting on the first failure.  It is re-run on every
//! operation rather than cached; this module states what each run returns as
//! a function of the environment, and proves that a run's own side effects
//! (downloaded files, an installed service) leave a second run with the same
//! result.
use crate::manifest::manifest_spec;
use crate::provision::{entry_next_spec, EntryEventV, EntryStep};
use crate::types::{PreflightError, Protocol};
use vstd::prelude::*;

verus! {

/// Model of the environment the integrity provisioner acts in: what the
/// manifest endpoint returns, the content digest of each present local file,
/// the digest of the content the download endpoint serves for each
/// downloadable name, and whether the required directories could be created.
pub struct FileEnv {
    pub manifest: Option<Seq<char>>,
    pub local: Map<Seq<char>, Seq<char>>,
    pub download: Map<Seq<char>, Seq<char>>,
    pub dirs_ok: bool,
}

/// The observation the modeled environment reports for one step of checking
/// the file `name`.
pub open spec fn env_event(env: FileEnv, s: EntryStep, name: Seq<char>) -> EntryEventV {
    match s {
        EntryStep::Probe => if env.local.contains_key(name) {
            EntryEventV::Present
        } else {
            EntryEventV::Absent
        },
        EntryStep::Hash { .. } => EntryEventV::Digest(env.local[name]),
        EntryStep::Fetch { .. } => if env.download.contains_key(name) {
            EntryEventV::FetchOk
        } else {
            EntryEventV::FetchFailed
        },
        _ => EntryEventV::Present,
    }
}

/// The environment after the observation: a completed download overwrites
/// the local file with the served content.
pub open spec fn env_after_event(env: FileEnv, s: EntryStep, name: Seq<char>) -> FileEnv {
    match s {
        EntryStep::Fetch { .. } => if env.download.contains_key(name) {
            FileEnv {
                manifest: env.manifest,
                local: env.local.insert(name, env.download[name]),
                download: env.download,
                dirs_ok: env.dirs_ok,
            }
        } else {
            env
        },
        _ => env,
    }
}

/// The per-file integrity machine driven to completion against the modeled
/// environment.
pub open spec fn run_entry(env: FileEnv, s: EntryStep, hash: Seq<char>, name: Seq<char>, fuel: nat) -> (
    FileEnv,
    EntryStep,
)
    decreases fuel,
{
    if fuel == 0 || s is Accepted || s is Failed {
        (env, s)
    } else {
        let ev = env_event(env, s, name);
        let env2 = env_after_event(env, s, name);
        run_entry(env2, entry_next_spec(s, ev, hash), hash, name, (fuel - 1) as nat)
    }
}

/// Checking one manifest entry: the machine from its initial step, with fuel
/// enough for its longest path.
pub open spec fn check_entry(env: FileEnv, hash: Seq<char>, name: Seq<char>) -> (FileEnv, EntryStep) {
    run_entry(env, EntryStep::Probe, hash, name, 8)
}

/// What checking one entry returns, in closed form: accepted if the local
/// file already matches, or a download is available whose content matches;
/// otherwise the failure the machine reaches.
pub open spec fn entry_outcome(env: FileEnv, hash: Seq<char>, name: Seq<char>) -> EntryStep {
    if env.local.contains_key(name) && env.local[name] == hash {
        EntryStep::Accepted
    } else if env.download.contains_key(name) {
        if env.download[name] == hash {
            EntryStep::Accepted
        } else {
            EntryStep::Failed { error: PreflightError::InvalidHash }
        }
    } else {
        EntryStep::Failed { error: PreflightError::FilesMissing }
    }
}

/// The environment after checking one entry, in closed form.
pub open spec fn entry_env_after(env: FileEnv, hash: Seq<char>, name: Seq<char>) -> FileEnv {
    if env.local.contains_key(name) && env.local[name] == hash {
        env
    } else if env.download.contains_key(name) {
        FileEnv {
            manifest: env.manifest,
            local: env.local.insert(name, env.download[name]),
            download: env.download,
            dirs_ok: env.dirs_ok,
        }
    } else {
        env
    }
}

/// The integrity machine, driven against the modeled environment, reaches
/// exactly the closed-form outcome and leaves the closed-form environment.
pub proof fn lemma_check_entry_characterized(env: FileEnv, hash: Seq<char>, name: Seq<char>)
    ensures
        check_entry(env, hash, name).1 == entry_outcome(env, hash, name),
        check_entry(env, hash, name).0 == entry_env_after(env, hash, name),
{
    reveal_with_fuel(run_entry, 9);
    if !(env.local.contains_key(name) && env.local[name] == hash) && env.download.contains_key(
        name,
    ) {
        let d = env.download[name];
        assert(env.local.insert(name, d).insert(name, d) =~= env.local.insert(name, d));
    }
}

/// Checking all entries in order, short-circuiting on the first failure.
pub open spec fn provision_entries(env: FileEnv, entries: Seq<(Seq<char>, Seq<char>)>) -> (
    FileEnv,
    Result<(), PreflightError>,
)
    decreases entries.len(),
{
    if entries.len() == 0 {
        (env, Ok(()))
    } else {
        let env2 = entry_env_after(env, entries[0].0, entries[0].1);
        match entry_outcome(env, entries[0].0, entries[0].1) {
            EntryStep::Failed { error } => (env2, Err(error)),
            _ => provision_entries(env2, entries.skip(1)),
        }
    }
}

/// One whole provisioning run: directories, manifest fetch and parse, then
/// every entry.
pub open spec fn provision_full(env: FileEnv) -> (FileEnv, Result<(), PreflightError>) {
    if !env.dirs_ok {
        (env, Err(PreflightError::FilesMissing))
    } else {
        match env.manifest {
            None => (env, Err(PreflightError::InvalidHash)),
            Some(text) => match manifest_spec(text) {
                None => (env, Err(PreflightError::InvalidHash)),
                Some(entries) => provision_entries(env, entries),
            },
        }
    }
}

/// Model of the key-value store configurator: it fails only when the
/// namespace key can neither be opened nor created.
pub struct RegistryEnv {
    pub key_ok: bool,
}

pub open spec fn registry_result(e: RegistryEnv) -> Result<(), PreflightError> {
    if e.key_ok {
        Ok(())
    } else {
        Err(PreflightError::ServiceNotInstalled)
    }
}

/// Model of service resolution: the manager must open, the service must
/// exist or install, and its configuration must be writable.
pub struct ServiceEnv {
    pub manager_ok: bool,
    pub installed: bool,
    pub install_ok: bool,
    pub config_ok: bool,
}

pub open spec fn resolve_result(e: ServiceEnv) -> Result<(), PreflightError> {
    if !e.manager_ok {
        Err(PreflightError::ServiceNotInstalled)
    } else if !(e.installed || e.install_ok) {
        Err(PreflightError::ServiceNotInstalled)
    } else if !e.config_ok {
        Err(PreflightError::ServiceNotInstalled)
    } else {
        Ok(())
    }
}

/// A resolution that installed the service leaves it installed.
pub open spec fn service_env_after(e: ServiceEnv) -> ServiceEnv {
    ServiceEnv {
        manager_ok: e.manager_ok,
        installed: e.installed || (e.manager_ok && e.install_ok),
        install_ok: e.install_ok,
        config_ok: e.config_ok,
    }
}

/// The whole environment one preflight run acts in.
pub struct PreflightEnv {
    pub files: FileEnv,
    pub registry: RegistryEnv,
    pub service: ServiceEnv,
}

/// What one preflight run returns: provisioning, then the registry contract
/// where the protocol requires it, then service resolution.
pub open spec fn preflight_result(env: PreflightEnv, p: Protocol) -> Result<(), PreflightError> {
    match provision_full(env.files).1 {
        Err(e) => Err(e),
        Ok(_) => if p is OpenVPN && registry_result(env.registry) is Err {
            Err(PreflightError::ServiceNotInstalled)
        } else {
            resolve_result(env.service)
        },
    }
}

/// The environment after one preflight run: downloaded files stay; the
/// service stays installed if resolution was reached and installed it.
pub open spec fn preflight_env_after(env: PreflightEnv, p: Protocol) -> PreflightEnv {
    let files2 = provision_full(env.files).0;
    let reached_resolution = provision_full(env.files).1 is Ok && (p is OpenVPN
        ==> registry_result(env.registry) is Ok);
    PreflightEnv {
        files: files2,
        registry: env.registry,
        service: if reached_resolution {
            service_env_after(env.service)
        } else {
            env.service
        },
    }
}

/// Whether the manifest entries name each file at most once.
pub open spec fn distinct_names(entries: Seq<(Seq<char>, Seq<char>)>) -> bool {
    forall|i: int, j: int|
        0 <= i < j < entries.len() ==> (#[trigger] entries[i]).1 != (#[trigger] entries[j]).1
}

/// Whether the environment's manifest, if it parses, names each file at most
/// once.
pub open spec fn files_distinct(env: FileEnv) -> bool {
    match env.manifest {
        Some(t) => match manifest_spec(t) {
            Some(es) => distinct_names(es),
            None => true,
        },
        None => true,
    }
}

proof fn lemma_entry_frame(env: FileEnv, hash: Seq<char>, name: Seq<char>)
    ensures
        entry_env_after(env, hash, name).manifest == env.manifest,
        entry_env_after(env, hash, name).download == env.download,
        entry_env_after(env, hash, name).dirs_ok == env.dirs_ok,
        forall|k: Seq<char>|
            k != name ==> entry_env_after(env, hash, name).local.contains_key(k)
                == env.local.contains_key(k),
        forall|k: Seq<char>|
            k != name && env.local.contains_key(k) ==> entry_env_after(
                env,
                hash,
                name,
            ).local[k] == env.local[k],
{
}

/// After checking an entry, checking it again in the environment it left
/// gives the same outcome, and changes nothing further.
proof fn lemma_entry_idempotent(env: FileEnv, hash: Seq<char>, name: Seq<char>)
    ensures
        entry_outcome(entry_env_after(env, hash, name), hash, name) == entry_outcome(
            env,
            hash,
            name,
        ),
        entry_env_after(entry_env_after(env, hash, name), hash, name) == entry_env_after(
            env,
            hash,
            name,
        ),
{
    let e2 = entry_env_after(env, hash, name);
    if !(env.local.contains_key(name) && env.local[name] == hash) && env.download.contains_key(
        name,
    ) {
        assert(e2.local[name] == env.download[name]);
        if env.download[name] == hash {
        } else {
            assert(entry_env_after(e2, hash, name).local =~= e2.local);
        }
    }
}

/// Two environments that agree on every slot an entry reads give that entry
/// the same outcome.
proof fn lemma_entry_agree(e1: FileEnv, e2: FileEnv, hash: Seq<char>, name: Seq<char>)
    requires
        e1.local.contains_key(name) == e2.local.contains_key(name),
        e1.local.contains_key(name) ==> e1.local[name] == e2.local[name],
        e1.download.contains_key(name) == e2.download.contains_key(name),
        e1.download.contains_key(name) ==> e1.download[name] == e2.download[name],
    ensures
        entry_outcome(e1, hash, name) == entry_outcome(e2, hash, name),
{
}

proof fn lemma_provision_frame(env: FileEnv, entries: Seq<(Seq<char>, Seq<char>)>, k: Seq<char>)
    requires
        forall|i: int| 0 <= i < entries.len() ==> (#[trigger] entries[i]).1 != k,
    ensures
        provision_entries(env, entries).0.manifest == env.manifest,
        provision_entries(env, entries).0.download == env.download,
        provision_entries(env, entries).0.dirs_ok == env.dirs_ok,
        provision_entries(env, entries).0.local.contains_key(k) == env.local.contains_key(k),
        env.local.contains_key(k) ==> provision_entries(env, entries).0.local[k] == env.local[k],
    decreases entries.len(),
{
    if entries.len() > 0 {
        let env2 = entry_env_after(env, entries[0].0, entries[0].1);
        lemma_entry_frame(env, entries[0].0, entries[0].1);
        match entry_outcome(env, entries[0].0, entries[0].1) {
            EntryStep::Failed { error } => {},
            _ => {
                assert(forall|i: int|
                    0 <= i < entries.skip(1).len() ==> (#[trigger] entries.skip(1)[i]).1
                        != k) by {
                    assert(forall|i: int|
                        0 <= i < entries.skip(1).len() ==> entries.skip(1)[i] == entries[i + 1]);
                }
                lemma_provision_frame(env2, entries.skip(1), k);
            },
        }
    }
}

/// Re-running the entry checks in the environment the first run left gives
/// the same result, provided each file is named at most once.
proof fn lemma_provision_entries_idempotent(env: FileEnv, entries: Seq<(Seq<char>, Seq<char>)>)
    requires
        distinct_names(entries),
    ensures
        provision_entries(provision_entries(env, entries).0, entries).1 == provision_entries(
            env,
            entries,
        ).1,
    decreases entries.len(),
{
    if entries.len() > 0 {
        let hash = entries[0].0;
        let name = entries[0].1;
        let env2 = entry_env_after(env, hash, name);
        lemma_entry_idempotent(env, hash, name);
        match entry_outcome(env, hash, name) {
            EntryStep::Failed { error } => {
                // the run stopped here; the second run stops here too
            },
            _ => {
                let rest = entries.skip(1);
                assert(distinct_names(rest)) by {
                    assert(forall|i: int| 0 <= i < rest.len() ==> rest[i] == entries[i + 1]);
                }
                assert(forall|i: int| 0 <= i < rest.len() ==> (#[trigger] rest[i]).1 != name) by {
                    assert(forall|i: int| 0 <= i < rest.len() ==> rest[i] == entries[i + 1]);
                }
                let env_n = provision_entries(env2, rest).0;
                lemma_provision_entries_idempotent(env2, rest);
                // the later entries never touch this entry's file
                lemma_provision_frame(env2, rest, name);
                lemma_entry_agree(env_n, env2, hash, name);
                assert(entry_outcome(env_n, hash, name) == entry_outcome(env, hash, name));
                // and re-checking this entry never touches the later
                // entries' files
                let env_n2 = entry_env_after(env_n, hash, name);
                lemma_entry_frame(env_n, hash, name);
                lemma_provision_entries_agree(env_n2, provision_entries(env2, rest).0, rest);
            },
        }
    }
}

/// Two environments that agree on every slot the entries read give the same
/// run result.
proof fn lemma_provision_entries_agree(
    e1: FileEnv,
    e2: FileEnv,
    entries: Seq<(Seq<char>, Seq<char>)>,
)
    requires
        forall|i: int|
            0 <= i < entries.len() ==> {
                let name = (#[trigger] entries[i]).1;
                e1.local.contains_key(name) == e2.local.contains_key(name) && (
                e1.local.contains_key(name) ==> e1.local[name] == e2.local[name])
                    && e1.download.contains_key(name) == e2.download.contains_key(name) && (
                e1.download.contains_key(name) ==> e1.download[name] == e2.download[name])
            },
    ensures
        provision_entries(e1, entries).1 == provision_entries(e2, entries).1,
    decreases entries.len(),
{
    if entries.len() > 0 {
        let hash = entries[0].0;
        let name = entries[0].1;
        lemma_entry_agree(e1, e2, hash, name);
        match entry_outcome(e1, hash, name) {
            EntryStep::Failed { error } => {},
            _ => {
                let rest = entries.skip(1);
                assert(forall|i: int| 0 <= i < rest.len() ==> rest[i] == entries[i + 1]);
                lemma_entry_frame(e1, hash, name);
                lemma_entry_frame(e2, hash, name);
                let n1 = entry_env_after(e1, hash, name);
                let n2 = entry_env_after(e2, hash, name);
                assert(forall|i: int|
                    0 <= i < rest.len() ==> {
                        let nm = (#[trigger] rest[i]).1;
                        n1.local.contains_key(nm) == n2.local.contains_key(nm) && (
                        n1.local.contains_key(nm) ==> n1.local[nm] == n2.local[nm])
                            && n1.download.contains_key(nm) == n2.download.contains_key(nm) && (
                        n1.download.contains_key(nm) ==> n1.download[nm] == n2.download[nm])
                    }) by {
                    assert forall|i: int| 0 <= i < rest.len() implies {
                        let nm = (#[trigger] rest[i]).1;
                        n1.local.contains_key(nm) == n2.local.contains_key(nm) && (
                        n1.local.contains_key(nm) ==> n1.local[nm] == n2.local[nm])
                            && n1.download.contains_key(nm) == n2.download.contains_key(nm) && (
                        n1.download.contains_key(nm) ==> n1.download[nm] == n2.download[nm])
                    } by {
                        let nm = rest[i].1;
                        if nm == name {
                            lemma_entry_agree(e1, e2, hash, name);
                            assert(n1.local.contains_key(nm) == n2.local.contains_key(nm));
                            if n1.local.contains_key(nm) {
                                assert(n1.local[nm] == n2.local[nm]);
                            }
                        }
                    }
                }
                lemma_provision_entries_agree(n1, n2, rest);
            },
        }
    }
}

/// A second whole provisioning run in the environment the first left gives
/// the same result, provided the manifest names each file at most once.
pub proof fn lemma_provision_idempotent(env: FileEnv)
    requires
        files_distinct(env),
    ensures
        provision_full(provision_full(env).0).1 == provision_full(env).1,
{
    if env.dirs_ok {
        match env.manifest {
            None => {},
            Some(text) => {
                match manifest_spec(text) {
                    None => {},
                    Some(entries) => {
                        lemma_provision_manifest_preserved(env, entries);
                        lemma_provision_entries_idempotent(env, entries);
                    },
                }
            },
        }
    }
}

proof fn lemma_provision_manifest_preserved(env: FileEnv, entries: Seq<(Seq<char>, Seq<char>)>)
    ensures
        provision_entries(env, entries).0.manifest == env.manifest,
        provision_entries(env, entries).0.download == env.download,
        provision_entries(env, entries).0.dirs_ok == env.dirs_ok,
    decreases entries.len(),
{
    if entries.len() > 0 {
        lemma_entry_frame(env, entries[0].0, entries[0].1);
        match entry_outcome(env, entries[0].0, entries[0].1) {
            EntryStep::Failed { error } => {},
            _ => {
                lemma_provision_manifest_preserved(
                    entry_env_after(env, entries[0].0, entries[0].1),
                    entries.skip(1),
                );
            },
        }
    }
}

/// Preflight is idempotent: with no external changes, a second run in the
/// environment the first run left — downloaded files present, the service
/// installed — returns the same result, provided the manifest names each
/// file at most once.
pub proof fn lemma_preflight_idempotent(env: PreflightEnv, p: Protocol)
    requires
        files_distinct(env.files),
    ensures
        preflight_result(preflight_env_after(env, p), p) == preflight_result(env, p),
{
    lemma_provision_manifest_preserved_full(env.files);
    lemma_provision_idempotent(env.files);
}

proof fn lemma_provision_manifest_preserved_full(env: FileEnv)
    ensures
        provision_full(env).0.manifest == env.manifest,
        provision_full(env).0.download == env.download,
        provision_full(env).0.dirs_ok == env.dirs_ok,
{
    if env.dirs_ok {
        match env.manifest {
            None => {},
            Some(text) => match manifest_spec(text) {
                None => {},
                Some(entries) => {
                    lemma_provision_manifest_preserved(env, entries);
                },
            },
        }
    }
}

} // verus!
