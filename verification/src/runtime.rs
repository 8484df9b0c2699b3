//! The runtime around the speech worker: where its files are looked for,
//! which interpreter runs it, the health report shown at start-up, and the
//! rules that guard the temporary root.
use vstd::prelude::*;
use vstd::string::StringExecFns;
use crate::text::{is_blank, spec_trim, trim};

verus! {

/// Where the default model is looked for, relative to the workspace root.
pub const MODEL_CANDIDATE: &'static str = "python-backend/models/faster-whisper-small";

/// Name of the application's directory in the system's temporary directory.
pub const TEMP_DIR_NAME: &'static str = "local-voice";

/// Name of the settings file in the application's configuration directory.
pub const SETTINGS_FILE: &'static str = "settings.json";

/// Name of the probe file written to test the temporary root.
pub const WRITE_PROBE_FILE: &'static str = ".write-test";

/// Interpreters of the worker's own environment, relative to the workspace
/// root, in the order they are tried.
pub open spec fn spec_venv_candidates() -> Seq<Seq<char>> {
    seq![
        "python-backend/.venv/bin/python3"@,
        "python-backend/.venv/bin/python"@,
        "python-backend/.venv/Scripts/python.exe"@,
    ]
}

/// Interpreters of the worker's own environment, relative to the workspace
/// root, in the order they are tried.
pub fn venv_candidates() -> (r: Vec<&'static str>)
    ensures
        r@.len() == spec_venv_candidates().len(),
        forall|i: int| 0 <= i < r@.len() ==> (#[trigger] r@[i])@ == spec_venv_candidates()[i],
{
    vec![
        "python-backend/.venv/bin/python3",
        "python-backend/.venv/bin/python",
        "python-backend/.venv/Scripts/python.exe",
    ]
}

/// The position of the first present path, if any.
pub open spec fn first_true(present: Seq<bool>) -> Option<int>
    decreases present.len(),
{
    if present.len() == 0 {
        None
    } else if present.last() {
        match first_true(present.drop_last()) {
            Some(i) => Some(i),
            None => Some(present.len() - 1),
        }
    } else {
        first_true(present.drop_last())
    }
}

proof fn lemma_first_true_extend(present: Seq<bool>, k: int)
    requires
        0 <= k < present.len(),
    ensures
        first_true(present.subrange(0, k + 1)) == match first_true(present.subrange(0, k)) {
            Some(i) => Some(i),
            None => if present[k] {
                Some(k)
            } else {
                None
            },
        },
{
    assert(present.subrange(0, k + 1).drop_last() =~= present.subrange(0, k));
}

/// The first of `paths` that is present (`present[i]` tells whether
/// `paths[i]` names an existing file).
pub fn first_present(paths: &Vec<String>, present: &Vec<bool>) -> (r: Option<String>)
    requires
        paths@.len() == present@.len(),
    ensures
        match first_true(present@) {
            Some(i) => r matches Some(p) && p@ == paths@[i]@,
            None => r is None,
        },
{
    let n = paths.len();
    let mut k: usize = 0;
    while k < n
        invariant
            n == paths@.len(),
            n == present@.len(),
            k <= n,
            first_true(present@.subrange(0, k as int)) is None,
        decreases n - k,
    {
        proof {
            lemma_first_true_extend(present@, k as int);
        }
        if present[k] {
            proof {
                lemma_first_true_prefix(present@, k as int + 1);
            }
            return Some(paths[k].clone());
        }
        k = k + 1;
    }
    assert(present@.subrange(0, n as int) =~= present@);
    None
}

/// The first present position of a sequence is the one found in a prefix
/// that holds a present position.
proof fn lemma_first_true_prefix(present: Seq<bool>, k: int)
    requires
        0 <= k <= present.len(),
        first_true(present.subrange(0, k)) is Some,
    ensures
        first_true(present) == first_true(present.subrange(0, k)),
    decreases present.len() - k,
{
    if k < present.len() {
        lemma_first_true_extend(present, k);
        lemma_first_true_prefix(present, k + 1);
    } else {
        assert(present.subrange(0, k) =~= present);
    }
}

/// Chooses the interpreter that runs the worker: the first interpreter of
/// the worker's own environment that exists (`venv_paths[i]` joined onto the
/// workspace root, `venv_present[i]` whether it is a file), else `python3` on
/// the search path, else `python` on the search path.
pub fn resolve_python_command(
    venv_paths: &Vec<String>,
    venv_present: &Vec<bool>,
    python3_on_path: Option<String>,
    python_on_path: Option<String>,
) -> (r: Option<String>)
    requires
        venv_paths@.len() == venv_present@.len(),
    ensures
        match first_true(venv_present@) {
            Some(i) => r matches Some(p) && p@ == venv_paths@[i]@,
            None => r == match python3_on_path {
                Some(p) => Some(p),
                None => python_on_path,
            },
        },
{
    match first_present(venv_paths, venv_present) {
        Some(p) => Some(p),
        None => match python3_on_path {
            Some(p) => Some(p),
            None => python_on_path,
        },
    }
}

/// File names under which an executable is looked for in a directory of the
/// search path: with `.exe` first on Windows.
pub fn executable_names(executable: &str, windows: bool) -> (r: Vec<String>)
    ensures
        r@.len() == if windows {
            2nat
        } else {
            1nat
        },
        windows ==> r@[0]@ == executable@ + ".exe"@ && r@[1]@ == executable@,
        !windows ==> r@[0]@ == executable@,
{
    let mut v: Vec<String> = Vec::new();
    if windows {
        let mut e = String::from_str(executable);
        e.append(".exe");
        v.push(e);
    }
    v.push(String::from_str(executable));
    v
}

/// The position of the last `/` in `p`, or -1 when there is none.
pub open spec fn last_slash(p: Seq<char>) -> int
    decreases p.len(),
{
    if p.len() == 0 {
        -1
    } else if p.last() == '/' {
        p.len() - 1
    } else {
        last_slash(p.drop_last())
    }
}

/// A path that every platform splits the same way at its `/` separators: not
/// empty, not ending with `/`, without `\\` or the drive marker `:`, without
/// `//`, and without a `.` component after a separator (`/./` or a trailing
/// `/.`), which would be dropped when the path is split. Other names that
/// start with a dot, such as `.cache` or `..`, are ordinary components.
pub open spec fn plain_path(p: Seq<char>) -> bool {
    &&& p.len() >= 1
    &&& p.last() != '/'
    &&& !p.contains('\\')
    &&& !p.contains(':')
    &&& forall|i: int|
        0 <= i < p.len() - 1 && #[trigger] p[i] == '/' ==> p[i + 1] != '/' && !(p[i + 1] == '.'
            && (i + 2 == p.len() || p[i + 2] == '/'))
}

/// The parent of a plain path: the text before its last `/`, `/` when that
/// is the first character, and the empty path when there is no `/`.
pub open spec fn plain_parent(p: Seq<char>) -> Seq<char> {
    let k = last_slash(p);
    if k < 0 {
        Seq::empty()
    } else if k == 0 {
        seq!['/']
    } else {
        p.subrange(0, k)
    }
}

/// Calls `Path::parent` and hands the parent back as text. The contract
/// states what the documentation gives for every platform: the empty path
/// has no parent; a plain path (see `plain_path`) has the path without its
/// last component as parent: the text before the last `/`, or `/` for an
/// absolute path of one component, or the empty path for a relative path of
/// one component. Paths with other syntax (drives, network shares, `\\`
/// separators, `.` components after a separator, doubled or trailing
/// separators) are read differently by different platforms, and what the
/// call gives for them is left unsaid.
#[verifier::external_body]
fn path_parent(p: &str) -> (r: Option<String>)
    ensures
        p@.len() == 0 ==> r is None,
        plain_path(p@) ==> r is Some,
        plain_path(p@) ==> r.unwrap()@ == plain_parent(p@),
{
    match std::path::Path::new(p).parent() {
        Some(q) => Some(q.to_string_lossy().into_owned()),
        None => None,
    }
}

/// The workspace root: the parent of the shell's manifest directory, `None`
/// when it has none. A plain directory has the path without its last
/// component as parent (the empty path, the current directory, for one
/// relative component).
pub fn workspace_root(manifest_dir: &str) -> (r: Option<String>)
    ensures
        manifest_dir@.len() == 0 ==> r is None,
        plain_path(manifest_dir@) ==> (r matches Some(q) && q@ == plain_parent(manifest_dir@)),
{
    path_parent(manifest_dir)
}

/// The default model path: the bundled model when it exists, else empty.
pub fn default_model_path(candidate: String, candidate_exists: bool) -> (r: String)
    ensures
        r@ == if candidate_exists {
            candidate@
        } else {
            Seq::<char>::empty()
        },
{
    if candidate_exists {
        candidate
    } else {
        String::new()
    }
}

/// The transcript to show at start-up during development: the value of the
/// development variable, trimmed, when it is not blank.
pub fn dev_seed_transcript(env_value: Option<&str>) -> (r: Option<String>)
    ensures
        match env_value {
            Some(v) => if is_blank(v@) {
                r is None
            } else {
                r matches Some(t) && t@ == spec_trim(v@)
            },
            None => r is None,
        },
{
    match env_value {
        Some(v) => {
            let t = trim(v);
            if t.as_str().is_empty() {
                None
            } else {
                Some(t)
            }
        },
        None => None,
    }
}

/// Error when the temporary root is a symbolic link.
pub const TEMP_ROOT_SYMLINK: &'static str = "Temp root cannot be a symlink.";

/// Prefix of the error when the temporary root cannot be inspected.
pub const TEMP_ROOT_INSPECT_FAILED_PREFIX: &'static str = "Unable to inspect temp root: ";

/// Judges an existing temporary root before it is created or used:
/// `existing` is `None` when nothing is there, else whether it is a symbolic
/// link, or why that could not be told. A symbolic link is refused.
pub fn check_temp_root(existing: Option<Result<bool, String>>) -> (r: Result<(), String>)
    ensures
        match existing {
            None => r is Ok,
            Some(Ok(is_link)) => if is_link {
                r matches Err(m) && m@ == TEMP_ROOT_SYMLINK@
            } else {
                r is Ok
            },
            Some(Err(e)) => r matches Err(m) && m@ == TEMP_ROOT_INSPECT_FAILED_PREFIX@ + e@,
        },
{
    match existing {
        None => Ok(()),
        Some(Ok(is_link)) => if is_link {
            Err(String::from_str(TEMP_ROOT_SYMLINK))
        } else {
            Ok(())
        },
        Some(Err(e)) => {
            let mut m = String::from_str(TEMP_ROOT_INSPECT_FAILED_PREFIX);
            m.append(e.as_str());
            Err(m)
        },
    }
}

/// Error when a job directory is a symbolic link.
pub const JOB_SYMLINK: &'static str = "Refusing to delete symlinked job artifacts.";

/// Error when a job directory resolves outside the temporary root.
pub const JOB_OUTSIDE_ROOT: &'static str = "Refusing to delete outside the app temp root.";

/// Prefix of the error when a job directory cannot be inspected.
pub const JOB_INSPECT_FAILED_PREFIX: &'static str = "Unable to inspect job directory: ";

/// Prefix of the error when a job directory cannot be resolved.
pub const JOB_RESOLVE_FAILED_PREFIX: &'static str = "Unable to canonicalize job directory: ";

/// What was found at a job's directory, in the order it is looked at: is it
/// there, can it be inspected, is it a symbolic link, can it be resolved, and
/// does it resolve inside the temporary root.
pub enum JobFolderProbe {
    Missing,
    InspectFailed(String),
    Symlink,
    ResolveFailed(String),
    Resolved { inside_root: bool },
}

/// Decides about deleting a job's directory: `Ok(false)` when there is
/// nothing to delete, `Ok(true)` when it may be removed, which is only when it
/// resolves inside the temporary root and is no symbolic link; otherwise the
/// refusal.
pub fn job_folder_verdict(probe: JobFolderProbe) -> (r: Result<bool, String>)
    ensures
        r == Ok::<bool, String>(true) <==> probe == (JobFolderProbe::Resolved { inside_root: true }),
        match probe {
            JobFolderProbe::Missing => r == Ok::<bool, String>(false),
            JobFolderProbe::InspectFailed(e) => r matches Err(m) && m@ == JOB_INSPECT_FAILED_PREFIX@
                + e@,
            JobFolderProbe::Symlink => r matches Err(m) && m@ == JOB_SYMLINK@,
            JobFolderProbe::ResolveFailed(e) => r matches Err(m) && m@ == JOB_RESOLVE_FAILED_PREFIX@
                + e@,
            JobFolderProbe::Resolved { inside_root } => if inside_root {
                r == Ok::<bool, String>(true)
            } else {
                r matches Err(m) && m@ == JOB_OUTSIDE_ROOT@
            },
        },
{
    match probe {
        JobFolderProbe::Missing => Ok(false),
        JobFolderProbe::InspectFailed(e) => {
            let mut m = String::from_str(JOB_INSPECT_FAILED_PREFIX);
            m.append(e.as_str());
            Err(m)
        },
        JobFolderProbe::Symlink => Err(String::from_str(JOB_SYMLINK)),
        JobFolderProbe::ResolveFailed(e) => {
            let mut m = String::from_str(JOB_RESOLVE_FAILED_PREFIX);
            m.append(e.as_str());
            Err(m)
        },
        JobFolderProbe::Resolved { inside_root } => if inside_root {
            Ok(true)
        } else {
            Err(String::from_str(JOB_OUTSIDE_ROOT))
        },
    }
}

/// Whether an entry of the temporary root has outlived `ttl_secs`: its age
/// (whole seconds and the nanoseconds beyond) is more than the lifetime.
pub fn is_expired(age_secs: u64, age_subsec_nanos: u32, ttl_secs: u64) -> (r: bool)
    requires
        age_subsec_nanos < 1_000_000_000,
    ensures
        r == (age_secs * 1_000_000_000 + age_subsec_nanos > ttl_secs * 1_000_000_000),
{
    age_secs > ttl_secs || (age_secs == ttl_secs && age_subsec_nanos > 0)
}

/// What a sweep of the temporary root does with one entry.
#[derive(Clone, Copy, Debug, PartialEq, Eq, Structural)]
pub enum Removal {
    Keep,
    RemoveDirectory,
    RemoveFile,
}

/// Whether a sweep looks further at an entry: symbolic links are never
/// followed, and only expired entries are removed.
pub fn sweep_candidate(is_symlink: bool, expired: bool) -> (r: bool)
    ensures
        r == (!is_symlink && expired),
{
    !is_symlink && expired
}

/// What a sweep does with an entry that it looked at: nothing when it
/// resolves outside the temporary root, else removes it as a directory or a
/// file.
pub fn removal_for(inside_root: bool, is_dir: bool) -> (r: Removal)
    ensures
        r == if !inside_root {
            Removal::Keep
        } else if is_dir {
            Removal::RemoveDirectory
        } else {
            Removal::RemoveFile
        },
{
    if !inside_root {
        Removal::Keep
    } else if is_dir {
        Removal::RemoveDirectory
    } else {
        Removal::RemoveFile
    }
}


/// Which entries a sweep of the temporary root removes, and what it does
/// when a removal fails.
#[derive(Clone, Copy, Debug, PartialEq, Eq, Structural)]
pub enum SweepMode {
    /// The periodic sweep: only expired entries, and a failed removal stops
    /// the sweep with an error.
    Stale,
    /// The sweep at exit: every entry, and failed removals are passed over.
    All,
}

/// What a sweep reads of an entry of the temporary root without following
/// it: whether it is a symbolic link or a directory, and its age in whole
/// seconds and the nanoseconds beyond.
#[derive(Clone, Copy, Debug)]
pub struct EntryFacts {
    pub is_symlink: bool,
    pub is_dir: bool,
    pub age_secs: u64,
    pub age_subsec_nanos: u32,
}

/// Prefix of the error when an entry cannot be inspected.
pub const ENTRY_INSPECT_FAILED_PREFIX: &'static str = "Unable to inspect temp entry: ";

/// Prefix of the error when an entry cannot be resolved.
pub const ENTRY_RESOLVE_FAILED_PREFIX: &'static str = "Unable to canonicalize temp entry: ";

/// Prefix of the error when an expired directory cannot be removed.
pub const STALE_DIR_DELETE_FAILED_PREFIX: &'static str = "Unable to delete stale temp directory: ";

/// Prefix of the error when an expired file cannot be removed.
pub const STALE_FILE_DELETE_FAILED_PREFIX: &'static str = "Unable to delete stale temp file: ";

/// An entry has outlived `ttl_secs`.
pub open spec fn spec_expired(f: EntryFacts, ttl_secs: u64) -> bool {
    f.age_secs * 1_000_000_000 + f.age_subsec_nanos > ttl_secs * 1_000_000_000
}

/// A sweep looks further at an entry: never at a symbolic link, and in the
/// periodic sweep only at an expired entry.
pub open spec fn spec_entry_selected(mode: SweepMode, ttl_secs: u64, f: EntryFacts) -> bool {
    !f.is_symlink && (mode == SweepMode::All || spec_expired(f, ttl_secs))
}

/// What a sweep does with an entry that it looked at.
pub open spec fn spec_removal_for(inside_root: bool, is_dir: bool) -> Removal {
    if !inside_root {
        Removal::Keep
    } else if is_dir {
        Removal::RemoveDirectory
    } else {
        Removal::RemoveFile
    }
}

/// The decision of a sweep about one entry, given what was read of it and,
/// for a selected entry, whether it resolves inside the temporary root (or
/// why it could not be resolved): the removal to make, or the error that
/// stops the sweep.
pub open spec fn spec_sweep_entry(
    mode: SweepMode,
    ttl_secs: u64,
    facts: Result<EntryFacts, String>,
    resolved: Result<bool, String>,
) -> Result<Removal, Seq<char>> {
    match facts {
        Err(e) => Err(ENTRY_INSPECT_FAILED_PREFIX@ + e@),
        Ok(f) => if !spec_entry_selected(mode, ttl_secs, f) {
            Ok(Removal::Keep)
        } else {
            match resolved {
                Err(e) => Err(ENTRY_RESOLVE_FAILED_PREFIX@ + e@),
                Ok(inside_root) => Ok(spec_removal_for(inside_root, f.is_dir)),
            }
        },
    }
}

/// First step of a sweep on one entry: from what was read of it, or why it
/// could not be read, whether to resolve it.
pub fn sweep_select(mode: SweepMode, ttl_secs: u64, facts: Result<EntryFacts, String>) -> (r:
    Result<bool, String>)
    requires
        facts matches Ok(f) ==> f.age_subsec_nanos < 1_000_000_000,
    ensures
        match facts {
            Err(e) => r matches Err(m) && m@ == ENTRY_INSPECT_FAILED_PREFIX@ + e@,
            Ok(f) => r == Ok::<bool, String>(spec_entry_selected(mode, ttl_secs, f)),
        },
{
    match facts {
        Err(e) => {
            let mut m = String::from_str(ENTRY_INSPECT_FAILED_PREFIX);
            m.append(e.as_str());
            Err(m)
        },
        Ok(f) => {
            let expired = match mode {
                SweepMode::All => true,
                SweepMode::Stale => is_expired(f.age_secs, f.age_subsec_nanos, ttl_secs),
            };
            Ok(sweep_candidate(f.is_symlink, expired))
        },
    }
}

/// Second step of a sweep on a selected entry: from whether it resolves
/// inside the temporary root, or why it could not be resolved, the removal
/// to make.
pub fn sweep_resolve(resolved: Result<bool, String>, is_dir: bool) -> (r: Result<Removal, String>)
    ensures
        match resolved {
            Err(e) => r matches Err(m) && m@ == ENTRY_RESOLVE_FAILED_PREFIX@ + e@,
            Ok(inside_root) => r == Ok::<Removal, String>(spec_removal_for(inside_root, is_dir)),
        },
{
    match resolved {
        Err(e) => {
            let mut m = String::from_str(ENTRY_RESOLVE_FAILED_PREFIX);
            m.append(e.as_str());
            Err(m)
        },
        Ok(inside_root) => Ok(removal_for(inside_root, is_dir)),
    }
}

/// Last step of a sweep on one entry: what the outcome of the removal means
/// for the sweep. The periodic sweep stops on a failed removal with an error
/// that names a directory or a file; the sweep at exit goes on.
pub fn sweep_outcome(mode: SweepMode, removal: Removal, outcome: Result<(), String>) -> (r: Result<
    (),
    String,
>)
    ensures
        match (mode, removal, outcome) {
            (SweepMode::Stale, Removal::RemoveDirectory, Err(e)) => r matches Err(m) && m@
                == STALE_DIR_DELETE_FAILED_PREFIX@ + e@,
            (SweepMode::Stale, Removal::RemoveFile, Err(e)) => r matches Err(m) && m@
                == STALE_FILE_DELETE_FAILED_PREFIX@ + e@,
            _ => r is Ok,
        },
{
    match (mode, removal, outcome) {
        (SweepMode::Stale, Removal::RemoveDirectory, Err(e)) => {
            let mut m = String::from_str(STALE_DIR_DELETE_FAILED_PREFIX);
            m.append(e.as_str());
            Err(m)
        },
        (SweepMode::Stale, Removal::RemoveFile, Err(e)) => {
            let mut m = String::from_str(STALE_FILE_DELETE_FAILED_PREFIX);
            m.append(e.as_str());
            Err(m)
        },
        _ => Ok(()),
    }
}

/// A sweep removes an entry only when it could be read, is no symbolic link,
/// resolves inside the temporary root, and, in the periodic sweep, has
/// expired; an entry that is not selected is never resolved into an error.
pub proof fn lemma_sweep_removes_only_inside(
    mode: SweepMode,
    ttl_secs: u64,
    facts: Result<EntryFacts, String>,
    resolved: Result<bool, String>,
)
    ensures
        spec_sweep_entry(mode, ttl_secs, facts, resolved) matches Ok(r) && r != Removal::Keep ==> (
        facts matches Ok(f) && !f.is_symlink && resolved == Ok::<bool, String>(true) && (mode
            == SweepMode::Stale ==> spec_expired(f, ttl_secs))),
        facts matches Ok(f) && !spec_entry_selected(mode, ttl_secs, f) ==> spec_sweep_entry(
            mode,
            ttl_secs,
            facts,
            resolved,
        ) == Ok::<Removal, Seq<char>>(Removal::Keep),
{
}


/// The sweep at exit removes every entry that could be read, is no symbolic
/// link and resolves inside the temporary root, whatever its kind and age:
/// directories as directories, files as files. The periodic sweep removes
/// only such entries that are also older than the lifetime, and everything
/// it removes the sweep at exit removes too.
pub proof fn lemma_sweep_at_exit_removes_everything_inside(ttl_secs: u64, f: EntryFacts)
    requires
        !f.is_symlink,
    ensures
        spec_sweep_entry(SweepMode::All, ttl_secs, Ok(f), Ok(true)) == Ok::<Removal, Seq<char>>(
            if f.is_dir {
                Removal::RemoveDirectory
            } else {
                Removal::RemoveFile
            },
        ),
        spec_sweep_entry(SweepMode::Stale, ttl_secs, Ok(f), Ok(true)) == Ok::<Removal, Seq<char>>(
            if f.age_secs * 1_000_000_000 + f.age_subsec_nanos <= ttl_secs * 1_000_000_000 {
                Removal::Keep
            } else if f.is_dir {
                Removal::RemoveDirectory
            } else {
                Removal::RemoveFile
            },
        ),
        spec_entry_selected(SweepMode::Stale, ttl_secs, f) ==> spec_entry_selected(
            SweepMode::All,
            ttl_secs,
            f,
        ),
        spec_entry_selected(SweepMode::All, ttl_secs, f),
{
}

} // verus!
