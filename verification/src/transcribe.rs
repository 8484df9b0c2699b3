//! Transcription jobs: the arguments handed to the speech worker and the
//! reading of what it answers.
use vstd::prelude::*;
use vstd::string::StringExecFns;
use crate::settings::{normalize_language_setting, spec_normalize_language, AppSettings, SettingsView};
use crate::session::views;
use crate::text::{blank, is_blank, spec_trim, trim};

verus! {

/// Sub-directory of the workspace that holds the speech worker.
pub const BACKEND_DIR: &'static str = "python-backend";

/// Error when the speech worker's directory is missing.
pub const BACKEND_MISSING: &'static str = "Python backend directory is missing.";

/// Error when no Python interpreter was found.
pub const PYTHON_MISSING: &'static str =
    "Python was not found. Install Python 3 and the backend environment first.";

/// Prefix of the error when the worker could not be launched.
pub const BACKEND_LAUNCH_FAILED_PREFIX: &'static str = "Unable to launch Python backend: ";

/// Prefix of the error when the worker's answer is not valid JSON.
pub const INVALID_JSON_PREFIX: &'static str = "Backend returned invalid JSON: ";

/// Separator before the worker's error output in that error.
pub const STDERR_SEPARATOR: &'static str = ". Stderr: ";

/// Error when the worker failed without saying why.
pub const TRANSCRIPTION_FAILED: &'static str = "Local transcription failed.";

/// Prefix of the error when the worker failed and wrote why.
pub const TRANSCRIPTION_FAILED_PREFIX: &'static str = "Local transcription failed: ";

/// Error when the worker succeeded with a blank transcript.
pub const EMPTY_TRANSCRIPT: &'static str = "The local backend produced an empty transcript.";

/// The error that the worker reports.
#[derive(Clone, Debug)]
pub struct BackendError {
    pub code: String,
    pub message: String,
    pub detail: Option<String>,
}

/// The worker's answer.
#[derive(Clone, Debug)]
pub struct BackendResponse {
    pub ok: bool,
    pub transcript: Option<String>,
    pub detected_language: Option<String>,
    pub device: Option<String>,
    pub warnings: Option<Vec<String>>,
    pub error: Option<BackendError>,
}

/// A finished transcription.
#[derive(Clone, Debug)]
pub struct ProcessRecordingResponse {
    pub job_id: String,
    pub transcript: String,
    pub detected_language: Option<String>,
    pub device: Option<String>,
    pub warnings: Vec<String>,
}

/// How a boolean is written on the worker's command line.
pub open spec fn bool_text(b: bool) -> Seq<char> {
    if b {
        "true"@
    } else {
        "false"@
    }
}

/// Arguments of the speech worker for one job: the module, the job's files,
/// the model profile, the normalised language and the GPU preference, then
/// the model path when one is configured.
pub open spec fn spec_transcribe_args(
    s: SettingsView,
    job_dir: Seq<char>,
    raw_path: Seq<char>,
    mime_type: Seq<char>,
) -> Seq<Seq<char>> {
    let base = seq![
        "-m"@,
        "offline_voice_worker.cli"@,
        "transcribe"@,
        "--job-dir"@,
        job_dir,
        "--raw-path"@,
        raw_path,
        "--mime-type"@,
        mime_type,
        "--model-profile"@,
        s.model_profile,
        "--language"@,
        spec_normalize_language(s.language),
        "--prefer-gpu"@,
        bool_text(s.prefer_gpu),
    ];
    if is_blank(s.model_path) {
        base
    } else {
        base + seq!["--model-path"@, s.model_path]
    }
}

/// Arguments of the speech worker that transcribes the capture at
/// `raw_path`.
pub fn transcribe_args(settings: &AppSettings, job_dir: &str, raw_path: &str, mime_type: &str) -> (r:
    Vec<String>)
    ensures
        views(r@) == spec_transcribe_args(settings@, job_dir@, raw_path@, mime_type@),
{
    let mut v: Vec<String> = Vec::new();
    v.push(String::from_str("-m"));
    v.push(String::from_str("offline_voice_worker.cli"));
    v.push(String::from_str("transcribe"));
    v.push(String::from_str("--job-dir"));
    v.push(job_dir.to_owned());
    v.push(String::from_str("--raw-path"));
    v.push(raw_path.to_owned());
    v.push(String::from_str("--mime-type"));
    v.push(mime_type.to_owned());
    v.push(String::from_str("--model-profile"));
    v.push(settings.model_profile.clone());
    v.push(String::from_str("--language"));
    v.push(normalize_language_setting(settings.language.as_str()));
    v.push(String::from_str("--prefer-gpu"));
    v.push(
        if settings.prefer_gpu {
            String::from_str("true")
        } else {
            String::from_str("false")
        },
    );
    let ghost base = views(v@);
    if !blank(settings.model_path.as_str()) {
        v.push(String::from_str("--model-path"));
        v.push(settings.model_path.clone());
        assert(views(v@) =~= base + seq!["--model-path"@, settings.model_path@]);
    }
    assert(views(v@) =~= spec_transcribe_args(settings@, job_dir@, raw_path@, mime_type@));
    v
}

/// Checks that a job can be handed to the worker: its directory must exist
/// and an interpreter must have been found, which is then the command to run.
pub fn transcribe_preflight(backend_present: bool, python_command: Option<String>) -> (r: Result<
    String,
    String,
>)
    ensures
        !backend_present ==> (r matches Err(m) && m@ == BACKEND_MISSING@),
        backend_present ==> match python_command {
            Some(p) => r == Ok::<String, String>(p),
            None => r matches Err(m) && m@ == PYTHON_MISSING@,
        },
{
    if !backend_present {
        return Err(String::from_str(BACKEND_MISSING));
    }
    match python_command {
        Some(p) => Ok(p),
        None => Err(String::from_str(PYTHON_MISSING)),
    }
}

/// The text of an error that the worker reports: code, message, and the
/// detail in brackets when there is one.
pub open spec fn spec_backend_error_text(e: BackendError) -> Seq<char> {
    let base = e.code@ + ": "@ + e.message@;
    match e.detail {
        Some(d) => if d@.len() > 0 {
            base + " ("@ + d@ + ")"@
        } else {
            base
        },
        None => base,
    }
}

/// The error when the worker's answer is not valid JSON, given the parser's
/// message and the worker's trimmed error output.
pub open spec fn spec_invalid_json_text(parse_error: Seq<char>, stderr: Seq<char>) -> Seq<char> {
    if stderr.len() == 0 {
        INVALID_JSON_PREFIX@ + parse_error
    } else {
        INVALID_JSON_PREFIX@ + parse_error + STDERR_SEPARATOR@ + stderr
    }
}

/// The error when the worker failed, given its reported error and its
/// trimmed error output.
pub open spec fn spec_failure_text(error: Option<BackendError>, stderr: Seq<char>) -> Seq<char> {
    match error {
        Some(e) => spec_backend_error_text(e),
        None => if stderr.len() == 0 {
            TRANSCRIPTION_FAILED@
        } else {
            TRANSCRIPTION_FAILED_PREFIX@ + stderr
        },
    }
}

fn backend_error_text(e: &BackendError) -> (r: String)
    ensures
        r@ == spec_backend_error_text(*e),
{
    let mut s = e.code.clone();
    s.append(": ");
    s.append(e.message.as_str());
    match &e.detail {
        Some(d) => {
            if !d.as_str().is_empty() {
                s.append(" (");
                s.append(d.as_str());
                s.append(")");
            }
        },
        None => {},
    }
    s
}

/// Reads the worker's answer for job `job_id`. `exit_ok` tells whether the
/// worker exited successfully, `stderr_raw` is its error output, and `parsed`
/// is its standard output read as JSON, or the parser's message. Invalid JSON,
/// a failed exit or a reported failure, and a blank transcript are errors, in
/// that order; otherwise the transcript comes back with the job.
pub fn interpret_backend_output(
    job_id: String,
    exit_ok: bool,
    stderr_raw: &str,
    parsed: Result<BackendResponse, String>,
) -> (r: Result<ProcessRecordingResponse, String>)
    ensures
        match parsed {
            Err(e) => r matches Err(m) && m@ == spec_invalid_json_text(e@, spec_trim(stderr_raw@)),
            Ok(p) => if !exit_ok || !p.ok {
                r matches Err(m) && m@ == spec_failure_text(p.error, spec_trim(stderr_raw@))
            } else {
                match p.transcript {
                    Some(t) => if is_blank(t@) {
                        r matches Err(m) && m@ == EMPTY_TRANSCRIPT@
                    } else {
                        r matches Ok(resp) && resp.job_id == job_id && resp.transcript == t
                            && resp.detected_language == p.detected_language && resp.device
                            == p.device && resp.warnings@ == match p.warnings {
                            Some(w) => w@,
                            None => Seq::<String>::empty(),
                        }
                    },
                    None => r matches Err(m) && m@ == EMPTY_TRANSCRIPT@,
                }
            },
        },
{
    let stderr = trim(stderr_raw);
    let p = match parsed {
        Err(e) => {
            let mut m = String::from_str(INVALID_JSON_PREFIX);
            m.append(e.as_str());
            if !stderr.as_str().is_empty() {
                m.append(STDERR_SEPARATOR);
                m.append(stderr.as_str());
            }
            return Err(m);
        },
        Ok(p) => p,
    };
    if !exit_ok || !p.ok {
        let m = match &p.error {
            Some(e) => backend_error_text(e),
            None => if stderr.as_str().is_empty() {
                String::from_str(TRANSCRIPTION_FAILED)
            } else {
                let mut m = String::from_str(TRANSCRIPTION_FAILED_PREFIX);
                m.append(stderr.as_str());
                m
            },
        };
        return Err(m);
    }
    match p.transcript {
        Some(t) => {
            if blank(t.as_str()) {
                Err(String::from_str(EMPTY_TRANSCRIPT))
            } else {
                let warnings = match p.warnings {
                    Some(w) => w,
                    None => Vec::new(),
                };
                Ok(
                    ProcessRecordingResponse {
                        job_id,
                        transcript: t,
                        detected_language: p.detected_language,
                        device: p.device,
                        warnings,
                    },
                )
            }
        },
        None => Err(String::from_str(EMPTY_TRANSCRIPT)),
    }
}


/// The worker's command line carries the GPU preference as `true` or `false`
/// right after `--prefer-gpu`, and the normalised language right after
/// `--language`, whatever else the settings hold; the model path is handed
/// over, after `--model-path`, exactly when it is not blank, and the job's
/// files and MIME type come after their flags.
pub proof fn lemma_worker_arguments(
    s: SettingsView,
    job_dir: Seq<char>,
    raw_path: Seq<char>,
    mime_type: Seq<char>,
)
    ensures
        ({
            let a = spec_transcribe_args(s, job_dir, raw_path, mime_type);
            &&& a.len() == if is_blank(s.model_path) { 15int } else { 17int }
            &&& a[3] == seq!['-', '-', 'j', 'o', 'b', '-', 'd', 'i', 'r'] && a[4] == job_dir
            &&& a[5] == seq!['-', '-', 'r', 'a', 'w', '-', 'p', 'a', 't', 'h'] && a[6] == raw_path
            &&& a[7] == seq!['-', '-', 'm', 'i', 'm', 'e', '-', 't', 'y', 'p', 'e'] && a[8] == mime_type
            &&& a[9] == seq!['-', '-', 'm', 'o', 'd', 'e', 'l', '-', 'p', 'r', 'o', 'f', 'i', 'l', 'e'] && a[10] == s.model_profile
            &&& a[11] == seq!['-', '-', 'l', 'a', 'n', 'g', 'u', 'a', 'g', 'e'] && a[12] == spec_normalize_language(s.language)
            &&& a[13] == seq!['-', '-', 'p', 'r', 'e', 'f', 'e', 'r', '-', 'g', 'p', 'u']
            &&& a[14] == if s.prefer_gpu { seq!['t', 'r', 'u', 'e'] } else { seq!['f', 'a', 'l', 's', 'e'] }
            &&& !is_blank(s.model_path) ==> a[15] == seq!['-', '-', 'm', 'o', 'd', 'e', 'l', '-', 'p', 'a', 't', 'h'] && a[16] == s.model_path
        }),
{
    reveal_strlit("--job-dir");
    reveal_strlit("--raw-path");
    reveal_strlit("--mime-type");
    reveal_strlit("--model-profile");
    reveal_strlit("--language");
    reveal_strlit("--prefer-gpu");
    reveal_strlit("true");
    reveal_strlit("false");
    reveal_strlit("--model-path");
    assert("--job-dir"@ =~= seq!['-', '-', 'j', 'o', 'b', '-', 'd', 'i', 'r']);
    assert("--raw-path"@ =~= seq!['-', '-', 'r', 'a', 'w', '-', 'p', 'a', 't', 'h']);
    assert("--mime-type"@ =~= seq!['-', '-', 'm', 'i', 'm', 'e', '-', 't', 'y', 'p', 'e']);
    assert("--model-profile"@ =~= seq!['-', '-', 'm', 'o', 'd', 'e', 'l', '-', 'p', 'r', 'o', 'f', 'i', 'l', 'e']);
    assert("--language"@ =~= seq!['-', '-', 'l', 'a', 'n', 'g', 'u', 'a', 'g', 'e']);
    assert("--prefer-gpu"@ =~= seq!['-', '-', 'p', 'r', 'e', 'f', 'e', 'r', '-', 'g', 'p', 'u']);
    assert("true"@ =~= seq!['t', 'r', 'u', 'e']);
    assert("false"@ =~= seq!['f', 'a', 'l', 's', 'e']);
    assert("--model-path"@ =~= seq!['-', '-', 'm', 'o', 'd', 'e', 'l', '-', 'p', 'a', 't', 'h']);
}

} // verus!
