//! The health report shown when the widget starts or its settings change.
use vstd::prelude::*;
use vstd::string::StringExecFns;
use crate::settings::AppSettings;
use crate::text::{blank, is_blank, spec_trim, trim};

verus! {

/// One line of the health report.
#[derive(Clone, Debug)]
pub struct DiagnosticItem {
    pub level: String,
    pub code: String,
    pub message: String,
}

/// A report line as mathematical values: level, code and message.
pub type DiagnosticView = (Seq<char>, Seq<char>, Seq<char>);

/// The report line as mathematical values.
pub open spec fn diag_view(d: DiagnosticItem) -> DiagnosticView {
    (d.level@, d.code@, d.message@)
}

/// Outcome of importing the worker's speech libraries with the interpreter.
pub enum DepsCheck {
    /// The import was not attempted.
    NotRun,
    /// The import succeeded.
    Passed,
    /// The import failed; the interpreter's error output.
    Failed(String),
    /// The interpreter could not be started; why.
    Unavailable(String),
}

/// What the start-up checks found on the machine.
pub struct RuntimeProbes {
    /// The worker's directory exists.
    pub backend_present: bool,
    /// `ffmpeg` is on the search path.
    pub ffmpeg_present: bool,
    /// An interpreter for the worker was found.
    pub python_present: bool,
    /// The import check of the worker's libraries.
    pub backend_deps: DepsCheck,
    /// The configured model path exists.
    pub model_path_present: bool,
    /// Why the temporary root is not writable, if it is not.
    pub temp_root_error: Option<String>,
}

/// Message of the report line for a missing worker directory.
pub const MSG_BACKEND_MISSING: &'static str =
    "The python-backend directory is missing from the project.";

/// Message of the report line for a missing `ffmpeg`.
pub const MSG_FFMPEG_MISSING: &'static str =
    "FFmpeg is not installed. Recording can finish, but transcription cannot start until ffmpeg is available.";

/// Message of the report line for a missing interpreter.
pub const MSG_PYTHON_MISSING: &'static str =
    "Python 3 was not found. Install Python and create the backend environment before launching the widget.";

/// Prefix of the report line for incomplete worker libraries.
pub const MSG_DEPS_MISSING_PREFIX: &'static str =
    "The backend Python dependencies are incomplete: ";

/// Prefix of the report line when the interpreter could not be started.
pub const MSG_DEPS_CHECK_FAILED_PREFIX: &'static str =
    "Unable to inspect the backend environment: ";

/// Message of the report line for an empty model path.
pub const MSG_MODEL_PATH_EMPTY: &'static str =
    "No local model path is configured. The named model profile only works offline if it is already cached on this machine.";

/// Prefix of the report line for a model path that does not exist.
pub const MSG_MODEL_PATH_MISSING_PREFIX: &'static str = "Configured model path does not exist: ";

/// Message of the report line when every check passed.
pub const MSG_RUNTIME_OK: &'static str = "The runtime checks currently look healthy.";

/// Whether the import check of the worker's libraries is made: only when an
/// interpreter was found and the worker's directory exists.
pub fn backend_deps_check_due(python_present: bool, backend_present: bool) -> (r: bool)
    ensures
        r == (python_present && backend_present),
{
    python_present && backend_present
}

/// The report line about the interpreter and the worker's libraries.
pub open spec fn spec_python_lines(p: &RuntimeProbes) -> Seq<DiagnosticView> {
    if !p.python_present {
        seq![("error"@, "python-missing"@, MSG_PYTHON_MISSING@)]
    } else if p.backend_present {
        match p.backend_deps {
            DepsCheck::Failed(e) => seq![
                ("error"@, "backend-deps-missing"@, MSG_DEPS_MISSING_PREFIX@ + spec_trim(e@)),
            ],
            DepsCheck::Unavailable(e) => seq![
                ("error"@, "backend-check-failed"@, MSG_DEPS_CHECK_FAILED_PREFIX@ + e@),
            ],
            _ => Seq::empty(),
        }
    } else {
        Seq::empty()
    }
}

/// The report line about the model path.
pub open spec fn spec_model_lines(model_path: Seq<char>, present: bool) -> Seq<DiagnosticView> {
    if is_blank(model_path) {
        seq![("warning"@, "model-path-empty"@, MSG_MODEL_PATH_EMPTY@)]
    } else if !present {
        seq![("error"@, "model-path-missing"@, MSG_MODEL_PATH_MISSING_PREFIX@ + model_path)]
    } else {
        Seq::empty()
    }
}

/// The problems found, in the order they are checked.
pub open spec fn spec_problems(model_path: Seq<char>, p: &RuntimeProbes) -> Seq<DiagnosticView> {
    let backend = if !p.backend_present {
        seq![("error"@, "backend-missing"@, MSG_BACKEND_MISSING@)]
    } else {
        Seq::empty()
    };
    let ffmpeg = if !p.ffmpeg_present {
        seq![("error"@, "ffmpeg-missing"@, MSG_FFMPEG_MISSING@)]
    } else {
        Seq::empty()
    };
    let temp = match p.temp_root_error {
        Some(e) => seq![("error"@, "temp-root-unwritable"@, e@)],
        None => Seq::empty(),
    };
    backend + ffmpeg + spec_python_lines(p) + spec_model_lines(model_path, p.model_path_present)
        + temp
}

/// The health report: the problems found, or one line saying that all is
/// well.
pub open spec fn spec_diagnostics(model_path: Seq<char>, p: &RuntimeProbes) -> Seq<DiagnosticView> {
    let problems = spec_problems(model_path, p);
    if problems.len() == 0 {
        seq![("info"@, "runtime-ok"@, MSG_RUNTIME_OK@)]
    } else {
        problems
    }
}

fn line(level: &str, code: &str, message: String) -> (r: DiagnosticItem)
    ensures
        diag_view(r) == (level@, code@, message@),
{
    DiagnosticItem { level: String::from_str(level), code: String::from_str(code), message }
}

fn push_line(out: &mut Vec<DiagnosticItem>, level: &str, code: &str, message: String)
    ensures
        final(out)@.map_values(|d: DiagnosticItem| diag_view(d)) == old(out)@.map_values(
            |d: DiagnosticItem| diag_view(d),
        ).push((level@, code@, message@)),
{
    let ghost before = out@.map_values(|d: DiagnosticItem| diag_view(d));
    out.push(line(level, code, message));
    assert(out@.map_values(|d: DiagnosticItem| diag_view(d)) =~= before.push(
        (level@, code@, message@),
    ));
}

fn text_with(prefix: &str, rest: &str) -> (r: String)
    ensures
        r@ == prefix@ + rest@,
{
    let mut m = String::from_str(prefix);
    m.append(rest);
    m
}

/// Builds the health report from the settings and what the start-up checks
/// found. The lines come in the order of the checks: worker directory,
/// `ffmpeg`, interpreter and libraries, model path, temporary root.
pub fn collect_diagnostics(settings: &AppSettings, probes: &RuntimeProbes) -> (r: Vec<
    DiagnosticItem,
>)
    ensures
        r@.map_values(|d: DiagnosticItem| diag_view(d)) == spec_diagnostics(
            settings.model_path@,
            probes,
        ),
{
    let mut out: Vec<DiagnosticItem> = Vec::new();
    let ghost empty = out@.map_values(|d: DiagnosticItem| diag_view(d));
    assert(empty =~= Seq::<DiagnosticView>::empty());
    if !probes.backend_present {
        push_line(&mut out, "error", "backend-missing", String::from_str(MSG_BACKEND_MISSING));
    }
    if !probes.ffmpeg_present {
        push_line(&mut out, "error", "ffmpeg-missing", String::from_str(MSG_FFMPEG_MISSING));
    }
    let ghost after_ffmpeg = out@.map_values(|d: DiagnosticItem| diag_view(d));
    if !probes.python_present {
        push_line(&mut out, "error", "python-missing", String::from_str(MSG_PYTHON_MISSING));
    } else if probes.backend_present {
        match &probes.backend_deps {
            DepsCheck::Failed(e) => {
                let t = trim(e.as_str());
                push_line(
                    &mut out,
                    "error",
                    "backend-deps-missing",
                    text_with(MSG_DEPS_MISSING_PREFIX, t.as_str()),
                );
            },
            DepsCheck::Unavailable(e) => {
                push_line(
                    &mut out,
                    "error",
                    "backend-check-failed",
                    text_with(MSG_DEPS_CHECK_FAILED_PREFIX, e.as_str()),
                );
            },
            _ => {},
        }
    }
    assert(out@.map_values(|d: DiagnosticItem| diag_view(d)) =~= after_ffmpeg + spec_python_lines(
        probes,
    ));
    let ghost after_python = out@.map_values(|d: DiagnosticItem| diag_view(d));
    if blank(settings.model_path.as_str()) {
        push_line(&mut out, "warning", "model-path-empty", String::from_str(MSG_MODEL_PATH_EMPTY));
    } else if !probes.model_path_present {
        push_line(
            &mut out,
            "error",
            "model-path-missing",
            text_with(MSG_MODEL_PATH_MISSING_PREFIX, settings.model_path.as_str()),
        );
    }
    assert(out@.map_values(|d: DiagnosticItem| diag_view(d)) =~= after_python + spec_model_lines(
        settings.model_path@,
        probes.model_path_present,
    ));
    match &probes.temp_root_error {
        Some(e) => {
            push_line(&mut out, "error", "temp-root-unwritable", e.clone());
        },
        None => {},
    }
    assert(out@.map_values(|d: DiagnosticItem| diag_view(d)) =~= spec_problems(
        settings.model_path@,
        probes,
    ));
    if out.len() == 0 {
        push_line(&mut out, "info", "runtime-ok", String::from_str(MSG_RUNTIME_OK));
    }
    out
}

/// Whether the start-up checks found nothing wrong.
pub open spec fn runtime_healthy(model_path: Seq<char>, p: &RuntimeProbes) -> bool {
    &&& p.backend_present
    &&& p.ffmpeg_present
    &&& p.python_present
    &&& !(p.backend_deps is Failed)
    &&& !(p.backend_deps is Unavailable)
    &&& !is_blank(model_path)
    &&& p.model_path_present
    &&& p.temp_root_error is None
}

/// The health report is never empty, and it is the single all-is-well line
/// exactly when no check found a problem.
pub proof fn lemma_report_complete(model_path: Seq<char>, p: &RuntimeProbes)
    ensures
        spec_diagnostics(model_path, p).len() >= 1,
        (spec_diagnostics(model_path, p) == seq![("info"@, "runtime-ok"@, MSG_RUNTIME_OK@)])
            <==> runtime_healthy(model_path, p),
{
    reveal_strlit("info");
    reveal_strlit("error");
    reveal_strlit("warning");
    let problems = spec_problems(model_path, p);
    if !runtime_healthy(model_path, p) {
        assert(problems.len() > 0);
        let py = spec_python_lines(p);
        let md = spec_model_lines(model_path, p.model_path_present);
        assert(forall|i: int| 0 <= i < py.len() ==> #[trigger] py[i].0 == "error"@);
        assert(forall|i: int|
            0 <= i < md.len() ==> #[trigger] md[i].0 == "error"@ || md[i].0 == "warning"@);
        assert(problems[0].0 == "error"@ || problems[0].0 == "warning"@);
        assert("error"@.len() == 5 && "warning"@.len() == 7 && "info"@.len() == 4);
    }
}

} // verus!
