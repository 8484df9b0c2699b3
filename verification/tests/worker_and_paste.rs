use local_voice::diagnostics::{
    backend_deps_check_due, collect_diagnostics, DepsCheck, DiagnosticItem, RuntimeProbes,
};
use local_voice::paste::{
    completed_paste, is_terminal_window_class, paste_plan, skipped_paste, PasteKeys, Platform,
};
use local_voice::runtime::{
    check_temp_root, default_model_path, dev_seed_transcript, executable_names, first_present,
    is_expired, job_folder_verdict, removal_for, resolve_python_command, sweep_candidate,
    venv_candidates, workspace_root, JobFolderProbe, Removal,
};
use local_voice::settings::AppSettings;
use local_voice::transcribe::{
    interpret_backend_output, transcribe_args, transcribe_preflight, BackendError,
    BackendResponse,
};
use local_voice::window::{parse_active_window_id, parse_wm_class};

fn settings(model_path: &str) -> AppSettings {
    let mut s = AppSettings::defaults(String::from(model_path), String::from("/tmp/local-voice"));
    s.language = String::from(" English ");
    s
}

fn ok_response(transcript: Option<&str>) -> BackendResponse {
    BackendResponse {
        ok: true,
        transcript: transcript.map(String::from),
        detected_language: Some(String::from("en")),
        device: Some(String::from("cuda")),
        warnings: Some(vec![String::from("slow")]),
        error: None,
    }
}

#[test]
fn worker_arguments_without_model_path() {
    let args = transcribe_args(&settings("  "), "/tmp/j", "/tmp/j/raw.wav", "audio/wav");
    assert_eq!(
        args,
        vec![
            "-m",
            "offline_voice_worker.cli",
            "transcribe",
            "--job-dir",
            "/tmp/j",
            "--raw-path",
            "/tmp/j/raw.wav",
            "--mime-type",
            "audio/wav",
            "--model-profile",
            "small",
            "--language",
            "en",
            "--prefer-gpu",
            "true",
        ]
    );
}

#[test]
fn worker_arguments_with_model_path() {
    let mut s = settings("/models/fw-small");
    s.prefer_gpu = false;
    let args = transcribe_args(&s, "d", "r", "m");
    assert_eq!(args.len(), 17);
    assert_eq!(args[14], "false");
    assert_eq!(args[15], "--model-path");
    assert_eq!(args[16], "/models/fw-small");
}

#[test]
fn preflight() {
    assert_eq!(
        transcribe_preflight(false, Some(String::from("python3"))).unwrap_err(),
        "Python backend directory is missing."
    );
    assert_eq!(
        transcribe_preflight(true, None).unwrap_err(),
        "Python was not found. Install Python 3 and the backend environment first."
    );
    assert_eq!(transcribe_preflight(true, Some(String::from("py"))).unwrap(), "py");
}

#[test]
fn worker_success() {
    let r = interpret_backend_output(String::from("job-1-2"), true, "", Ok(ok_response(Some(" hi "))))
        .unwrap();
    assert_eq!(r.job_id, "job-1-2");
    assert_eq!(r.transcript, " hi ");
    assert_eq!(r.detected_language.as_deref(), Some("en"));
    assert_eq!(r.device.as_deref(), Some("cuda"));
    assert_eq!(r.warnings, vec![String::from("slow")]);
    let mut no_warnings = ok_response(Some("x"));
    no_warnings.warnings = None;
    let r = interpret_backend_output(String::from("j"), true, "", Ok(no_warnings)).unwrap();
    assert!(r.warnings.is_empty());
}

#[test]
fn worker_invalid_json() {
    let e = interpret_backend_output(String::from("j"), true, "  ", Err(String::from("EOF"))).unwrap_err();
    assert_eq!(e, "Backend returned invalid JSON: EOF");
    let e = interpret_backend_output(String::from("j"), false, " boom\n", Err(String::from("EOF")))
        .unwrap_err();
    assert_eq!(e, "Backend returned invalid JSON: EOF. Stderr: boom");
}

#[test]
fn worker_failures() {
    let mut failed = ok_response(Some("x"));
    failed.ok = false;
    failed.error = Some(BackendError {
        code: String::from("model-missing"),
        message: String::from("no model"),
        detail: Some(String::from("/m")),
    });
    let e = interpret_backend_output(String::from("j"), true, "", Ok(failed.clone())).unwrap_err();
    assert_eq!(e, "model-missing: no model (/m)");
    failed.error.as_mut().unwrap().detail = Some(String::new());
    let e = interpret_backend_output(String::from("j"), true, "", Ok(failed.clone())).unwrap_err();
    assert_eq!(e, "model-missing: no model");
    failed.error = None;
    let e = interpret_backend_output(String::from("j"), true, "", Ok(failed.clone())).unwrap_err();
    assert_eq!(e, "Local transcription failed.");
    let e = interpret_backend_output(String::from("j"), true, " trace ", Ok(failed)).unwrap_err();
    assert_eq!(e, "Local transcription failed: trace");
    let e = interpret_backend_output(String::from("j"), false, "", Ok(ok_response(Some("x"))))
        .unwrap_err();
    assert_eq!(e, "Local transcription failed.");
}

#[test]
fn worker_blank_transcript() {
    for t in [None, Some(""), Some("  \n")] {
        let e = interpret_backend_output(String::from("j"), true, "", Ok(ok_response(t))).unwrap_err();
        assert_eq!(e, "The local backend produced an empty transcript.");
    }
}

#[test]
fn terminal_classes() {
    assert!(is_terminal_window_class("\"gnome-terminal-server\", \"gnome-terminal-server\""));
    assert!(is_terminal_window_class("kitty"));
    assert!(is_terminal_window_class("org.wezfurlong.wezterm"));
    assert!(!is_terminal_window_class("\"firefox\", \"firefox\""));
    assert!(!is_terminal_window_class(""));
}

#[test]
fn paste_plans() {
    let p = paste_plan(Platform::Linux, Some("\"kitty\", \"kitty\"")).unwrap();
    assert_eq!(p.keys, PasteKeys::CtrlShiftV);
    assert_eq!(p.strategy, "ctrl-shift-v");
    assert_eq!(p.label, "Ctrl+Shift+V");
    assert!(p.warning.is_none());
    let p = paste_plan(Platform::Linux, Some("firefox")).unwrap();
    assert_eq!(p.keys, PasteKeys::CtrlV);
    assert!(p.warning.is_none());
    let p = paste_plan(Platform::Linux, None).unwrap();
    assert_eq!(p.keys, PasteKeys::CtrlV);
    assert_eq!(
        p.warning,
        Some("Linux paste defaulted to Ctrl+V because the active window class could not be detected.")
    );
    let p = paste_plan(Platform::MacOs, None).unwrap();
    assert_eq!(p.keys, PasteKeys::CommandV);
    assert_eq!(p.strategy, "command-v");
    let p = paste_plan(Platform::Windows, Some("kitty")).unwrap();
    assert_eq!(p.keys, PasteKeys::CtrlV);
    assert_eq!(p.strategy, "ctrl-v");
    assert!(paste_plan(Platform::Other, None).is_none());
}

#[test]
fn paste_outcomes() {
    let s = skipped_paste(" \n").unwrap();
    assert!(!s.did_paste);
    assert_eq!(s.strategy, "none");
    assert_eq!(s.clipboard_restore, "none");
    assert_eq!(s.warning.as_deref(), Some("No transcript is currently active."));
    assert!(skipped_paste("words").is_none());
    let plan = paste_plan(Platform::Linux, None).unwrap();
    let done = completed_paste(&plan, true);
    assert!(done.did_paste);
    assert_eq!(done.strategy, "ctrl-v");
    assert_eq!(done.clipboard_restore, "scheduled");
    assert!(done.warning.is_some());
    let plan = paste_plan(Platform::MacOs, None).unwrap();
    let done = completed_paste(&plan, false);
    assert_eq!(done.clipboard_restore, "none");
    assert!(done.warning.is_none());
}

#[test]
fn active_window_ids() {
    assert_eq!(
        parse_active_window_id("_NET_ACTIVE_WINDOW(WINDOW): window id # 0x3c00007\n").as_deref(),
        Some("0x3c00007")
    );
    assert_eq!(parse_active_window_id("_NET_ACTIVE_WINDOW(WINDOW): window id # 0x0"), None);
    assert_eq!(parse_active_window_id("no window here"), None);
    assert_eq!(parse_active_window_id("0x1 0x2\t0x33 zz").as_deref(), Some("0x33"));
    assert_eq!(parse_active_window_id("0x1 0x0"), None);
    assert_eq!(parse_active_window_id(""), None);
}

#[test]
fn wm_classes() {
    assert_eq!(
        parse_wm_class("WM_CLASS(STRING) = \"Navigator\", \"Firefox\"\n").as_deref(),
        Some("\"navigator\", \"firefox\"")
    );
    assert_eq!(parse_wm_class("WM_CLASS:  not found."), None);
    assert_eq!(parse_wm_class("WM_CLASS(STRING) =   "), None);
    assert_eq!(parse_wm_class("a = B = c").as_deref(), Some("b"));
}

#[test]
fn interpreter_resolution() {
    let venv: Vec<String> = venv_candidates().iter().map(|c| format!("/ws/{c}")).collect();
    assert_eq!(venv[0], "/ws/python-backend/.venv/bin/python3");
    assert_eq!(venv[2], "/ws/python-backend/.venv/Scripts/python.exe");
    let r = resolve_python_command(&venv, &vec![false, true, true], None, None);
    assert_eq!(r.as_deref(), Some("/ws/python-backend/.venv/bin/python"));
    let r = resolve_python_command(
        &venv,
        &vec![false, false, false],
        Some(String::from("/usr/bin/python3")),
        Some(String::from("/usr/bin/python")),
    );
    assert_eq!(r.as_deref(), Some("/usr/bin/python3"));
    let r = resolve_python_command(&venv, &vec![false; 3], None, Some(String::from("/usr/bin/python")));
    assert_eq!(r.as_deref(), Some("/usr/bin/python"));
    assert_eq!(resolve_python_command(&venv, &vec![false; 3], None, None), None);
    assert_eq!(first_present(&vec![], &vec![]), None);
}

#[test]
fn executable_name_lists() {
    assert_eq!(executable_names("ffmpeg", false), vec!["ffmpeg"]);
    assert_eq!(executable_names("ffmpeg", true), vec!["ffmpeg.exe", "ffmpeg"]);
}

#[test]
fn workspace_and_model_paths() {
    assert_eq!(workspace_root("/home/u/local-voice/src-tauri").as_deref(), Some("/home/u/local-voice"));
    assert_eq!(workspace_root(""), None);
    assert_eq!(workspace_root("/"), None);
    assert_eq!(workspace_root("src-tauri").as_deref(), Some(""));
    assert_eq!(workspace_root(".").as_deref(), Some(""));
    assert_eq!(default_model_path(String::from("/ws/m"), true), "/ws/m");
    assert_eq!(default_model_path(String::from("/ws/m"), false), "");
}

#[test]
fn dev_seed() {
    assert_eq!(dev_seed_transcript(None), None);
    assert_eq!(dev_seed_transcript(Some("   ")), None);
    assert_eq!(dev_seed_transcript(Some(" hello ")).as_deref(), Some("hello"));
}

#[test]
fn temp_root_checks() {
    assert!(check_temp_root(None).is_ok());
    assert!(check_temp_root(Some(Ok(false))).is_ok());
    assert_eq!(check_temp_root(Some(Ok(true))).unwrap_err(), "Temp root cannot be a symlink.");
    assert_eq!(
        check_temp_root(Some(Err(String::from("denied")))).unwrap_err(),
        "Unable to inspect temp root: denied"
    );
}

#[test]
fn job_folder_verdicts() {
    assert_eq!(job_folder_verdict(JobFolderProbe::Missing), Ok(false));
    assert_eq!(job_folder_verdict(JobFolderProbe::Resolved { inside_root: true }), Ok(true));
    assert_eq!(
        job_folder_verdict(JobFolderProbe::Resolved { inside_root: false }),
        Err(String::from("Refusing to delete outside the app temp root."))
    );
    assert_eq!(
        job_folder_verdict(JobFolderProbe::Symlink),
        Err(String::from("Refusing to delete symlinked job artifacts."))
    );
    assert_eq!(
        job_folder_verdict(JobFolderProbe::InspectFailed(String::from("x"))),
        Err(String::from("Unable to inspect job directory: x"))
    );
    assert_eq!(
        job_folder_verdict(JobFolderProbe::ResolveFailed(String::from("y"))),
        Err(String::from("Unable to canonicalize job directory: y"))
    );
}

#[test]
fn sweep_rules() {
    assert!(!is_expired(900, 0, 900));
    assert!(is_expired(900, 1, 900));
    assert!(is_expired(901, 0, 900));
    assert!(!is_expired(10, 999_999_999, 900));
    assert!(sweep_candidate(false, true));
    assert!(!sweep_candidate(true, true));
    assert!(!sweep_candidate(false, false));
    assert_eq!(removal_for(false, true), Removal::Keep);
    assert_eq!(removal_for(true, true), Removal::RemoveDirectory);
    assert_eq!(removal_for(true, false), Removal::RemoveFile);
}

fn healthy() -> RuntimeProbes {
    RuntimeProbes {
        backend_present: true,
        ffmpeg_present: true,
        python_present: true,
        backend_deps: DepsCheck::Passed,
        model_path_present: true,
        temp_root_error: None,
    }
}

fn codes(items: &[DiagnosticItem]) -> Vec<String> {
    items.iter().map(|d| d.code.clone()).collect()
}

#[test]
fn healthy_runtime_report() {
    let d = collect_diagnostics(&settings("/models/m"), &healthy());
    assert_eq!(d.len(), 1);
    assert_eq!(d[0].level, "info");
    assert_eq!(d[0].code, "runtime-ok");
    assert_eq!(d[0].message, "The runtime checks currently look healthy.");
    assert!(backend_deps_check_due(true, true));
    assert!(!backend_deps_check_due(true, false));
}

#[test]
fn broken_runtime_report() {
    let probes = RuntimeProbes {
        backend_present: false,
        ffmpeg_present: false,
        python_present: false,
        backend_deps: DepsCheck::NotRun,
        model_path_present: false,
        temp_root_error: Some(String::from("Temp root is not writable: denied")),
    };
    let d = collect_diagnostics(&settings(""), &probes);
    assert_eq!(
        codes(&d),
        vec!["backend-missing", "ffmpeg-missing", "python-missing", "model-path-empty", "temp-root-unwritable"]
    );
    assert_eq!(d[3].level, "warning");
    assert_eq!(d[4].message, "Temp root is not writable: denied");
}

#[test]
fn dependency_report_lines() {
    let mut p = healthy();
    p.backend_deps = DepsCheck::Failed(String::from("  ModuleNotFoundError: ctranslate2\n"));
    let d = collect_diagnostics(&settings("/m"), &p);
    assert_eq!(codes(&d), vec!["backend-deps-missing"]);
    assert_eq!(
        d[0].message,
        "The backend Python dependencies are incomplete: ModuleNotFoundError: ctranslate2"
    );
    p.backend_deps = DepsCheck::Unavailable(String::from("permission denied"));
    p.model_path_present = false;
    let d = collect_diagnostics(&settings("/m"), &p);
    assert_eq!(codes(&d), vec!["backend-check-failed", "model-path-missing"]);
    assert_eq!(d[0].message, "Unable to inspect the backend environment: permission denied");
    assert_eq!(d[1].message, "Configured model path does not exist: /m");
    p.backend_present = false;
    let d = collect_diagnostics(&settings("/m"), &p);
    assert_eq!(codes(&d), vec!["backend-missing", "model-path-missing"]);
}

use local_voice::runtime::{sweep_outcome, sweep_resolve, sweep_select, EntryFacts, SweepMode};
use local_voice::tray::{window_toggle, WindowAction};

fn facts(is_symlink: bool, is_dir: bool, age_secs: u64) -> Result<EntryFacts, String> {
    Ok(EntryFacts { is_symlink, is_dir, age_secs, age_subsec_nanos: 0 })
}

#[test]
fn plain_absolute_workspace_roots() {
    assert_eq!(workspace_root("/a").as_deref(), Some("/"));
    assert_eq!(workspace_root("/opt/app/src-tauri").as_deref(), Some("/opt/app"));
    assert_eq!(workspace_root("/home/u/.cache/app/src-tauri").as_deref(), Some("/home/u/.cache/app"));
    assert_eq!(workspace_root("/a/b/..").as_deref(), Some("/a/b"));
    assert_eq!(workspace_root("app/src-tauri").as_deref(), Some("app"));
    assert_eq!(workspace_root("./src-tauri").as_deref(), Some("."));
    assert_eq!(workspace_root("..").as_deref(), Some(""));
}

#[test]
fn sweep_selection() {
    assert_eq!(sweep_select(SweepMode::Stale, 900, facts(false, true, 901)), Ok(true));
    assert_eq!(sweep_select(SweepMode::Stale, 900, facts(false, true, 900)), Ok(false));
    assert_eq!(sweep_select(SweepMode::Stale, 900, facts(true, true, 5000)), Ok(false));
    assert_eq!(sweep_select(SweepMode::All, 900, facts(false, false, 0)), Ok(true));
    assert_eq!(sweep_select(SweepMode::All, 900, facts(true, false, 0)), Ok(false));
    assert_eq!(
        sweep_select(SweepMode::All, 900, Err(String::from("gone"))),
        Err(String::from("Unable to inspect temp entry: gone"))
    );
}

#[test]
fn sweep_resolution_and_outcome() {
    assert_eq!(sweep_resolve(Ok(true), true), Ok(Removal::RemoveDirectory));
    assert_eq!(sweep_resolve(Ok(true), false), Ok(Removal::RemoveFile));
    assert_eq!(sweep_resolve(Ok(false), true), Ok(Removal::Keep));
    assert_eq!(
        sweep_resolve(Err(String::from("loop")), true),
        Err(String::from("Unable to canonicalize temp entry: loop"))
    );
    assert_eq!(
        sweep_outcome(SweepMode::Stale, Removal::RemoveDirectory, Err(String::from("busy"))),
        Err(String::from("Unable to delete stale temp directory: busy"))
    );
    assert_eq!(
        sweep_outcome(SweepMode::Stale, Removal::RemoveFile, Err(String::from("busy"))),
        Err(String::from("Unable to delete stale temp file: busy"))
    );
    assert_eq!(sweep_outcome(SweepMode::All, Removal::RemoveFile, Err(String::from("busy"))), Ok(()));
    assert_eq!(sweep_outcome(SweepMode::Stale, Removal::RemoveFile, Ok(())), Ok(()));
}

#[test]
fn widget_toggle() {
    assert_eq!(window_toggle(true), WindowAction::Hide);
    assert_eq!(window_toggle(false), WindowAction::ShowAndFocus);
}

#[test]
fn terminal_class_laws_on_examples() {
    assert!(is_terminal_window_class("xx-kitty-yy"));
    assert!(!is_terminal_window_class("kg"));
    assert!(parse_wm_class("WM_CLASS = \"ÉCRAN\"").map(|c| !c.is_empty()).unwrap_or(false));
}
