use local_voice::session::{
    capture_padding_nanos, check_audio_payload, check_capture, extension_for_mime,
    ffmpeg_capture_args, is_empty_capture_error, looks_like_empty_wav, make_job_id,
    raw_file_name, validate_job_id, RecordingSession, RecordingSlot, ALREADY_RECORDING,
    INVALID_JOB_ID, NOT_RECORDING, NO_AUDIO_CAPTURED,
};
use local_voice::tray::{tray_action_for, tray_view, TrayAction, TrayModel, TrayStatus};

fn session(id: &str) -> RecordingSession<u32> {
    RecordingSession {
        job_id: id.to_string(),
        job_dir: format!("/tmp/lv/{id}"),
        raw_path: format!("/tmp/lv/{id}/raw.wav"),
        handle: 7,
    }
}

#[test]
fn status_values_are_read_loosely() {
    assert_eq!(TrayStatus::from_status_value("ready"), TrayStatus::Ready);
    assert_eq!(TrayStatus::from_status_value("  RECORDING\n"), TrayStatus::Recording);
    assert_eq!(TrayStatus::from_status_value("Processing"), TrayStatus::Processing);
    assert_eq!(TrayStatus::from_status_value("error"), TrayStatus::Error);
    assert_eq!(TrayStatus::from_status_value("idle"), TrayStatus::Idle);
    assert_eq!(TrayStatus::from_status_value("bogus"), TrayStatus::Idle);
    assert_eq!(TrayStatus::from_status_value(""), TrayStatus::Idle);
}

#[test]
fn record_labels() {
    assert_eq!(TrayStatus::Recording.record_menu_label(), "Stop recording");
    assert_eq!(TrayStatus::Processing.record_menu_label(), "Transcribing…");
    assert_eq!(TrayStatus::Idle.record_menu_label(), "Start recording");
    assert_eq!(TrayStatus::Ready.record_menu_label(), "Start recording");
    assert_eq!(TrayStatus::Error.record_menu_label(), "Start recording");
}

#[test]
fn tooltips() {
    assert_eq!(TrayStatus::Recording.tooltip(false), "voice: recording");
    assert_eq!(TrayStatus::Processing.tooltip(true), "voice: transcribing");
    assert_eq!(TrayStatus::Ready.tooltip(false), "voice: transcript ready");
    assert_eq!(TrayStatus::Error.tooltip(true), "voice: attention");
    assert_eq!(TrayStatus::Idle.tooltip(true), "voice: transcript ready");
    assert_eq!(TrayStatus::Idle.tooltip(false), "voice: idle");
}

#[test]
fn tray_view_follows_status_and_transcript() {
    let v = tray_view(TrayStatus::Processing, "  ", Some(true));
    assert_eq!(v.tooltip, "voice: transcribing");
    assert_eq!(v.show_hide_label, "Hide widget");
    assert!(!v.record_enabled);
    assert!(!v.paste_enabled);
    let v = tray_view(TrayStatus::Idle, "hello", Some(false));
    assert_eq!(v.tooltip, "voice: transcript ready");
    assert_eq!(v.show_hide_label, "Show widget");
    assert_eq!(v.record_label, "Start recording");
    assert!(v.record_enabled);
    assert!(v.paste_enabled);
    let v = tray_view(TrayStatus::Recording, "", None);
    assert_eq!(v.show_hide_label, "Show widget");
    assert_eq!(v.record_label, "Stop recording");
}

#[test]
fn tray_model_syncs() {
    let mut m = TrayModel::new();
    assert_eq!(m.view(None).tooltip, "voice: idle");
    m.sync_backend_state(" Ready ", String::from("some words"));
    assert_eq!(m.status, TrayStatus::Ready);
    assert_eq!(m.active_transcript, "some words");
    assert!(m.view(Some(true)).paste_enabled);
}

#[test]
fn tray_menu_actions() {
    assert_eq!(tray_action_for("tray-show-hide"), TrayAction::ToggleWindow);
    assert_eq!(tray_action_for("tray-record-toggle"), TrayAction::RequestToggleRecording);
    assert_eq!(tray_action_for("tray-paste"), TrayAction::RequestPasteTranscript);
    assert_eq!(tray_action_for("tray-quit"), TrayAction::Quit);
    assert_eq!(tray_action_for("tray-other"), TrayAction::Ignore);
}

#[test]
fn one_recording_at_a_time() {
    let mut slot: RecordingSlot<u32> = RecordingSlot::new();
    assert!(!slot.is_active());
    assert!(slot.ensure_idle().is_ok());
    assert!(slot.install(session("job-1-2")).is_ok());
    assert!(slot.is_active());
    assert_eq!(slot.ensure_idle().unwrap_err(), ALREADY_RECORDING);
    let back = slot.install(session("job-3-4")).unwrap_err();
    assert_eq!(back.job_id, "job-3-4");
    let stopped = slot.stop().unwrap();
    assert_eq!(stopped.job_id, "job-1-2");
    assert_eq!(stopped.raw_path, "/tmp/lv/job-1-2/raw.wav");
    assert_eq!(stopped.handle, 7);
    assert!(!slot.is_active());
    assert_eq!(slot.stop().err().unwrap(), NOT_RECORDING);
}

#[test]
fn cancel_empties_the_slot() {
    let mut slot: RecordingSlot<u32> = RecordingSlot::new();
    assert!(slot.take().is_none());
    slot.install(session("job-5-6")).unwrap();
    assert_eq!(slot.take().unwrap().job_id, "job-5-6");
    assert!(!slot.is_active());
}

#[test]
fn job_ids() {
    assert_eq!(make_job_id(1725029869123, 4242), "job-1725029869123-4242");
    assert_eq!(make_job_id(0, 0), "job-0-0");
    assert!(validate_job_id(&make_job_id(99, 1)).is_ok());
}

#[test]
fn job_id_validation() {
    assert!(validate_job_id("job-1-2").is_ok());
    assert_eq!(validate_job_id("").unwrap_err(), INVALID_JOB_ID);
    assert_eq!(validate_job_id("   ").unwrap_err(), INVALID_JOB_ID);
    assert_eq!(validate_job_id("../etc").unwrap_err(), INVALID_JOB_ID);
    assert_eq!(validate_job_id("a\\b").unwrap_err(), INVALID_JOB_ID);
}

#[test]
fn capture_padding() {
    assert_eq!(capture_padding_nanos(0), 650_000_000);
    assert_eq!(capture_padding_nanos(600_000_000), 50_000_000);
    assert_eq!(capture_padding_nanos(650_000_000), 0);
    assert_eq!(capture_padding_nanos(u64::MAX), 0);
}

#[test]
fn empty_capture_errors() {
    assert!(is_empty_capture_error("Output file is empty, nothing was encoded"));
    assert!(is_empty_capture_error("Nothing was written into output file 0"));
    assert!(is_empty_capture_error("pulse: Received no packets"));
    assert!(!is_empty_capture_error("Device or resource busy"));
}

#[test]
fn empty_wav() {
    assert!(looks_like_empty_wav(None));
    assert!(looks_like_empty_wav(Some(0)));
    assert!(looks_like_empty_wav(Some(44)));
    assert!(!looks_like_empty_wav(Some(45)));
}

#[test]
fn capture_checks() {
    assert!(check_capture(true, "", Some(1000)).is_ok());
    assert_eq!(check_capture(true, "", Some(44)).unwrap_err(), NO_AUDIO_CAPTURED);
    assert_eq!(check_capture(true, "", None).unwrap_err(), NO_AUDIO_CAPTURED);
    assert_eq!(
        check_capture(false, "  received no packets \n", Some(1000)).unwrap_err(),
        NO_AUDIO_CAPTURED
    );
    assert_eq!(
        check_capture(false, "  ", Some(1000)).unwrap_err(),
        "Unable to finalize the microphone recording."
    );
    assert_eq!(
        check_capture(false, " device busy \n", Some(1000)).unwrap_err(),
        "Unable to finalize the microphone recording: device busy"
    );
}

#[test]
fn audio_payload() {
    assert!(check_audio_payload(3).is_ok());
    assert_eq!(check_audio_payload(0).unwrap_err(), "No audio payload was provided.");
}

#[test]
fn mime_extensions() {
    assert_eq!(extension_for_mime("audio/ogg;codecs=opus"), "ogg");
    assert_eq!(extension_for_mime("audio/wav"), "wav");
    assert_eq!(extension_for_mime("audio/mp4"), "m4a");
    assert_eq!(extension_for_mime("audio/x-m4a"), "m4a");
    assert_eq!(extension_for_mime("audio/webm"), "webm");
    assert_eq!(extension_for_mime(""), "webm");
    assert_eq!(raw_file_name("audio/ogg"), "raw.ogg");
}

#[test]
fn capture_command() {
    let args = ffmpeg_capture_args("/tmp/lv/job-1-2/raw.wav");
    assert_eq!(
        args,
        vec![
            "-hide_banner", "-loglevel", "error", "-y", "-f", "pulse", "-i", "default", "-ac",
            "1", "-ar", "16000", "-c:a", "pcm_s16le", "/tmp/lv/job-1-2/raw.wav",
        ]
    );
}
