//! The tray indicator: the status that the widget reports, the labels and
//! availability of the tray menu, and what a click on a menu item asks for.
use vstd::prelude::*;
use crate::text::{blank, is_blank, lemma_trim_lower_idempotent, same_text, spec_trim_lower, trim_lower};
use vstd::utf8::is_ascii_chars;
use vstd::string::StringExecFns;

verus! {

/// Identifier of the tray icon.
pub const TRAY_ID: &'static str = "voice-tray";

/// Menu item that shows or hides the widget.
pub const TRAY_SHOW_HIDE_ID: &'static str = "tray-show-hide";

/// Menu item that starts or stops a recording.
pub const TRAY_RECORD_TOGGLE_ID: &'static str = "tray-record-toggle";

/// Menu item that pastes the current transcript.
pub const TRAY_PASTE_ID: &'static str = "tray-paste";

/// Menu item that quits the application.
pub const TRAY_QUIT_ID: &'static str = "tray-quit";

/// Event that asks the widget to start or stop recording.
pub const TRAY_EVENT_TOGGLE_RECORDING: &'static str = "tray://toggle-recording";

/// Event that asks the widget to paste its transcript.
pub const TRAY_EVENT_PASTE_TRANSCRIPT: &'static str = "tray://paste-transcript";

/// Label of the main window.
pub const MAIN_WINDOW_LABEL: &'static str = "main";

/// What the widget is doing, as the tray shows it.
#[derive(Clone, Copy, Debug, PartialEq, Eq, Structural)]
pub enum TrayStatus {
    Idle,
    Ready,
    Recording,
    Processing,
    Error,
}

/// The status named by an already trimmed and lowercased status value;
/// anything unknown is `Idle`.
pub open spec fn spec_status_from_lowered(l: Seq<char>) -> TrayStatus {
    if l == "ready"@ {
        TrayStatus::Ready
    } else if l == "recording"@ {
        TrayStatus::Recording
    } else if l == "processing"@ {
        TrayStatus::Processing
    } else if l == "error"@ {
        TrayStatus::Error
    } else {
        TrayStatus::Idle
    }
}

/// The label of the record menu item for a status.
pub open spec fn spec_record_menu_label(s: TrayStatus) -> Seq<char> {
    match s {
        TrayStatus::Recording => "Stop recording"@,
        TrayStatus::Processing => "Transcribing…"@,
        _ => "Start recording"@,
    }
}

/// The tray tooltip for a status, given whether a transcript is at hand.
pub open spec fn spec_tooltip(s: TrayStatus, has_transcript: bool) -> Seq<char> {
    match s {
        TrayStatus::Recording => "voice: recording"@,
        TrayStatus::Processing => "voice: transcribing"@,
        TrayStatus::Ready => "voice: transcript ready"@,
        TrayStatus::Error => "voice: attention"@,
        TrayStatus::Idle => if has_transcript {
            "voice: transcript ready"@
        } else {
            "voice: idle"@
        },
    }
}

impl TrayStatus {
    /// The status named by a trimmed, lowercased status value.
    pub fn from_lowered(lowered: &str) -> (r: TrayStatus)
        ensures
            r == spec_status_from_lowered(lowered@),
    {
        if same_text(lowered, "ready") {
            TrayStatus::Ready
        } else if same_text(lowered, "recording") {
            TrayStatus::Recording
        } else if same_text(lowered, "processing") {
            TrayStatus::Processing
        } else if same_text(lowered, "error") {
            TrayStatus::Error
        } else {
            TrayStatus::Idle
        }
    }

    /// The status named by a status value that the widget reports; case and
    /// surrounding white space do not matter, and anything unknown is `Idle`.
    pub fn from_status_value(value: &str) -> (r: TrayStatus)
        ensures
            r == spec_status_from_lowered(spec_trim_lower(value@)),
    {
        let lowered = trim_lower(value);
        TrayStatus::from_lowered(lowered.as_str())
    }

    /// The label of the record menu item.
    pub fn record_menu_label(self) -> (r: &'static str)
        ensures
            r@ == spec_record_menu_label(self),
    {
        match self {
            TrayStatus::Recording => "Stop recording",
            TrayStatus::Processing => "Transcribing…",
            TrayStatus::Error | TrayStatus::Idle | TrayStatus::Ready => "Start recording",
        }
    }

    /// The tray tooltip.
    pub fn tooltip(self, has_transcript: bool) -> (r: &'static str)
        ensures
            r@ == spec_tooltip(self, has_transcript),
    {
        match self {
            TrayStatus::Recording => "voice: recording",
            TrayStatus::Processing => "voice: transcribing",
            TrayStatus::Ready => "voice: transcript ready",
            TrayStatus::Error => "voice: attention",
            TrayStatus::Idle => if has_transcript {
                "voice: transcript ready"
            } else {
                "voice: idle"
            },
        }
    }
}

/// What the tray shows: tooltip, menu labels and which items are enabled.
pub struct TrayView {
    pub tooltip: &'static str,
    pub show_hide_label: &'static str,
    pub record_label: &'static str,
    pub record_enabled: bool,
    pub paste_enabled: bool,
}

/// The label of the show/hide item, given whether the widget is visible
/// (`None` when that cannot be told).
pub open spec fn spec_show_hide_label(window_visible: Option<bool>) -> Seq<char> {
    if window_visible == Some(true) {
        "Hide widget"@
    } else {
        "Show widget"@
    }
}

/// What the tray shows for a status, the active transcript and the widget's
/// visibility. A transcript counts only when it is not blank; the record item
/// is disabled while transcribing, the paste item while there is no
/// transcript.
pub fn tray_view(status: TrayStatus, active_transcript: &str, window_visible: Option<bool>) -> (r:
    TrayView)
    ensures
        r.tooltip@ == spec_tooltip(status, !is_blank(active_transcript@)),
        r.show_hide_label@ == spec_show_hide_label(window_visible),
        r.record_label@ == spec_record_menu_label(status),
        r.record_enabled == (status != TrayStatus::Processing),
        r.paste_enabled == !is_blank(active_transcript@),
{
    let has_transcript = !blank(active_transcript);
    let show_hide_label = match window_visible {
        Some(true) => "Hide widget",
        _ => "Show widget",
    };
    TrayView {
        tooltip: status.tooltip(has_transcript),
        show_hide_label,
        record_label: status.record_menu_label(),
        record_enabled: !matches!(status, TrayStatus::Processing),
        paste_enabled: has_transcript,
    }
}

/// What the tray knows of the widget: the status it last reported and its
/// active transcript.
pub struct TrayModel {
    pub status: TrayStatus,
    pub active_transcript: String,
}

impl TrayModel {
    /// The state before the widget reports anything: idle, no transcript.
    pub fn new() -> (r: TrayModel)
        ensures
            r.status == TrayStatus::Idle,
            r.active_transcript@ == Seq::<char>::empty(),
    {
        TrayModel { status: TrayStatus::Idle, active_transcript: String::new() }
    }

    /// Takes over the status value and the transcript that the widget
    /// reports.
    pub fn sync_backend_state(&mut self, status_value: &str, transcript: String)
        ensures
            final(self).status == spec_status_from_lowered(spec_trim_lower(status_value@)),
            final(self).active_transcript == transcript,
    {
        self.status = TrayStatus::from_status_value(status_value);
        self.active_transcript = transcript;
    }

    /// What the tray shows, given whether the widget is visible.
    pub fn view(&self, window_visible: Option<bool>) -> (r: TrayView)
        ensures
            r.tooltip@ == spec_tooltip(self.status, !is_blank(self.active_transcript@)),
            r.show_hide_label@ == spec_show_hide_label(window_visible),
            r.record_label@ == spec_record_menu_label(self.status),
            r.record_enabled == (self.status != TrayStatus::Processing),
            r.paste_enabled == !is_blank(self.active_transcript@),
    {
        tray_view(self.status, self.active_transcript.as_str(), window_visible)
    }
}

/// What showing or hiding the widget does.
#[derive(Clone, Copy, Debug, PartialEq, Eq, Structural)]
pub enum WindowAction {
    Hide,
    ShowAndFocus,
}

/// A visible widget is hidden; a hidden one is shown and given the focus.
pub fn window_toggle(is_visible: bool) -> (r: WindowAction)
    ensures
        r == if is_visible {
            WindowAction::Hide
        } else {
            WindowAction::ShowAndFocus
        },
{
    if is_visible {
        WindowAction::Hide
    } else {
        WindowAction::ShowAndFocus
    }
}

/// What a click on a tray menu item asks for.
#[derive(Clone, Copy, Debug, PartialEq, Eq, Structural)]
pub enum TrayAction {
    ToggleWindow,
    RequestToggleRecording,
    RequestPasteTranscript,
    Quit,
    Ignore,
}

/// The action for the menu item with a given identifier.
pub open spec fn spec_tray_action(item_id: Seq<char>) -> TrayAction {
    if item_id == TRAY_SHOW_HIDE_ID@ {
        TrayAction::ToggleWindow
    } else if item_id == TRAY_RECORD_TOGGLE_ID@ {
        TrayAction::RequestToggleRecording
    } else if item_id == TRAY_PASTE_ID@ {
        TrayAction::RequestPasteTranscript
    } else if item_id == TRAY_QUIT_ID@ {
        TrayAction::Quit
    } else {
        TrayAction::Ignore
    }
}

/// Decides what a click on the tray menu item `item_id` asks for.
pub fn tray_action_for(item_id: &str) -> (r: TrayAction)
    ensures
        r == spec_tray_action(item_id@),
{
    if same_text(item_id, TRAY_SHOW_HIDE_ID) {
        TrayAction::ToggleWindow
    } else if same_text(item_id, TRAY_RECORD_TOGGLE_ID) {
        TrayAction::RequestToggleRecording
    } else if same_text(item_id, TRAY_PASTE_ID) {
        TrayAction::RequestPasteTranscript
    } else if same_text(item_id, TRAY_QUIT_ID) {
        TrayAction::Quit
    } else {
        TrayAction::Ignore
    }
}


/// Reading an ASCII status value gives the same status as reading its
/// trimmed, lowercased form.
pub proof fn lemma_status_reading_stable(value: Seq<char>)
    requires
        is_ascii_chars(value),
    ensures
        spec_status_from_lowered(spec_trim_lower(spec_trim_lower(value)))
            == spec_status_from_lowered(spec_trim_lower(value)),
{
    lemma_trim_lower_idempotent(value);
}

/// A status other than `Idle` is read only from its own name, once trimmed
/// and lowercased.
pub proof fn lemma_status_names(value: Seq<char>)
    ensures
        spec_status_from_lowered(spec_trim_lower(value)) == TrayStatus::Ready ==> spec_trim_lower(
            value,
        ) == "ready"@,
        spec_status_from_lowered(spec_trim_lower(value)) == TrayStatus::Recording
            ==> spec_trim_lower(value) == "recording"@,
        spec_status_from_lowered(spec_trim_lower(value)) == TrayStatus::Processing
            ==> spec_trim_lower(value) == "processing"@,
        spec_status_from_lowered(spec_trim_lower(value)) == TrayStatus::Error ==> spec_trim_lower(
            value,
        ) == "error"@,
{
}

} // verus!
