//! Pasting the transcript into the focused application: which key chord to
//! send, what the outcome reports, and how the focused window's class is read
//! from the X11 property tool's output.
use vstd::prelude::*;
use vstd::string::StringExecFns;
use crate::text::{blank, contains, has_infix, is_blank, occurs_at};

verus! {

/// Warning when Linux falls back to Ctrl+V without knowing the window.
pub const LINUX_PASTE_DEFAULTED: &'static str =
    "Linux paste defaulted to Ctrl+V because the active window class could not be detected.";

/// Warning when there is nothing to paste.
pub const NO_ACTIVE_TRANSCRIPT: &'static str = "No transcript is currently active.";

/// Error on a platform without paste automation.
pub const PASTE_UNSUPPORTED: &'static str = "Paste automation is not implemented for this platform.";

/// The operating system the application runs on.
#[derive(Clone, Copy, Debug, PartialEq, Eq, Structural)]
pub enum Platform {
    Linux,
    MacOs,
    Windows,
    Other,
}

/// The key chord that pastes.
#[derive(Clone, Copy, Debug, PartialEq, Eq, Structural)]
pub enum PasteKeys {
    CommandV,
    CtrlV,
    CtrlShiftV,
}

/// How to paste: the chord, the name reported for it, its label in error
/// messages, and a warning to report.
#[derive(Clone, Debug)]
pub struct PastePlan {
    pub keys: PasteKeys,
    pub strategy: &'static str,
    pub label: &'static str,
    pub warning: Option<&'static str>,
}

/// Substrings of a window class that mark a terminal emulator.
pub open spec fn spec_terminal_markers() -> Seq<Seq<char>> {
    seq![
        "alacritty"@,
        "blackbox"@,
        "com.raggesilver.blackbox"@,
        "ghostty"@,
        "gnome-terminal"@,
        "guake"@,
        "hyper"@,
        "io.elementary.terminal"@,
        "kgx"@,
        "kitty"@,
        "konsole"@,
        "lxterminal"@,
        "org.gnome.console"@,
        "org.wezfurlong.wezterm"@,
        "ptyxis"@,
        "qterminal"@,
        "rio"@,
        "tabby"@,
        "terminal"@,
        "terminator"@,
        "tilix"@,
        "urxvt"@,
        "wezterm"@,
        "xfce4-terminal"@,
        "xterm"@,
    ]
}

fn terminal_markers() -> (v: Vec<&'static str>)
    ensures
        v@.len() == spec_terminal_markers().len(),
        forall|i: int| 0 <= i < v@.len() ==> (#[trigger] v@[i])@ == spec_terminal_markers()[i],
{
    let v: Vec<&'static str> = vec![
        "alacritty",
        "blackbox",
        "com.raggesilver.blackbox",
        "ghostty",
        "gnome-terminal",
        "guake",
        "hyper",
        "io.elementary.terminal",
        "kgx",
        "kitty",
        "konsole",
        "lxterminal",
        "org.gnome.console",
        "org.wezfurlong.wezterm",
        "ptyxis",
        "qterminal",
        "rio",
        "tabby",
        "terminal",
        "terminator",
        "tilix",
        "urxvt",
        "wezterm",
        "xfce4-terminal",
        "xterm",
    ];
    v
}

/// Whether a window class names a terminal emulator: it contains one of the
/// markers.
pub open spec fn spec_is_terminal_class(window_class: Seq<char>) -> bool {
    exists|i: int|
        0 <= i < spec_terminal_markers().len() && has_infix(
            window_class,
            #[trigger] spec_terminal_markers()[i],
        )
}

/// Whether a window class names a terminal emulator, which pastes with
/// Ctrl+Shift+V.
pub fn is_terminal_window_class(window_class: &str) -> (r: bool)
    ensures
        r == spec_is_terminal_class(window_class@),
{
    let markers = terminal_markers();
    let n = markers.len();
    let mut i: usize = 0;
    while i < n
        invariant
            n == markers@.len(),
            markers@.len() == spec_terminal_markers().len(),
            forall|k: int| 0 <= k < markers@.len() ==> (#[trigger] markers@[k])@ == spec_terminal_markers()[k],
            i <= n,
            forall|k: int| 0 <= k < i ==> !has_infix(window_class@, #[trigger] spec_terminal_markers()[k]),
        decreases n - i,
    {
        if contains(window_class, markers[i]) {
            assert(markers@[i as int]@ == spec_terminal_markers()[i as int]);
            return true;
        }
        i = i + 1;
    }
    false
}

/// The characters of an optional text.
pub open spec fn opt_view(o: Option<&str>) -> Option<Seq<char>> {
    match o {
        Some(c) => Some(c@),
        None => None,
    }
}

/// A window class that names a terminal still does inside a longer name.
pub proof fn lemma_terminal_class_in_longer_name(p: Seq<char>, c: Seq<char>, q: Seq<char>)
    requires
        spec_is_terminal_class(c),
    ensures
        spec_is_terminal_class(p + c + q),
{
    let k = choose|k: int|
        0 <= k < spec_terminal_markers().len() && has_infix(c, #[trigger] spec_terminal_markers()[k]);
    let m = spec_terminal_markers()[k];
    let i = choose|i: int| occurs_at(c, m, i);
    let long = p + c + q;
    assert(long.subrange(p.len() + i, p.len() + i + m.len()) =~= c.subrange(i, i + m.len()));
    assert(occurs_at(long, m, p.len() + i));
    assert(has_infix(long, spec_terminal_markers()[k]));
}

/// Every terminal marker has at least three characters, so a shorter class
/// never names a terminal.
pub proof fn lemma_short_class_not_terminal(c: Seq<char>)
    requires
        c.len() < 3,
    ensures
        !spec_is_terminal_class(c),
{
    reveal_strlit("alacritty");
    reveal_strlit("blackbox");
    reveal_strlit("com.raggesilver.blackbox");
    reveal_strlit("ghostty");
    reveal_strlit("gnome-terminal");
    reveal_strlit("guake");
    reveal_strlit("hyper");
    reveal_strlit("io.elementary.terminal");
    reveal_strlit("kgx");
    reveal_strlit("kitty");
    reveal_strlit("konsole");
    reveal_strlit("lxterminal");
    reveal_strlit("org.gnome.console");
    reveal_strlit("org.wezfurlong.wezterm");
    reveal_strlit("ptyxis");
    reveal_strlit("qterminal");
    reveal_strlit("rio");
    reveal_strlit("tabby");
    reveal_strlit("terminal");
    reveal_strlit("terminator");
    reveal_strlit("tilix");
    reveal_strlit("urxvt");
    reveal_strlit("wezterm");
    reveal_strlit("xfce4-terminal");
    reveal_strlit("xterm");
    assert("alacritty"@.len() == 9);
    assert("blackbox"@.len() == 8);
    assert("com.raggesilver.blackbox"@.len() == 24);
    assert("ghostty"@.len() == 7);
    assert("gnome-terminal"@.len() == 14);
    assert("guake"@.len() == 5);
    assert("hyper"@.len() == 5);
    assert("io.elementary.terminal"@.len() == 22);
    assert("kgx"@.len() == 3);
    assert("kitty"@.len() == 5);
    assert("konsole"@.len() == 7);
    assert("lxterminal"@.len() == 10);
    assert("org.gnome.console"@.len() == 17);
    assert("org.wezfurlong.wezterm"@.len() == 22);
    assert("ptyxis"@.len() == 6);
    assert("qterminal"@.len() == 9);
    assert("rio"@.len() == 3);
    assert("tabby"@.len() == 5);
    assert("terminal"@.len() == 8);
    assert("terminator"@.len() == 10);
    assert("tilix"@.len() == 5);
    assert("urxvt"@.len() == 5);
    assert("wezterm"@.len() == 7);
    assert("xfce4-terminal"@.len() == 14);
    assert("xterm"@.len() == 5);
    assert forall|k: int| 0 <= k < spec_terminal_markers().len() implies #[trigger] spec_terminal_markers()[k].len() >= 3 by {
    }
}

/// The paste plan for a platform and, on Linux, the focused window's class
/// (`None` when it could not be told); `None` on a platform without paste
/// automation.
pub open spec fn spec_paste_plan_keys(platform: Platform, window_class: Option<Seq<char>>) -> Option<
    PasteKeys,
> {
    match platform {
        Platform::MacOs => Some(PasteKeys::CommandV),
        Platform::Windows => Some(PasteKeys::CtrlV),
        Platform::Linux => match window_class {
            Some(c) => if spec_is_terminal_class(c) {
                Some(PasteKeys::CtrlShiftV)
            } else {
                Some(PasteKeys::CtrlV)
            },
            None => Some(PasteKeys::CtrlV),
        },
        Platform::Other => None,
    }
}

/// The name reported for a chord.
pub open spec fn spec_strategy(k: PasteKeys) -> Seq<char> {
    match k {
        PasteKeys::CommandV => "command-v"@,
        PasteKeys::CtrlV => "ctrl-v"@,
        PasteKeys::CtrlShiftV => "ctrl-shift-v"@,
    }
}

/// The label of a chord in error messages.
pub open spec fn spec_chord_label(k: PasteKeys) -> Seq<char> {
    match k {
        PasteKeys::CommandV => "Command+V"@,
        PasteKeys::CtrlV => "Ctrl+V"@,
        PasteKeys::CtrlShiftV => "Ctrl+Shift+V"@,
    }
}

fn plan_for(keys: PasteKeys, warning: Option<&'static str>) -> (r: PastePlan)
    ensures
        r.keys == keys,
        r.strategy@ == spec_strategy(keys),
        r.label@ == spec_chord_label(keys),
        r.warning == warning,
{
    match keys {
        PasteKeys::CommandV => PastePlan { keys, strategy: "command-v", label: "Command+V", warning },
        PasteKeys::CtrlV => PastePlan { keys, strategy: "ctrl-v", label: "Ctrl+V", warning },
        PasteKeys::CtrlShiftV => PastePlan {
            keys,
            strategy: "ctrl-shift-v",
            label: "Ctrl+Shift+V",
            warning,
        },
    }
}

/// Chooses how to paste. On Linux a terminal gets Ctrl+Shift+V and any other
/// window Ctrl+V, with a warning when the window could not be told; macOS
/// gets Command+V and Windows Ctrl+V.
pub fn paste_plan(platform: Platform, window_class: Option<&str>) -> (r: Option<PastePlan>)
    ensures
        match (r, spec_paste_plan_keys(platform, opt_view(window_class))) {
            (Some(p), Some(k)) => p.keys == k && p.strategy@ == spec_strategy(k) && p.label@
                == spec_chord_label(k) && p.warning == (if platform == Platform::Linux
                && window_class is None {
                Some(LINUX_PASTE_DEFAULTED)
            } else {
                None
            }),
            (None, None) => true,
            _ => false,
        },
{
    match platform {
        Platform::MacOs => Some(plan_for(PasteKeys::CommandV, None)),
        Platform::Windows => Some(plan_for(PasteKeys::CtrlV, None)),
        Platform::Linux => match window_class {
            Some(c) => if is_terminal_window_class(c) {
                Some(plan_for(PasteKeys::CtrlShiftV, None))
            } else {
                Some(plan_for(PasteKeys::CtrlV, None))
            },
            None => Some(plan_for(PasteKeys::CtrlV, Some(LINUX_PASTE_DEFAULTED))),
        },
        Platform::Other => None,
    }
}

/// The outcome of a paste request.
#[derive(Clone, Debug)]
pub struct PasteActionResult {
    pub did_paste: bool,
    pub strategy: String,
    pub clipboard_restore: String,
    pub warning: Option<String>,
}

/// When the text to paste is blank nothing is pasted, and the outcome says
/// so; otherwise `None`, and the paste goes ahead.
pub fn skipped_paste(text: &str) -> (r: Option<PasteActionResult>)
    ensures
        r is Some <==> is_blank(text@),
        r matches Some(o) ==> (!o.did_paste && o.strategy@ == "none"@ && o.clipboard_restore@
            == "none"@ && (o.warning matches Some(w) && w@ == NO_ACTIVE_TRANSCRIPT@)),
{
    if blank(text) {
        Some(
            PasteActionResult {
                did_paste: false,
                strategy: String::from_str("none"),
                clipboard_restore: String::from_str("none"),
                warning: Some(String::from_str(NO_ACTIVE_TRANSCRIPT)),
            },
        )
    } else {
        None
    }
}

/// The outcome of a paste that went through with `plan`; the clipboard's
/// earlier text, when there was any, is put back later.
pub fn completed_paste(plan: &PastePlan, had_previous_clipboard: bool) -> (r: PasteActionResult)
    ensures
        r.did_paste,
        r.strategy@ == plan.strategy@,
        r.clipboard_restore@ == if had_previous_clipboard {
            "scheduled"@
        } else {
            "none"@
        },
        match (r.warning, plan.warning) {
            (Some(a), Some(b)) => a@ == b@,
            (None, None) => true,
            _ => false,
        },
{
    PasteActionResult {
        did_paste: true,
        strategy: String::from_str(plan.strategy),
        clipboard_restore: if had_previous_clipboard {
            String::from_str("scheduled")
        } else {
            String::from_str("none")
        },
        warning: match plan.warning {
            Some(w) => Some(String::from_str(w)),
            None => None,
        },
    }
}


/// Whether a window class contains one of the documented terminal names.
pub open spec fn names_known_terminal(c: Seq<char>) -> bool {
    has_infix(c, seq!['a', 'l', 'a', 'c', 'r', 'i', 't', 't', 'y']) || has_infix(c, seq!['b', 'l', 'a', 'c', 'k', 'b', 'o', 'x']) || has_infix(c, seq!['c', 'o', 'm', '.', 'r', 'a', 'g', 'g', 'e', 's', 'i', 'l', 'v', 'e', 'r', '.', 'b', 'l', 'a', 'c', 'k', 'b', 'o', 'x']) || has_infix(c, seq!['g', 'h', 'o', 's', 't', 't', 'y']) || has_infix(c, seq!['g', 'n', 'o', 'm', 'e', '-', 't', 'e', 'r', 'm', 'i', 'n', 'a', 'l']) || has_infix(c, seq!['g', 'u', 'a', 'k', 'e']) || has_infix(c, seq!['h', 'y', 'p', 'e', 'r']) || has_infix(c, seq!['i', 'o', '.', 'e', 'l', 'e', 'm', 'e', 'n', 't', 'a', 'r', 'y', '.', 't', 'e', 'r', 'm', 'i', 'n', 'a', 'l']) || has_infix(c, seq!['k', 'g', 'x']) || has_infix(c, seq!['k', 'i', 't', 't', 'y']) || has_infix(c, seq!['k', 'o', 'n', 's', 'o', 'l', 'e']) || has_infix(c, seq!['l', 'x', 't', 'e', 'r', 'm', 'i', 'n', 'a', 'l']) || has_infix(c, seq!['o', 'r', 'g', '.', 'g', 'n', 'o', 'm', 'e', '.', 'c', 'o', 'n', 's', 'o', 'l', 'e']) || has_infix(c, seq!['o', 'r', 'g', '.', 'w', 'e', 'z', 'f', 'u', 'r', 'l', 'o', 'n', 'g', '.', 'w', 'e', 'z', 't', 'e', 'r', 'm']) || has_infix(c, seq!['p', 't', 'y', 'x', 'i', 's']) || has_infix(c, seq!['q', 't', 'e', 'r', 'm', 'i', 'n', 'a', 'l']) || has_infix(c, seq!['r', 'i', 'o']) || has_infix(c, seq!['t', 'a', 'b', 'b', 'y']) || has_infix(c, seq!['t', 'e', 'r', 'm', 'i', 'n', 'a', 'l']) || has_infix(c, seq!['t', 'e', 'r', 'm', 'i', 'n', 'a', 't', 'o', 'r']) || has_infix(c, seq!['t', 'i', 'l', 'i', 'x']) || has_infix(c, seq!['u', 'r', 'x', 'v', 't']) || has_infix(c, seq!['w', 'e', 'z', 't', 'e', 'r', 'm']) || has_infix(c, seq!['x', 'f', 'c', 'e', '4', '-', 't', 'e', 'r', 'm', 'i', 'n', 'a', 'l']) || has_infix(c, seq!['x', 't', 'e', 'r', 'm'])
}

/// A window class names a terminal exactly when it contains one of the
/// documented terminal names (alacritty, blackbox, com.raggesilver.blackbox,
/// ghostty, gnome-terminal, guake, hyper, io.elementary.terminal, kgx, kitty,
/// konsole, lxterminal, org.gnome.console, org.wezfurlong.wezterm, ptyxis,
/// qterminal, rio, tabby, terminal, terminator, tilix, urxvt, wezterm,
/// xfce4-terminal, xterm); on Linux such a window is pasted into with
/// Ctrl+Shift+V and any other with Ctrl+V.
pub proof fn lemma_terminal_classes_are_the_documented_ones(c: Seq<char>)
    ensures
        spec_is_terminal_class(c) <==> names_known_terminal(c),
        spec_paste_plan_keys(Platform::Linux, Some(c)) == Some(
            if names_known_terminal(c) {
                PasteKeys::CtrlShiftV
            } else {
                PasteKeys::CtrlV
            },
        ),
{
    reveal_strlit("alacritty");
    reveal_strlit("blackbox");
    reveal_strlit("com.raggesilver.blackbox");
    reveal_strlit("ghostty");
    reveal_strlit("gnome-terminal");
    reveal_strlit("guake");
    reveal_strlit("hyper");
    reveal_strlit("io.elementary.terminal");
    reveal_strlit("kgx");
    reveal_strlit("kitty");
    reveal_strlit("konsole");
    reveal_strlit("lxterminal");
    reveal_strlit("org.gnome.console");
    reveal_strlit("org.wezfurlong.wezterm");
    reveal_strlit("ptyxis");
    reveal_strlit("qterminal");
    reveal_strlit("rio");
    reveal_strlit("tabby");
    reveal_strlit("terminal");
    reveal_strlit("terminator");
    reveal_strlit("tilix");
    reveal_strlit("urxvt");
    reveal_strlit("wezterm");
    reveal_strlit("xfce4-terminal");
    reveal_strlit("xterm");
    assert(spec_terminal_markers()[0] =~= seq!['a', 'l', 'a', 'c', 'r', 'i', 't', 't', 'y']);
    assert(spec_terminal_markers()[1] =~= seq!['b', 'l', 'a', 'c', 'k', 'b', 'o', 'x']);
    assert(spec_terminal_markers()[2] =~= seq!['c', 'o', 'm', '.', 'r', 'a', 'g', 'g', 'e', 's', 'i', 'l', 'v', 'e', 'r', '.', 'b', 'l', 'a', 'c', 'k', 'b', 'o', 'x']);
    assert(spec_terminal_markers()[3] =~= seq!['g', 'h', 'o', 's', 't', 't', 'y']);
    assert(spec_terminal_markers()[4] =~= seq!['g', 'n', 'o', 'm', 'e', '-', 't', 'e', 'r', 'm', 'i', 'n', 'a', 'l']);
    assert(spec_terminal_markers()[5] =~= seq!['g', 'u', 'a', 'k', 'e']);
    assert(spec_terminal_markers()[6] =~= seq!['h', 'y', 'p', 'e', 'r']);
    assert(spec_terminal_markers()[7] =~= seq!['i', 'o', '.', 'e', 'l', 'e', 'm', 'e', 'n', 't', 'a', 'r', 'y', '.', 't', 'e', 'r', 'm', 'i', 'n', 'a', 'l']);
    assert(spec_terminal_markers()[8] =~= seq!['k', 'g', 'x']);
    assert(spec_terminal_markers()[9] =~= seq!['k', 'i', 't', 't', 'y']);
    assert(spec_terminal_markers()[10] =~= seq!['k', 'o', 'n', 's', 'o', 'l', 'e']);
    assert(spec_terminal_markers()[11] =~= seq!['l', 'x', 't', 'e', 'r', 'm', 'i', 'n', 'a', 'l']);
    assert(spec_terminal_markers()[12] =~= seq!['o', 'r', 'g', '.', 'g', 'n', 'o', 'm', 'e', '.', 'c', 'o', 'n', 's', 'o', 'l', 'e']);
    assert(spec_terminal_markers()[13] =~= seq!['o', 'r', 'g', '.', 'w', 'e', 'z', 'f', 'u', 'r', 'l', 'o', 'n', 'g', '.', 'w', 'e', 'z', 't', 'e', 'r', 'm']);
    assert(spec_terminal_markers()[14] =~= seq!['p', 't', 'y', 'x', 'i', 's']);
    assert(spec_terminal_markers()[15] =~= seq!['q', 't', 'e', 'r', 'm', 'i', 'n', 'a', 'l']);
    assert(spec_terminal_markers()[16] =~= seq!['r', 'i', 'o']);
    assert(spec_terminal_markers()[17] =~= seq!['t', 'a', 'b', 'b', 'y']);
    assert(spec_terminal_markers()[18] =~= seq!['t', 'e', 'r', 'm', 'i', 'n', 'a', 'l']);
    assert(spec_terminal_markers()[19] =~= seq!['t', 'e', 'r', 'm', 'i', 'n', 'a', 't', 'o', 'r']);
    assert(spec_terminal_markers()[20] =~= seq!['t', 'i', 'l', 'i', 'x']);
    assert(spec_terminal_markers()[21] =~= seq!['u', 'r', 'x', 'v', 't']);
    assert(spec_terminal_markers()[22] =~= seq!['w', 'e', 'z', 't', 'e', 'r', 'm']);
    assert(spec_terminal_markers()[23] =~= seq!['x', 'f', 'c', 'e', '4', '-', 't', 'e', 'r', 'm', 'i', 'n', 'a', 'l']);
    assert(spec_terminal_markers()[24] =~= seq!['x', 't', 'e', 'r', 'm']);
    assert(spec_terminal_markers().len() == 25);
    if names_known_terminal(c) {
        assert(exists|k: int|
            0 <= k < spec_terminal_markers().len() && has_infix(
                c,
                #[trigger] spec_terminal_markers()[k],
            ));
    }
    if spec_is_terminal_class(c) {
        let k = choose|k: int|
            0 <= k < spec_terminal_markers().len() && has_infix(
                c,
                #[trigger] spec_terminal_markers()[k],
            );
        assert(0 <= k < 25);
    }
}

} // verus!
