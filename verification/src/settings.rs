//! Persisted preferences: their defaults, the language normalisation and the
//! sanitising pass that every loaded or saved value goes through.
use vstd::prelude::*;
use vstd::string::StringExecFns;
use vstd::utf8::is_ascii_chars;
use crate::text::{
    ascii_lower, ascii_lower_char, blank, is_blank, is_white_space, lemma_blank_iff_white,
    lemma_trim_fixed, lemma_trim_lower_idempotent, lemma_trim_lower_trimmed, same_text, spec_trim, spec_trim_lower,
    trim_lower,
};

verus! {

/// Speech model profile used when none is configured.
pub const DEFAULT_MODEL_PROFILE: &'static str = "small";

/// Transcription language used when none, or a generic English, is configured.
pub const DEFAULT_LANGUAGE: &'static str = "en";

/// Global shortcut that toggles recording when none is configured.
pub const DEFAULT_RECORD_SHORTCUT: &'static str = "CommandOrControl+Shift+Space";

/// Global shortcut that pastes the transcript when none is configured.
pub const DEFAULT_PASTE_SHORTCUT: &'static str = "CommandOrControl+Shift+Enter";

/// Default pause between two sweeps of stale temporary artefacts.
pub const DEFAULT_CLEANUP_INTERVAL_SECONDS: u64 = 300;

/// Default lifetime of temporary transcript artefacts.
pub const DEFAULT_TRANSCRIPT_TTL_SECONDS: u64 = 900;

/// Shortest accepted pause between two cleanup sweeps.
pub const MIN_CLEANUP_INTERVAL_SECONDS: u64 = 60;

/// How much longer than one sweep interval an artefact must at least live.
pub const TTL_MARGIN_SECONDS: u64 = 60;

/// Shortest accepted artefact lifetime.
pub const MIN_TRANSCRIPT_TTL_SECONDS: u64 = 120;

/// The user's preferences.
#[derive(Clone, Debug)]
pub struct AppSettings {
    pub model_path: String,
    pub model_profile: String,
    pub language: String,
    pub temp_root: String,
    pub cleanup_interval_seconds: u64,
    pub transcript_ttl_seconds: u64,
    pub record_shortcut: String,
    pub paste_shortcut: String,
    pub auto_copy_on_completion: bool,
    pub auto_clear_after_copy: bool,
    pub prefer_gpu: bool,
}

/// The preferences as mathematical values.
pub struct SettingsView {
    pub model_path: Seq<char>,
    pub model_profile: Seq<char>,
    pub language: Seq<char>,
    pub temp_root: Seq<char>,
    pub cleanup_interval_seconds: u64,
    pub transcript_ttl_seconds: u64,
    pub record_shortcut: Seq<char>,
    pub paste_shortcut: Seq<char>,
    pub auto_copy_on_completion: bool,
    pub auto_clear_after_copy: bool,
    pub prefer_gpu: bool,
}

impl View for AppSettings {
    type V = SettingsView;

    open spec fn view(&self) -> SettingsView {
        SettingsView {
            model_path: self.model_path@,
            model_profile: self.model_profile@,
            language: self.language@,
            temp_root: self.temp_root@,
            cleanup_interval_seconds: self.cleanup_interval_seconds,
            transcript_ttl_seconds: self.transcript_ttl_seconds,
            record_shortcut: self.record_shortcut@,
            paste_shortcut: self.paste_shortcut@,
            auto_copy_on_completion: self.auto_copy_on_completion,
            auto_clear_after_copy: self.auto_clear_after_copy,
            prefer_gpu: self.prefer_gpu,
        }
    }
}

/// The language that an already trimmed and lowercased setting stands for:
/// empty, `auto` and the generic English spellings become `en`.
pub open spec fn spec_language_from_lowered(l: Seq<char>) -> Seq<char> {
    if l.len() == 0 || l == "auto"@ || l == "english"@ || l == "en-us"@ || l == "en-gb"@ {
        DEFAULT_LANGUAGE@
    } else {
        l
    }
}

/// The language code that a raw language setting stands for.
pub open spec fn spec_normalize_language(value: Seq<char>) -> Seq<char> {
    spec_language_from_lowered(spec_trim_lower(value))
}

/// Maps a trimmed, lowercased language setting to the code handed to the
/// transcriber.
pub fn language_from_lowered(lowered: &str) -> (r: String)
    ensures
        r@ == spec_language_from_lowered(lowered@),
{
    if lowered.is_empty() || same_text(lowered, "auto") || same_text(lowered, "english")
        || same_text(lowered, "en-us") || same_text(lowered, "en-gb") {
        String::from_str(DEFAULT_LANGUAGE)
    } else {
        lowered.to_owned()
    }
}

/// Normalises a language setting: trimmed, lowercased, and generic English
/// spellings mapped to `en`.
pub fn normalize_language_setting(value: &str) -> (r: String)
    ensures
        r@ == spec_normalize_language(value@),
{
    let lowered = trim_lower(value);
    language_from_lowered(lowered.as_str())
}

/// The sweep interval after sanitising: at least the minimum.
pub open spec fn spec_sanitized_cleanup(c: u64) -> int {
    if c < MIN_CLEANUP_INTERVAL_SECONDS {
        MIN_CLEANUP_INTERVAL_SECONDS as int
    } else {
        c as int
    }
}

/// The artefact lifetime after sanitising: at least one margin longer than the
/// sanitised sweep interval, and at least the minimum lifetime.
pub open spec fn spec_sanitized_ttl(t: u64, c: u64) -> int {
    let floor = spec_sanitized_cleanup(c) + TTL_MARGIN_SECONDS;
    let a = if t < floor {
        floor
    } else {
        t as int
    };
    if a < MIN_TRANSCRIPT_TTL_SECONDS {
        MIN_TRANSCRIPT_TTL_SECONDS as int
    } else {
        a
    }
}

/// A text setting, or its default when the setting is blank.
pub open spec fn or_default(value: Seq<char>, default: Seq<char>) -> Seq<char> {
    if is_blank(value) {
        default
    } else {
        value
    }
}

/// The default preferences for a default model path and temporary root.
pub open spec fn spec_defaults(model_path: Seq<char>, temp_root: Seq<char>) -> SettingsView {
    SettingsView {
        model_path,
        model_profile: DEFAULT_MODEL_PROFILE@,
        language: DEFAULT_LANGUAGE@,
        temp_root,
        cleanup_interval_seconds: DEFAULT_CLEANUP_INTERVAL_SECONDS,
        transcript_ttl_seconds: DEFAULT_TRANSCRIPT_TTL_SECONDS,
        record_shortcut: DEFAULT_RECORD_SHORTCUT@,
        paste_shortcut: DEFAULT_PASTE_SHORTCUT@,
        auto_copy_on_completion: false,
        auto_clear_after_copy: false,
        prefer_gpu: true,
    }
}

/// What sanitising makes of a set of preferences.
pub open spec fn spec_sanitized(v: SettingsView, default_temp_root: Seq<char>) -> SettingsView {
    SettingsView {
        model_path: v.model_path,
        model_profile: or_default(v.model_profile, DEFAULT_MODEL_PROFILE@),
        language: spec_normalize_language(v.language),
        temp_root: or_default(v.temp_root, default_temp_root),
        cleanup_interval_seconds: spec_sanitized_cleanup(v.cleanup_interval_seconds) as u64,
        transcript_ttl_seconds: spec_sanitized_ttl(
            v.transcript_ttl_seconds,
            v.cleanup_interval_seconds,
        ) as u64,
        record_shortcut: or_default(v.record_shortcut, DEFAULT_RECORD_SHORTCUT@),
        paste_shortcut: or_default(v.paste_shortcut, DEFAULT_PASTE_SHORTCUT@),
        auto_copy_on_completion: v.auto_copy_on_completion,
        auto_clear_after_copy: v.auto_clear_after_copy,
        prefer_gpu: v.prefer_gpu,
    }
}

impl AppSettings {
    /// The default preferences, given the default model path and the default
    /// temporary root, which depend on the machine.
    pub fn defaults(model_path: String, temp_root: String) -> (r: AppSettings)
        ensures
            r@ == spec_defaults(model_path@, temp_root@),
    {
        AppSettings {
            model_path,
            model_profile: String::from_str(DEFAULT_MODEL_PROFILE),
            language: String::from_str(DEFAULT_LANGUAGE),
            temp_root,
            cleanup_interval_seconds: DEFAULT_CLEANUP_INTERVAL_SECONDS,
            transcript_ttl_seconds: DEFAULT_TRANSCRIPT_TTL_SECONDS,
            record_shortcut: String::from_str(DEFAULT_RECORD_SHORTCUT),
            paste_shortcut: String::from_str(DEFAULT_PASTE_SHORTCUT),
            auto_copy_on_completion: false,
            auto_clear_after_copy: false,
            prefer_gpu: true,
        }
    }

    /// Replaces blank text settings by their defaults, normalises the
    /// language and raises the sweep interval and the artefact lifetime to
    /// their floors. `default_temp_root` is the machine's default temporary
    /// root, used when the configured one is blank. The lifetime floor is the
    /// interval plus the margin, an addition that must not overflow, so an
    /// interval within the margin of `u64::MAX` is left out.
    pub fn sanitized(self, default_temp_root: String) -> (r: AppSettings)
        requires
            self.cleanup_interval_seconds <= u64::MAX - TTL_MARGIN_SECONDS,
        ensures
            r@ == spec_sanitized(self@, default_temp_root@),
    {
        let mut s = self;
        if blank(s.model_profile.as_str()) {
            s.model_profile = String::from_str(DEFAULT_MODEL_PROFILE);
        }
        s.language = normalize_language_setting(s.language.as_str());
        if blank(s.temp_root.as_str()) {
            s.temp_root = default_temp_root;
        }
        if blank(s.record_shortcut.as_str()) {
            s.record_shortcut = String::from_str(DEFAULT_RECORD_SHORTCUT);
        }
        if blank(s.paste_shortcut.as_str()) {
            s.paste_shortcut = String::from_str(DEFAULT_PASTE_SHORTCUT);
        }
        if s.cleanup_interval_seconds < MIN_CLEANUP_INTERVAL_SECONDS {
            s.cleanup_interval_seconds = MIN_CLEANUP_INTERVAL_SECONDS;
        }
        let floor = s.cleanup_interval_seconds + TTL_MARGIN_SECONDS;
        if s.transcript_ttl_seconds < floor {
            s.transcript_ttl_seconds = floor;
        }
        if s.transcript_ttl_seconds < MIN_TRANSCRIPT_TTL_SECONDS {
            s.transcript_ttl_seconds = MIN_TRANSCRIPT_TTL_SECONDS;
        }
        s
    }

    /// The configured temporary root, as a path.
    pub fn temp_root_path(&self) -> (r: String)
        ensures
            r@ == self.temp_root@,
    {
        self.temp_root.clone()
    }
}


/// Preferences that sanitising guarantees: no blank text setting that has a
/// default, a language code that is not empty, a sweep interval of at least a minute, and an artefact lifetime of
/// at least two minutes that outlasts one sweep interval by a margin.
pub open spec fn settings_valid(v: SettingsView) -> bool {
    &&& !is_blank(v.model_profile)
    &&& !is_blank(v.temp_root)
    &&& !is_blank(v.record_shortcut)
    &&& !is_blank(v.paste_shortcut)
    &&& v.language.len() > 0
    &&& v.cleanup_interval_seconds >= MIN_CLEANUP_INTERVAL_SECONDS
    &&& v.transcript_ttl_seconds >= v.cleanup_interval_seconds + TTL_MARGIN_SECONDS
    &&& v.transcript_ttl_seconds >= MIN_TRANSCRIPT_TTL_SECONDS
}

proof fn lemma_defaults_not_blank()
    ensures
        !is_blank(DEFAULT_MODEL_PROFILE@),
        !is_blank(DEFAULT_RECORD_SHORTCUT@),
        !is_blank(DEFAULT_PASTE_SHORTCUT@),
        !is_blank(DEFAULT_LANGUAGE@),
{
    reveal_strlit("small");
    reveal_strlit("CommandOrControl+Shift+Space");
    reveal_strlit("CommandOrControl+Shift+Enter");
    reveal_strlit("en");
    lemma_blank_iff_white(DEFAULT_MODEL_PROFILE@);
    lemma_blank_iff_white(DEFAULT_RECORD_SHORTCUT@);
    lemma_blank_iff_white(DEFAULT_PASTE_SHORTCUT@);
    lemma_blank_iff_white(DEFAULT_LANGUAGE@);
    assert(!is_white_space(DEFAULT_MODEL_PROFILE@[0]));
    assert(!is_white_space(DEFAULT_RECORD_SHORTCUT@[0]));
    assert(!is_white_space(DEFAULT_PASTE_SHORTCUT@[0]));
    assert(!is_white_space(DEFAULT_LANGUAGE@[0]));
}

/// Sanitised preferences are valid, provided that the machine's default
/// temporary root is not blank.
pub proof fn lemma_sanitized_is_valid(v: SettingsView, default_temp_root: Seq<char>)
    requires
        !is_blank(default_temp_root),
        v.cleanup_interval_seconds <= u64::MAX - TTL_MARGIN_SECONDS,
    ensures
        settings_valid(spec_sanitized(v, default_temp_root)),
{
    lemma_defaults_not_blank();
    reveal_strlit("en");
    assert(DEFAULT_LANGUAGE@.len() == 2);
}

/// A normalised language code is never empty, whatever the setting.
pub proof fn lemma_normalized_language_not_empty(value: Seq<char>)
    ensures
        spec_normalize_language(value).len() > 0,
{
    reveal_strlit("en");
    assert(DEFAULT_LANGUAGE@.len() == 2);
}

/// On ASCII text, normalising a language setting a second time changes
/// nothing.
pub proof fn lemma_normalize_language_idempotent(value: Seq<char>)
    requires
        is_ascii_chars(value),
    ensures
        spec_normalize_language(spec_normalize_language(value)) == spec_normalize_language(value),
        spec_trim(spec_normalize_language(value)) == spec_normalize_language(value),
{
    lemma_trim_lower_idempotent(value);
    lemma_trim_lower_trimmed(value);
    reveal_strlit("en");
    reveal_strlit("auto");
    reveal_strlit("english");
    reveal_strlit("en-us");
    reveal_strlit("en-gb");
    let en = DEFAULT_LANGUAGE@;
    assert(is_ascii_chars(en));
    assert(!is_white_space(en[0]) && !is_white_space(en.last()));
    lemma_trim_fixed(en);
    assert(ascii_lower(en) =~= en);
    assert(spec_trim_lower(en) == en);
    assert(en != "auto"@ && en != "english"@ && en != "en-us"@ && en != "en-gb"@);
}

/// Sanitising preferences whose language setting is ASCII text a second time
/// changes nothing.
pub proof fn lemma_sanitized_idempotent(v: SettingsView, default_temp_root: Seq<char>)
    requires
        v.cleanup_interval_seconds <= u64::MAX - TTL_MARGIN_SECONDS,
        is_ascii_chars(v.language),
    ensures
        spec_sanitized(v, default_temp_root).cleanup_interval_seconds <= u64::MAX
            - TTL_MARGIN_SECONDS,
        spec_sanitized(spec_sanitized(v, default_temp_root), default_temp_root) == spec_sanitized(
            v,
            default_temp_root,
        ),
{
    lemma_normalize_language_idempotent(v.language);
}


/// The defaults are left as they are by sanitising, and are valid, when the
/// default temporary root is not blank.
pub proof fn lemma_defaults_are_sanitized(
    model_path: Seq<char>,
    temp_root: Seq<char>,
    default_temp_root: Seq<char>,
)
    requires
        !is_blank(temp_root),
    ensures
        spec_sanitized(spec_defaults(model_path, temp_root), default_temp_root) == spec_defaults(
            model_path,
            temp_root,
        ),
        settings_valid(spec_defaults(model_path, temp_root)),
{
    lemma_defaults_not_blank();
    reveal_strlit("en");
    let en = DEFAULT_LANGUAGE@;
    assert(is_ascii_chars(en));
    lemma_normalize_language_idempotent(en);
    assert(!is_white_space(en[0]) && !is_white_space(en.last()));
    lemma_trim_fixed(en);
    assert(ascii_lower(en) =~= en);
    reveal_strlit("auto");
    reveal_strlit("english");
    reveal_strlit("en-us");
    reveal_strlit("en-gb");
    assert(en != "auto"@ && en != "english"@ && en != "en-us"@ && en != "en-gb"@);
    assert(spec_normalize_language(en) == en);
}


/// A language setting is passed through as its trimmed, lowercased text,
/// except that an empty text and the generic English spellings `auto`,
/// `english`, `en-us` and `en-gb` become `en`; no other setting changes.
pub proof fn lemma_language_passed_through(value: Seq<char>)
    ensures
        ({
            let l = spec_trim_lower(value);
            let generic = l.len() == 0 || l == seq!['a', 'u', 't', 'o'] || l == seq!['e', 'n', 'g', 'l', 'i', 's', 'h'] || l == seq!['e', 'n', '-', 'u', 's'] || l == seq!['e', 'n', '-', 'g', 'b'];
            &&& generic ==> spec_normalize_language(value) == seq!['e', 'n']
            &&& !generic ==> spec_normalize_language(value) == l
        }),
{
    reveal_strlit("en");
    reveal_strlit("auto");
    reveal_strlit("english");
    reveal_strlit("en-us");
    reveal_strlit("en-gb");
    assert("en"@ =~= seq!['e', 'n']);
    assert("auto"@ =~= seq!['a', 'u', 't', 'o']);
    assert("english"@ =~= seq!['e', 'n', 'g', 'l', 'i', 's', 'h']);
    assert("en-us"@ =~= seq!['e', 'n', '-', 'u', 's']);
    assert("en-gb"@ =~= seq!['e', 'n', '-', 'g', 'b']);
}

} // verus!
