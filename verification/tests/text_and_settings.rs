use local_voice::settings::{
    normalize_language_setting, AppSettings, DEFAULT_PASTE_SHORTCUT, DEFAULT_RECORD_SHORTCUT,
};
use local_voice::text::{blank, contains, decimal_text, has_char, same_text, trim, trim_lower};

fn settings(language: &str, cleanup: u64, ttl: u64) -> AppSettings {
    AppSettings {
        model_path: String::from("/models/small"),
        model_profile: String::from("medium"),
        language: String::from(language),
        temp_root: String::from("/tmp/voice"),
        cleanup_interval_seconds: cleanup,
        transcript_ttl_seconds: ttl,
        record_shortcut: String::from("Alt+R"),
        paste_shortcut: String::from("Alt+P"),
        auto_copy_on_completion: true,
        auto_clear_after_copy: false,
        prefer_gpu: false,
    }
}

#[test]
fn trim_removes_unicode_white_space() {
    assert_eq!(trim("  \t hello world \n"), "hello world");
    assert_eq!(trim("\u{3000}\u{a0}x\u{2028}"), "x");
    assert_eq!(trim("   "), "");
    assert_eq!(trim(""), "");
    assert_eq!(trim("a b"), "a b");
}

#[test]
fn blank_matches_std_trim() {
    for s in ["", " ", "\t\n", "\u{85}", "x", " x ", "\u{200b}"] {
        assert_eq!(blank(s), s.trim().is_empty(), "{s:?}");
    }
}

#[test]
fn substring_search() {
    assert!(contains("gnome-terminal-server", "terminal"));
    assert!(contains("abc", ""));
    assert!(!contains("ab", "abc"));
    assert!(!contains("xterx", "xterm"));
    assert!(has_char("a/b", '/'));
    assert!(!has_char("ab", '/'));
    assert!(same_text("ready", "ready"));
    assert!(!same_text("ready", "Ready"));
}

#[test]
fn trim_lower_handles_case_and_unicode() {
    assert_eq!(trim_lower("  ReAdY "), "ready");
    assert_eq!(trim_lower(" ÄRGER "), "ärger");
}

#[test]
fn decimal_text_writes_numbers() {
    assert_eq!(decimal_text(0), "0");
    assert_eq!(decimal_text(7), "7");
    assert_eq!(decimal_text(1725029869123), "1725029869123");
    assert_eq!(decimal_text(u128::MAX), u128::MAX.to_string());
}

#[test]
fn language_normalisation() {
    assert_eq!(normalize_language_setting(""), "en");
    assert_eq!(normalize_language_setting("  AUTO "), "en");
    assert_eq!(normalize_language_setting("English"), "en");
    assert_eq!(normalize_language_setting("en-US"), "en");
    assert_eq!(normalize_language_setting("en-gb"), "en");
    assert_eq!(normalize_language_setting(" DE "), "de");
    assert_eq!(normalize_language_setting("Français"), "français");
}

#[test]
fn language_normalisation_is_idempotent() {
    for v in ["", "Auto", " DE ", "en-GB", "pt-BR", "\tFr\n"] {
        let once = normalize_language_setting(v);
        assert_eq!(normalize_language_setting(&once), once);
    }
}

#[test]
fn defaults_hold_documented_values() {
    let d = AppSettings::defaults(String::new(), String::from("/tmp/local-voice"));
    assert_eq!(d.model_profile, "small");
    assert_eq!(d.language, "en");
    assert_eq!(d.temp_root, "/tmp/local-voice");
    assert_eq!(d.cleanup_interval_seconds, 300);
    assert_eq!(d.transcript_ttl_seconds, 900);
    assert_eq!(d.record_shortcut, "CommandOrControl+Shift+Space");
    assert_eq!(d.paste_shortcut, "CommandOrControl+Shift+Enter");
    assert!(!d.auto_copy_on_completion);
    assert!(!d.auto_clear_after_copy);
    assert!(d.prefer_gpu);
    assert_eq!(d.temp_root_path(), "/tmp/local-voice");
}

#[test]
fn sanitized_raises_floors() {
    let s = settings("en", 10, 5).sanitized(String::from("/tmp/default"));
    assert_eq!(s.cleanup_interval_seconds, 60);
    assert_eq!(s.transcript_ttl_seconds, 120);
    let s = settings("en", 500, 100).sanitized(String::from("/tmp/default"));
    assert_eq!(s.cleanup_interval_seconds, 500);
    assert_eq!(s.transcript_ttl_seconds, 560);
    let s = settings("en", 300, 900).sanitized(String::from("/tmp/default"));
    assert_eq!(s.cleanup_interval_seconds, 300);
    assert_eq!(s.transcript_ttl_seconds, 900);
}

#[test]
fn sanitized_fills_blank_text_settings() {
    let mut raw = settings(" English ", 300, 900);
    raw.model_profile = String::from("  ");
    raw.temp_root = String::new();
    raw.record_shortcut = String::from("\t");
    raw.paste_shortcut = String::from(" ");
    let s = raw.sanitized(String::from("/tmp/default"));
    assert_eq!(s.model_profile, "small");
    assert_eq!(s.language, "en");
    assert_eq!(s.temp_root, "/tmp/default");
    assert_eq!(s.record_shortcut, DEFAULT_RECORD_SHORTCUT);
    assert_eq!(s.paste_shortcut, DEFAULT_PASTE_SHORTCUT);
    assert_eq!(s.model_path, "/models/small");
    assert!(s.auto_copy_on_completion);
    assert!(!s.prefer_gpu);
}

#[test]
fn sanitized_keeps_filled_text_settings() {
    let s = settings("de", 300, 900).sanitized(String::from("/tmp/default"));
    assert_eq!(s.model_profile, "medium");
    assert_eq!(s.temp_root, "/tmp/voice");
    assert_eq!(s.record_shortcut, "Alt+R");
    assert_eq!(s.paste_shortcut, "Alt+P");
    assert_eq!(s.language, "de");
}

#[test]
fn sanitized_twice_is_sanitized_once() {
    let once = settings(" EN-us ", 7, 3).sanitized(String::from("/tmp/d"));
    let c1 = once.cleanup_interval_seconds;
    let t1 = once.transcript_ttl_seconds;
    let l1 = once.language.clone();
    let twice = once.sanitized(String::from("/tmp/d"));
    assert_eq!(twice.cleanup_interval_seconds, c1);
    assert_eq!(twice.transcript_ttl_seconds, t1);
    assert_eq!(twice.language, l1);
}

#[test]
fn sanitized_accepts_largest_interval() {
    let s = settings("en", u64::MAX - 60, 0).sanitized(String::from("/tmp/d"));
    assert_eq!(s.transcript_ttl_seconds, u64::MAX);
}

#[test]
fn defaults_survive_sanitising() {
    let d = AppSettings::defaults(String::from("/models/m"), String::from("/tmp/local-voice"));
    let s = d.clone().sanitized(String::from("/elsewhere"));
    assert_eq!(s.model_path, d.model_path);
    assert_eq!(s.model_profile, d.model_profile);
    assert_eq!(s.language, d.language);
    assert_eq!(s.temp_root, d.temp_root);
    assert_eq!(s.cleanup_interval_seconds, d.cleanup_interval_seconds);
    assert_eq!(s.transcript_ttl_seconds, d.transcript_ttl_seconds);
    assert_eq!(s.record_shortcut, d.record_shortcut);
    assert_eq!(s.paste_shortcut, d.paste_shortcut);
}
