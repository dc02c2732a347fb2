use reelsynth_ui::text::{lower_trimmed_chars, str_ends_with, str_eq, truncate_status};
use reelsynth_ui::widgets::{format_unison, ButtonState, KnobStyle};

#[test]
fn status_truncation() {
    assert_eq!(truncate_status("ready", 10), "ready");
    assert_eq!(truncate_status("ready", 5), "ready");
    assert_eq!(truncate_status("loading bank", 5), "load…");
    assert_eq!(truncate_status("été chaud", 3), "ét…");
    assert_eq!(truncate_status("abc", 0), "…");
    assert_eq!(truncate_status("", 0), "");
}

#[test]
fn unison_labels() {
    assert_eq!(format_unison(0), "1 voice");
    assert_eq!(format_unison(1), "1 voice");
    assert_eq!(format_unison(7), "7 voices");
    assert_eq!(format_unison(16), "16 voices");
}

#[test]
fn small_helpers() {
    assert!(str_eq("abc", "abc"));
    assert!(!str_eq("abc", "abd"));
    assert!(str_ends_with("osc1_level", "_level"));
    assert!(!str_ends_with("el", "_level"));
    let b = ButtonState::default();
    assert!(!b.active && b.enabled);
    assert!(ButtonState::toggle(true).active);
    assert!(!KnobStyle::Disabled.is_enabled());
    assert!(KnobStyle::default().is_enabled());
}

#[test]
fn trimming_matches_std_white_space() {
    let samples = [
        "\u{9}\u{a}\u{b}\u{c}\u{d} Ab \u{85}",
        "\u{a0}\u{1680}x\u{2000}\u{200a}",
        "\u{2028}\u{2029}\u{202f}Y z\u{205f}\u{3000}",
        "\u{200b}keep\u{200b}",
        "   ",
        "",
    ];
    for s in samples {
        let expected: Vec<char> = s.trim().to_ascii_lowercase().chars().collect();
        assert_eq!(lower_trimmed_chars(s), expected);
    }
}
