use deo_core::bold::remove_bold_markers;
use deo_core::emoji::is_emoji_char;
use deo_core::emoji::remove_emojis;
use deo_core::process_text;

#[test]
fn test_remove_bold_markers() {
    assert_eq!(remove_bold_markers("**bold** text"), "bold text");
    assert_eq!(remove_bold_markers("no markers"), "no markers");
    assert_eq!(
        remove_bold_markers("**multiple** **markers**"),
        "multiple markers"
    );
}

#[test]
fn test_remove_emojis() {
    assert_eq!(remove_emojis("hello \u{1F600} world"), "hello  world");
    assert_eq!(remove_emojis("no emoji"), "no emoji");
    assert_eq!(
        remove_emojis("\u{1F389} celebration \u{1F38A}"),
        " celebration "
    );
}

#[test]
fn test_process_text() {
    assert_eq!(
        process_text("**bold** \u{1F600} text", false),
        "bold \u{1F600} text"
    );
    assert_eq!(process_text("**bold** \u{1F600} text", true), "bold  text");
}

#[test]
fn test_remove_bold_markers_odd_runs() {
    assert_eq!(remove_bold_markers("***"), "*");
    assert_eq!(remove_bold_markers("****"), "");
    assert_eq!(remove_bold_markers("*"), "*");
    assert_eq!(remove_bold_markers("* a * b *"), "* a * b *");
    assert_eq!(remove_bold_markers("a**\n**b"), "a\nb");
}

#[test]
fn test_result_never_contains_marker() {
    for s in ["a***b****", "*****", "** ** **", "x*y**z***"] {
        assert!(!remove_bold_markers(s).contains("**"));
    }
}

#[test]
fn test_result_never_contains_emoji() {
    for s in [
        "hello \u{1F600} world",
        "\u{2600}\u{26FF}\u{2700}\u{27BF}plain",
        "\u{231A}\u{23F3}\u{2B50}\u{3299} mixed \u{1FAFF}",
    ] {
        assert!(!remove_emojis(s).chars().any(is_emoji_char));
    }
}

#[test]
fn test_emoji_range_boundaries() {
    assert!(is_emoji_char('\u{1F600}'));
    assert!(is_emoji_char('\u{1F64F}'));
    assert!(!is_emoji_char('\u{1F650}'));
    assert!(is_emoji_char('\u{2600}'));
    assert!(!is_emoji_char('\u{25FF}'));
    assert!(is_emoji_char('\u{25B6}'));
    assert!(!is_emoji_char('\u{25B7}'));
    assert!(is_emoji_char('\u{FE00}'));
    assert!(is_emoji_char('\u{FE0F}'));
    assert!(is_emoji_char('\u{2B50}'));
    assert!(!is_emoji_char('a'));
    assert!(!is_emoji_char('*'));
}

#[test]
fn test_variation_selector_removed_piecewise() {
    assert_eq!(remove_emojis("x\u{2764}\u{FE0F}y"), "xy");
}

#[test]
fn test_empty_input() {
    assert_eq!(remove_bold_markers(""), "");
    assert_eq!(remove_emojis(""), "");
    assert_eq!(process_text("", false), "");
    assert_eq!(process_text("", true), "");
}

#[test]
fn test_process_twice_fixed_flag() {
    let once = process_text("**bold** \u{1F600} text", true);
    assert_eq!(process_text(&once, true), once);
    let once_kept = process_text("**a** * b \u{2B50}", false);
    assert_eq!(process_text(&once_kept, false), once_kept);
}

#[test]
fn test_emoji_removal_can_uncover_marker() {
    assert_eq!(process_text("*\u{1F600}*", true), "**");
}
