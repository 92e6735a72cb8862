//! Tests for the pure UI text helpers (no terminal required).

use what_you_shouldnt_care_about_in_2026::ui::{
    format_menu, normalize_terminal_text, onboarding_text,
};

#[test]
fn onboarding_mentions_controls_and_verdict_threshold() {
    let text = onboarding_text();
    assert!(text.contains("Esc"));
    assert!(text.contains("Enter"));
    assert!(text.contains("three segments"));
    assert!(text.contains("without losing progress"));
}

#[test]
fn menu_marks_completed_segments() {
    let done = vec!["elevator".to_owned()];
    let segments = [
        ("elevator", "Elevator in the Skyscraper"),
        ("radio", "Radio Receiver"),
        ("mirror", "Mirror Corridor"),
    ];
    let menu = format_menu(&segments, &done, 0, false);
    assert!(menu.contains("elevator"));
    assert!(menu.contains("[done]"));
    assert!(menu.contains("radio"));
    assert!(!menu.contains("Radio Receiver [done]"));
}

#[test]
fn menu_exact_text_with_cursor() {
    let done = vec!["radio".to_owned()];
    let segments = [("elevator", "Elevator"), ("radio", "Radio")];
    assert_eq!(
        format_menu(&segments, &done, 1, true),
        "SEGMENT MENU\r\nChoose a segment (press the number or arrow + Enter):\r\n  1. Elevator (elevator)\r\n> 2. Radio (radio) [done]\r\nPress Enter to start the highlighted segment. Esc returns to the menu.\r\n"
    );
    assert_eq!(
        format_menu(&segments, &[], 1, false),
        "SEGMENT MENU\r\nChoose a segment (press the number or arrow + Enter):\r\n1. Elevator (elevator)\r\n2. Radio (radio)\r\nPress Enter to start the highlighted segment. Esc returns to the menu.\r\n"
    );
}

#[test]
fn terminal_text_uses_crlf_line_endings() {
    assert_eq!(normalize_terminal_text("a\nb\r\nc\r"), "a\r\nb\r\nc");
    assert_eq!(normalize_terminal_text(""), "");
    assert_eq!(normalize_terminal_text("\n\n"), "\r\n\r\n");
}
