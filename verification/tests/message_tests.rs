use chat_export::message::classify;
use chat_export::message::classify_row;
use chat_export::message::compose_line;
use chat_export::message::render_code;
use chat_export::message::render_entry_line;
use chat_export::message::render_nat;

#[test]
fn text_code_passes_text_through_unchanged() {
    assert_eq!(classify(1, "hello there".to_string()), "hello there");
}

#[test]
fn image_code_renders_placeholder() {
    assert_eq!(classify(3, "ignored".to_string()), "Image");
}

#[test]
fn known_codes_render_their_labels() {
    assert_eq!(classify(34, String::new()), "Voice");
    assert_eq!(classify(42, String::new()), "Share User");
    assert_eq!(classify(43, String::new()), "Video");
    assert_eq!(classify(47, String::new()), "Emoji");
    assert_eq!(classify(48, String::new()), "Location");
    assert_eq!(classify(49, String::new()), "App Message");
    assert_eq!(classify(50, String::new()), "Voice Call");
}

#[test]
fn recall_code_reuses_the_text_field() {
    assert_eq!(classify(10000, "You recalled a message".to_string()), "You recalled a message");
}

#[test]
fn system_code_renders_system_message() {
    assert_eq!(classify(10002, "ignored".to_string()), "System Message");
}

#[test]
fn unknown_code_is_rendered_not_dropped() {
    assert_eq!(classify(99999, "x".to_string()), "Unknown message type: 99999");
}

#[test]
fn negative_unknown_code_renders_with_sign() {
    assert_eq!(classify(-7, String::new()), "Unknown message type: -7");
}

#[test]
fn decimal_rendering_matches_expected_digits() {
    assert_eq!(render_nat(0), "0");
    assert_eq!(render_nat(907), "907");
    assert_eq!(render_code(i64::MIN), "-9223372036854775808");
    assert_eq!(render_code(i64::MAX), "9223372036854775807");
}

#[test]
fn self_authored_needs_text_type_and_self_direction() {
    assert!(classify_row(0, 1, 1, "hi".to_string()).self_authored);
    assert!(!classify_row(0, 1, 0, "hi".to_string()).self_authored);
    assert!(!classify_row(0, 3, 1, "hi".to_string()).self_authored);
}

#[test]
fn compose_line_joins_time_and_text_with_a_space() {
    assert_eq!(compose_line("12:00", "hi"), "12:00 hi");
}

#[test]
fn entry_line_renders_the_epoch_date() {
    let e = classify_row(0, 1, 0, "hi".to_string());
    assert_eq!(render_entry_line(&e), "1970-01-01T00:00:00 hi");
}

#[test]
fn entry_line_renders_a_known_timestamp() {
    let e = classify_row(1467964211, 3, 0, String::new());
    assert_eq!(render_entry_line(&e), "2016-07-08T07:50:11 Image");
}
