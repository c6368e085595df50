use tajagi::commands::composer::{
    capture_focus, composer_history_fields, plan_commit, remember_focus, remember_focus_on_open,
    should_commit, should_deliver_voice_input, take_captured_focus, CapturedFocus,
};

#[test]
fn empty_and_whitespace_text_never_commits() {
    assert!(!should_commit(""));
    assert!(!should_commit("   "));
    assert!(!should_commit("\n\t\r\n"));
    assert!(!should_commit("\u{00A0}\u{3000}"));
}

#[test]
fn non_blank_text_commits() {
    assert!(should_commit("안녕하세요"));
    assert!(should_commit("  hello world  "));
    assert!(should_commit("한\n글"));
}

#[test]
fn composer_history_fields_plain_commit_is_the_source() {
    let (file_name, from, requested, to, prompt) =
        composer_history_fields("안녕하세요", None, None);
    assert_eq!(file_name, "composer");
    assert_eq!(from, "안녕하세요");
    assert!(!requested);
    assert_eq!(to, None);
    assert_eq!(prompt, None);
}

#[test]
fn composer_history_fields_transform_captures_from_to() {
    let (file_name, from, requested, to, prompt) =
        composer_history_fields("polished text", Some("raw draft"), Some("polish"));
    assert_eq!(file_name, "composer");
    assert_eq!(from, "raw draft");
    assert!(requested);
    assert_eq!(to, Some("polished text".to_string()));
    assert_eq!(prompt, Some("polish".to_string()));
}

#[test]
fn composer_history_fields_identical_original_is_not_a_transform() {
    let (_, _, requested, to, _) = composer_history_fields("same", Some("same"), Some("polish"));
    assert!(!requested);
    assert_eq!(to, None);
}

#[test]
fn history_fields_ignore_surrounding_whitespace_when_comparing() {
    let (_, from, requested, to, prompt) =
        composer_history_fields("same", Some("  same\n"), None);
    assert_eq!(from, "  same\n");
    assert!(!requested);
    assert_eq!(to, None);
    assert_eq!(prompt, None);
}

#[test]
fn blank_commit_plans_nothing() {
    assert_eq!(plan_commit(" \u{3000}\t", Some("draft"), Some("polish")), None);
    assert_eq!(plan_commit("", None, None), None);
    let plan = plan_commit("done", Some("draft"), Some("custom")).unwrap();
    assert_eq!(plan.0, "composer");
    assert_eq!(plan.1, "draft");
    assert!(plan.2);
    assert_eq!(plan.3, Some("done".to_string()));
    assert_eq!(plan.4, Some("custom".to_string()));
}

#[test]
fn focus_is_taken_once() {
    let mut slot = None;
    remember_focus(&mut slot, Some(CapturedFocus { raw: 42 }));
    assert_eq!(take_captured_focus(&mut slot), Some(CapturedFocus { raw: 42 }));
    assert_eq!(take_captured_focus(&mut slot), None);
}

#[test]
fn own_window_is_never_captured() {
    assert_eq!(capture_focus(Some((7, 100)), 100), None);
    assert_eq!(capture_focus(None, 100), None);
    assert_eq!(capture_focus(Some((7, 55)), 100), Some(CapturedFocus { raw: 7 }));

    // Re-opening while the composer is frontmost keeps the earlier capture.
    let mut slot = Some(CapturedFocus { raw: 3 });
    remember_focus_on_open(&mut slot, Some((9, 100)), 100);
    assert_eq!(slot, Some(CapturedFocus { raw: 3 }));
    remember_focus_on_open(&mut slot, Some((9, 5)), 100);
    assert_eq!(slot, Some(CapturedFocus { raw: 9 }));
}

#[test]
fn voice_input_goes_to_a_visible_focused_composer_only() {
    assert!(should_deliver_voice_input("hello", true, true));
    assert!(!should_deliver_voice_input("hello", true, false));
    assert!(!should_deliver_voice_input("hello", false, true));
    assert!(!should_deliver_voice_input("  \n", true, true));
}
