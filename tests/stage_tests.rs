use photo_restore_ui::stage::{contains_str, next_stage, stage_after_lines, stage_from_line};

#[test]
fn classifies_each_marker() {
    assert_eq!(stage_from_line("Running Stage 1: Overall restoration"), Some(1));
    assert_eq!(stage_from_line("Running Stage 2: Face Detection"), Some(2));
    assert_eq!(stage_from_line("Running Stage 3: Face Enhancement"), Some(3));
    assert_eq!(stage_from_line("Running Stage 4: Blending"), Some(4));
}

#[test]
fn stage_three_regardless_of_surrounding_text() {
    assert_eq!(stage_from_line("Running Stage 3"), Some(3));
    assert_eq!(stage_from_line(">>> [info] Running Stage 3 now <<<"), Some(3));
    assert_eq!(stage_from_line("xRunning Stage 3x"), Some(3));
}

#[test]
fn unclassified_lines() {
    assert_eq!(stage_from_line(""), None);
    assert_eq!(stage_from_line("processing image 3 of 10"), None);
    assert_eq!(stage_from_line("Running Stage 5"), None);
    assert_eq!(stage_from_line("running stage 2"), None);
    assert_eq!(stage_from_line("Running Stage"), None);
}

#[test]
fn stage_three_marker_wins_in_a_line_with_several() {
    assert_eq!(stage_from_line("Running Stage 3 after Running Stage 1"), Some(3));
    assert_eq!(stage_from_line("Running Stage 1 Running Stage 3"), Some(3));
    assert_eq!(stage_from_line("Running Stage 2 then Running Stage 3"), Some(3));
    assert_eq!(stage_from_line("Running Stage 2 then Running Stage 1"), Some(1));
}

#[test]
fn unclassified_line_keeps_current_stage() {
    assert_eq!(next_stage(Some(2), "loading weights"), Some(2));
    assert_eq!(next_stage(None, "loading weights"), None);
    assert_eq!(next_stage(Some(2), "Running Stage 4"), Some(4));
}

#[test]
fn fold_over_lines() {
    let lines = vec![
        "Running Stage 1".to_string(),
        "chatter".to_string(),
        "Running Stage 3".to_string(),
        "more chatter".to_string(),
    ];
    assert_eq!(stage_after_lines(Some(0), &lines), Some(3));
    assert_eq!(stage_after_lines(Some(0), &Vec::new()), Some(0));
}

#[test]
fn substring_search() {
    assert!(contains_str("abcabd", "abd"));
    assert!(contains_str("abc", ""));
    assert!(!contains_str("ab", "abc"));
    assert!(!contains_str("aXbc", "abc"));
    assert!(contains_str("héllo wörld", "wö"));
}
