use photo_restore_ui::latest::{is_hidden, latest_entry_index, pick_latest_file, FileEntry};

fn entry(name: &str, is_file: bool, modified: i128) -> FileEntry {
    FileEntry {
        path: format!("/out/final_output/{name}"),
        name: name.to_string(),
        is_file,
        modified,
    }
}

#[test]
fn picks_the_newest_file() {
    let es = vec![entry("a.png", true, 10), entry("b.png", true, 30), entry("c.png", true, 20)];
    assert_eq!(pick_latest_file(&es), Some("/out/final_output/b.png".to_string()));
    assert_eq!(latest_entry_index(&es), Some(1));
}

#[test]
fn empty_listing_gives_none() {
    assert_eq!(pick_latest_file(&Vec::new()), None);
}

#[test]
fn hidden_and_non_regular_entries_are_skipped() {
    let es = vec![
        entry(".DS_Store", true, 100),
        entry("sub", false, 90),
        entry("old.png", true, 5),
    ];
    assert_eq!(pick_latest_file(&es), Some("/out/final_output/old.png".to_string()));
    let only_skipped = vec![entry(".hidden", true, 1), entry("dir", false, 2)];
    assert_eq!(pick_latest_file(&only_skipped), None);
}

#[test]
fn equal_times_keep_the_first_listed() {
    let es = vec![entry("x.png", true, 7), entry("y.png", true, 7)];
    assert_eq!(pick_latest_file(&es), Some("/out/final_output/x.png".to_string()));
}

#[test]
fn times_before_the_epoch() {
    let es = vec![entry("x.png", true, -50), entry("y.png", true, -10)];
    assert_eq!(latest_entry_index(&es), Some(1));
}

#[test]
fn hidden_names() {
    assert!(is_hidden(".x"));
    assert!(!is_hidden("x."));
    assert!(!is_hidden(""));
}
