use photo_restore_ui::layout::{
    greet, is_blank, project_root, requested_output_folder, resolve_output_folder, stage_dir_names, worker_args,
    FINAL_STAGE_DIR_NAME,
};

#[test]
fn worker_args_without_flags() {
    let a = worker_args("/p/run.py", "/in", "/out", "0", false, false);
    assert_eq!(
        a,
        vec!["-u", "/p/run.py", "--input_folder", "/in", "--output_folder", "/out", "--GPU", "0"]
    );
}

#[test]
fn worker_args_with_flags() {
    let a = worker_args("run.py", "i", "o", "-1", true, true);
    assert_eq!(
        a,
        vec!["-u", "run.py", "--input_folder", "i", "--output_folder", "o", "--GPU", "-1", "--with_scratch", "--HR"]
    );
    let b = worker_args("run.py", "i", "o", "0", false, true);
    assert_eq!(b.last().map(|s| s.as_str()), Some("--HR"));
    assert_eq!(b.len(), 9);
    let c = worker_args("run.py", "i", "o", "0", true, false);
    assert_eq!(c.last().map(|s| s.as_str()), Some("--with_scratch"));
}

#[test]
fn stage_dirs_in_order() {
    let d = stage_dir_names();
    assert_eq!(
        d,
        vec!["stage_1_restore_output", "stage_2_detection_output", "stage_3_face_output", "final_output"]
    );
    assert_eq!(d[3], FINAL_STAGE_DIR_NAME);
}

#[test]
fn blank_output_folder_selects_default() {
    assert_eq!(requested_output_folder(None), None);
    assert_eq!(requested_output_folder(Some(String::new())), None);
    assert_eq!(requested_output_folder(Some(" \t\n".to_string())), None);
    assert_eq!(requested_output_folder(Some(" out ".to_string())), Some(" out ".to_string()));
    assert!(is_blank("\u{3000}"));
    assert!(!is_blank(" a "));
}

#[test]
fn project_root_is_two_levels_up() {
    assert_eq!(project_root("/home/u/proj/ui/src-tauri"), Ok("/home/u/proj".to_string()));
}

#[test]
fn project_root_errors() {
    assert_eq!(project_root("/"), Err("Unable to locate ui directory".to_string()));
    assert_eq!(project_root(""), Err("Unable to locate ui directory".to_string()));
    assert_eq!(project_root("/ui"), Err("Unable to locate project root directory".to_string()));
}

#[test]
fn greeting() {
    assert_eq!(greet("Ada"), "Hello, Ada! You've been greeted from Rust!");
}

#[test]
fn output_folder_resolution() {
    assert_eq!(resolve_output_folder("/proj", None), "/proj/output_gui");
    assert_eq!(resolve_output_folder("/proj", Some("  ".to_string())), "/proj/output_gui");
    assert_eq!(resolve_output_folder("/proj", Some("runs/a".to_string())), "/proj/runs/a");
    assert_eq!(resolve_output_folder("/proj", Some("/abs/out".to_string())), "/abs/out");
}
