use fsnav::file_info::FileInfo;
use fsnav::file_ops::{Operation, OpsUnit};
use fsnav::file_system_info::{FileSys, FsOpKind, StatusFlag, Step, MAX_HISTORY_SIZE};
use fsnav::path::FsPath;
use std::collections::VecDeque;

fn path(parts: &[&str]) -> FsPath {
    FsPath::from_parts(parts.iter().map(|s| s.to_string()).collect())
}

fn parts(p: &FsPath) -> Vec<String> {
    p.parts().clone()
}

fn entry(dir: &[&str], name: &str, size: u64, is_dir: bool) -> FileInfo {
    let mut p: Vec<&str> = dir.to_vec();
    p.push(name);
    FileInfo { name: name.to_string(), path: path(&p), size, is_dir }
}

fn tmp_a_listing() -> Vec<FileInfo> {
    vec![
        entry(&["tmp", "a"], "b.txt", 12, false),
        entry(&["tmp", "a"], "B.txt", 7, false),
        entry(&["tmp", "a"], "sub", 0, true),
    ]
}

fn tmp_a() -> FileSys {
    FileSys::init(path(&["tmp", "a"]), tmp_a_listing())
}

fn names(fs: &FileSys) -> Vec<String> {
    fs.files().iter().map(|f| f.name.clone()).collect()
}

fn index_of(fs: &FileSys, name: &str) -> usize {
    fs.files().iter().position(|f| f.name == name).unwrap()
}

fn op_of(step: &Step) -> (FsOpKind, Vec<String>, Vec<String>) {
    match step {
        Step::Perform(op) => (op.kind, parts(&op.source), parts(&op.target)),
        _ => panic!("no change handed out"),
    }
}

fn strings(v: &[&str]) -> Vec<String> {
    v.iter().map(|s| s.to_string()).collect()
}

#[test]
fn listing_puts_directories_first_then_case_sensitive_names() {
    let fs = tmp_a();
    assert_eq!(names(&fs), strings(&["sub", "B.txt", "b.txt"]));
    assert_eq!(fs.status_info(), "Ready");
    assert_eq!(fs.status_flag(), StatusFlag::Ready);
    assert_eq!(fs.selected_index(), None);
}

#[test]
fn listing_orders_mixed_entries() {
    let dir = ["d"];
    let listing = vec![
        entry(&dir, "zeta", 1, false),
        entry(&dir, "Alpha", 1, true),
        entry(&dir, "alpha", 1, false),
        entry(&dir, "beta", 1, true),
        entry(&dir, "_x", 1, false),
        entry(&dir, "ab", 1, false),
        entry(&dir, "a", 1, false),
        entry(&dir, "é", 1, false),
    ];
    let fs = FileSys::init(path(&dir), listing);
    assert_eq!(
        names(&fs),
        strings(&["Alpha", "beta", "_x", "a", "ab", "alpha", "zeta", "é"])
    );
}

#[test]
fn listing_of_empty_directory_is_empty() {
    let fs = FileSys::init(path(&["e"]), Vec::new());
    assert!(fs.files().is_empty());
}

#[test]
fn select_out_of_range_changes_nothing() {
    let mut fs = tmp_a();
    fs.select_current(3);
    assert_eq!(fs.selected_index(), None);
    assert_eq!(fs.status_info(), "Ready");
    fs.select_current(1);
    assert_eq!(fs.selected_index(), Some(1));
    assert_eq!(fs.status_info(), "Selected: B.txt");
    assert_eq!(fs.status_flag(), StatusFlag::Others);
}

#[test]
fn copy_then_paste_into_subdirectory() {
    let mut fs = tmp_a();
    fs.select_current(index_of(&fs, "b.txt"));
    fs.copy_selected(true);
    assert_eq!(fs.status_info(), "Copied: b.txt");
    let sub = index_of(&fs, "sub");
    fs.select_current(sub);
    assert!(matches!(fs.sub_dir(sub), Step::Reload));
    fs.finish(Ok(Vec::new()));
    assert_eq!(parts(fs.current_dir()), strings(&["tmp", "a", "sub"]));
    let (src, dst) = fs.paste_paths().unwrap();
    assert_eq!(parts(&src), strings(&["tmp", "a", "b.txt"]));
    assert_eq!(parts(&dst), strings(&["tmp", "a", "sub", "b.txt"]));
    let step = fs.paste(true, false);
    assert_eq!(
        op_of(&step),
        (FsOpKind::CopyFile, strings(&["tmp", "a", "b.txt"]), strings(&["tmp", "a", "sub", "b.txt"]))
    );
    fs.finish(Ok(vec![entry(&["tmp", "a", "sub"], "b.txt", 12, false)]));
    assert_eq!(fs.status_info(), "Pasted: b.txt");
    assert_eq!(fs.files()[0].size, 12);
    // the clipboard stays for another paste
    assert!(fs.paste_paths().is_some());
}

#[test]
fn cut_paste_and_undo_moves_back() {
    let mut fs = tmp_a();
    fs.select_current(index_of(&fs, "b.txt"));
    fs.copy_selected(false);
    assert_eq!(fs.status_info(), "Cut: b.txt");
    let sub = index_of(&fs, "sub");
    fs.select_current(sub);
    let step = fs.paste(true, false);
    assert_eq!(
        op_of(&step),
        (FsOpKind::Move, strings(&["tmp", "a", "b.txt"]), strings(&["tmp", "a", "sub", "b.txt"]))
    );
    fs.finish(Ok(vec![entry(&["tmp", "a"], "B.txt", 7, false), entry(&["tmp", "a"], "sub", 0, true)]));
    assert_eq!(names(&fs), strings(&["sub", "B.txt"]));
    let target = fs.undo_target().unwrap();
    assert_eq!(parts(&target), strings(&["tmp", "a", "sub", "b.txt"]));
    let step = fs.undo(true, false);
    assert_eq!(
        op_of(&step),
        (FsOpKind::Move, strings(&["tmp", "a", "sub", "b.txt"]), strings(&["tmp", "a", "b.txt"]))
    );
    fs.finish(Ok(tmp_a_listing()));
    assert_eq!(fs.status_info(), "Undone");
    assert_eq!(names(&fs), strings(&["sub", "B.txt", "b.txt"]));
    assert!(fs.undo_target().is_none());
}

#[test]
fn paste_onto_existing_target_is_refused() {
    let mut fs = tmp_a();
    fs.select_current(index_of(&fs, "b.txt"));
    fs.copy_selected(true);
    fs.clear_selection();
    let step = fs.paste(true, true);
    assert!(matches!(step, Step::Done));
    assert_eq!(fs.status_info(), "File already exists");
    assert_eq!(fs.status_flag(), StatusFlag::Error);
    assert!(fs.undo_target().is_none());
}

#[test]
fn paste_with_empty_clipboard() {
    let mut fs = tmp_a();
    assert!(fs.paste_paths().is_none());
    assert!(matches!(fs.paste(false, false), Step::Done));
    assert_eq!(fs.status_info(), "Clipboard is empty");
    assert_eq!(fs.status_flag(), StatusFlag::Error);
}

#[test]
fn paste_of_vanished_source_clears_clipboard() {
    let mut fs = tmp_a();
    fs.select_current(index_of(&fs, "b.txt"));
    fs.copy_selected(true);
    assert!(matches!(fs.paste(false, false), Step::Done));
    assert_eq!(fs.status_info(), "Source file does not exist");
    assert!(fs.paste_paths().is_none());
}

#[test]
fn directory_cannot_go_on_clipboard() {
    let mut fs = tmp_a();
    fs.copy_selected(true);
    assert_eq!(fs.status_info(), "No File Selected");
    fs.select_current(index_of(&fs, "sub"));
    fs.copy_selected(true);
    assert_eq!(fs.status_info(), "Operation Not Supported");
    assert_eq!(fs.status_flag(), StatusFlag::Error);
    assert!(fs.paste_paths().is_none());
}

#[test]
fn create_then_undo_removes_it() {
    let mut fs = tmp_a();
    let before = names(&fs);
    let target = fs.new_file_target("x");
    assert_eq!(parts(&target), strings(&["tmp", "a", "x"]));
    let step = fs.new_file("x", false, false);
    assert_eq!(op_of(&step), (FsOpKind::CreateFile, Vec::new(), strings(&["tmp", "a", "x"])));
    let mut grown = tmp_a_listing();
    grown.push(entry(&["tmp", "a"], "x", 0, false));
    fs.finish(Ok(grown));
    assert_eq!(names(&fs), strings(&["sub", "B.txt", "b.txt", "x"]));
    let step = fs.undo(true, false);
    assert_eq!(op_of(&step), (FsOpKind::RemoveFile, Vec::new(), strings(&["tmp", "a", "x"])));
    fs.finish(Ok(tmp_a_listing()));
    assert_eq!(names(&fs), before);
}

#[test]
fn create_directory_inside_selected_directory() {
    let mut fs = tmp_a();
    fs.select_current(index_of(&fs, "sub"));
    let step = fs.new_file("inner", true, false);
    assert_eq!(op_of(&step), (FsOpKind::CreateDir, Vec::new(), strings(&["tmp", "a", "sub", "inner"])));
    fs.finish(Ok(tmp_a_listing()));
    let step = fs.undo(true, true);
    assert_eq!(
        op_of(&step),
        (FsOpKind::RemoveDirAll, Vec::new(), strings(&["tmp", "a", "sub", "inner"]))
    );
}

#[test]
fn create_existing_or_invalid_name_is_refused() {
    let mut fs = tmp_a();
    assert!(matches!(fs.new_file("b.txt", false, true), Step::Done));
    assert_eq!(fs.status_info(), "b.txt Exists");
    assert!(matches!(fs.new_file("", false, false), Step::Done));
    assert_eq!(fs.status_info(), "Invalid Name");
    assert!(matches!(fs.new_file("a\\b", false, false), Step::Done));
    assert_eq!(fs.status_info(), "Invalid Name");
}

#[test]
fn rename_rejects_bad_names() {
    let mut fs = tmp_a();
    fs.select_current(index_of(&fs, "b.txt"));
    for bad in ["a/b", "..", "x..y", "nul\0l", ""] {
        let step = fs.rename_selected(bad, false);
        assert!(matches!(step, Step::Done));
        assert_eq!(fs.status_info(), "Invalid Name");
        assert_eq!(fs.status_flag(), StatusFlag::Error);
    }
    assert!(fs.undo_target().is_none());
    assert_eq!(names(&fs), strings(&["sub", "B.txt", "b.txt"]));
}

#[test]
fn rename_targets_current_directory() {
    let mut fs = tmp_a();
    assert!(matches!(fs.rename_selected("c.txt", false), Step::Done));
    assert_eq!(fs.status_info(), "No Selection");
    fs.select_current(index_of(&fs, "sub"));
    assert!(matches!(fs.rename_selected("b.txt", true), Step::Done));
    assert_eq!(fs.status_info(), "b.txt Exists");
    let step = fs.rename_selected("sub2", false);
    assert_eq!(
        op_of(&step),
        (FsOpKind::Move, strings(&["tmp", "a", "sub"]), strings(&["tmp", "a", "sub2"]))
    );
    fs.finish(Ok(Vec::new()));
    assert_eq!(fs.status_info(), "Renamed to: sub2");
}

#[test]
fn delete_hands_out_removal() {
    let mut fs = tmp_a();
    assert!(matches!(fs.delete_selected(), Step::Done));
    assert_eq!(fs.status_info(), "No Selected");
    fs.select_current(index_of(&fs, "sub"));
    let step = fs.delete_selected();
    assert_eq!(op_of(&step), (FsOpKind::RemoveDirAll, Vec::new(), strings(&["tmp", "a", "sub"])));
    fs.finish(Ok(Vec::new()));
    assert_eq!(fs.status_info(), "Deleted: sub");
    assert!(fs.undo_target().is_none());
}

#[test]
fn failed_change_is_not_recorded() {
    let mut fs = tmp_a();
    let _ = fs.new_file("x", false, false);
    fs.abort("permission denied");
    assert_eq!(fs.status_info(), "Error: permission denied");
    assert_eq!(fs.status_flag(), StatusFlag::Error);
    assert!(matches!(fs.undo(false, false), Step::Done));
    assert_eq!(fs.status_info(), "Nothing to undo");
}

#[test]
fn navigation_and_its_undo() {
    let mut fs = tmp_a();
    assert!(matches!(fs.sub_dir(0), Step::Done));
    assert_eq!(fs.status_info(), "No Selection");
    fs.select_current(index_of(&fs, "b.txt"));
    let i = index_of(&fs, "b.txt");
    assert!(matches!(fs.sub_dir(i), Step::Done));
    assert_eq!(fs.status_info(), "No Selection");
    assert_eq!(fs.selected_index(), Some(i));
    assert!(matches!(fs.parent_dir(), Step::Reload));
    fs.finish(Ok(Vec::new()));
    assert_eq!(parts(fs.current_dir()), strings(&["tmp"]));
    assert!(matches!(fs.undo(true, true), Step::Reload));
    fs.finish(Ok(tmp_a_listing()));
    assert_eq!(parts(fs.current_dir()), strings(&["tmp", "a"]));
}

#[test]
fn root_has_no_parent() {
    let mut fs = FileSys::init(FsPath::root(), Vec::new());
    fs.refresh(vec![entry(&[], "etc", 0, true)]);
    fs.select_current(0);
    assert!(matches!(fs.parent_dir(), Step::Done));
    assert_eq!(fs.status_info(), "Root Dir");
    assert_eq!(fs.selected_index(), Some(0));
    assert!(fs.undo_target().is_none());
    assert_eq!(fs.status_flag(), StatusFlag::Error);
}

#[test]
fn unreadable_directory_after_navigation() {
    let mut fs = tmp_a();
    let sub = index_of(&fs, "sub");
    fs.select_current(sub);
    let _ = fs.sub_dir(sub);
    fs.finish(Err("permission denied".to_string()));
    assert!(fs.files().is_empty());
    assert_eq!(fs.status_info(), "Error: permission denied");
    assert!(fs.undo_target().is_some());
}

#[test]
fn history_keeps_the_newest_sixty_four() {
    let mut h: VecDeque<OpsUnit> = VecDeque::new();
    for i in 0..65 {
        let unit = OpsUnit {
            operation: Operation::New,
            file_source: FsPath::root(),
            file_target: path(&[&i.to_string()]),
        };
        FileSys::push_history(&mut h, unit);
        assert!(h.len() <= MAX_HISTORY_SIZE);
    }
    assert_eq!(h.len(), 64);
    for (k, u) in h.iter().enumerate() {
        assert_eq!(parts(&u.file_target), vec![(64 - k).to_string()]);
    }
}
