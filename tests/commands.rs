use fsnav::commands::{App, InputContext, Key, Request};
use fsnav::file_info::FileInfo;
use fsnav::file_system_info::{FileSys, FsOpKind, StatusFlag, Step};
use fsnav::path::FsPath;

fn path(parts: &[&str]) -> FsPath {
    FsPath::from_parts(parts.iter().map(|s| s.to_string()).collect())
}

fn entry(name: &str, is_dir: bool) -> FileInfo {
    FileInfo { name: name.to_string(), path: path(&["tmp", "a", name]), size: 3, is_dir }
}

fn app() -> App {
    let listing = vec![
        entry("b.txt", false),
        entry("B.txt", false),
        entry("sub", true),
        entry(".hidden", false),
        entry("README", false),
    ];
    App::new(FileSys::init(path(&["tmp", "a"]), listing))
}

fn type_text(app: &mut App, text: &str) {
    for c in text.chars() {
        assert!(matches!(app.handle_key(Key::Char(c)), Request::Nothing));
    }
}

fn shown_names(app: &App) -> Vec<String> {
    app.filtered_files().iter().map(|&i| app.fs.files()[i].name.clone()).collect()
}

#[test]
fn hidden_entries_are_filtered_until_shown() {
    let mut a = app();
    assert_eq!(shown_names(&a), vec!["sub", "B.txt", "README", "b.txt"]);
    a.handle_key(Key::Char('.'));
    assert_eq!(shown_names(&a), vec!["sub", ".hidden", "B.txt", "README", "b.txt"]);
    assert_eq!(a.cursor, Some(0));
}

#[test]
fn search_is_case_insensitive() {
    let mut a = app();
    a.handle_key(Key::Char('/'));
    assert_eq!(a.input_context, InputContext::Search);
    type_text(&mut a, " read ");
    assert!(matches!(a.handle_key(Key::Enter), Request::Nothing));
    assert_eq!(a.input_context, InputContext::Normal);
    assert_eq!(a.search_query, "read");
    assert_eq!(shown_names(&a), vec!["README"]);
    a.handle_key(Key::Esc);
    assert_eq!(a.search_query, "");
    assert_eq!(shown_names(&a).len(), 4);
}

#[test]
fn cursor_wraps_round() {
    let mut a = app();
    a.handle_key(Key::Char('k'));
    assert_eq!(a.cursor, Some(0));
    a.handle_key(Key::Char('j'));
    assert_eq!(a.cursor, Some(3));
    a.handle_key(Key::Char('k'));
    assert_eq!(a.cursor, Some(0));
    a.handle_key(Key::Char('k'));
    assert_eq!(a.cursor, Some(1));
}

#[test]
fn confirm_delete_with_no_keeps_file() {
    let mut a = app();
    a.handle_key(Key::Char('k'));
    a.handle_key(Key::Char('k'));
    a.handle_key(Key::Char(' '));
    let selected = a.fs.selected_index().unwrap();
    assert_eq!(a.fs.files()[selected].name, "B.txt");
    a.handle_key(Key::Char('d'));
    assert_eq!(a.input_context, InputContext::ConfirmDelete);
    type_text(&mut a, "n");
    assert!(matches!(a.handle_key(Key::Enter), Request::Nothing));
    assert_eq!(a.input_context, InputContext::Normal);
    assert_eq!(a.fs.selected_index(), Some(selected));
    assert_eq!(a.fs.files().len(), 5);
    assert_eq!(a.fs.status_info(), "Ready");
}

#[test]
fn confirm_delete_with_empty_input_cancels() {
    let mut a = app();
    a.handle_key(Key::Char('k'));
    a.handle_key(Key::Char(' '));
    a.handle_key(Key::Char('d'));
    assert!(matches!(a.handle_key(Key::Enter), Request::Nothing));
    assert_eq!(a.input_context, InputContext::Normal);
}

#[test]
fn confirm_delete_with_yes_hands_out_removal() {
    let mut a = app();
    a.handle_key(Key::Char('k'));
    a.handle_key(Key::Char('k'));
    a.handle_key(Key::Char(' '));
    a.handle_key(Key::Char('d'));
    type_text(&mut a, "Y");
    match a.handle_key(Key::Enter) {
        Request::Run(Step::Perform(op)) => {
            assert_eq!(op.kind, FsOpKind::RemoveFile);
            assert_eq!(op.target.parts().clone(), vec!["tmp", "a", "B.txt"]);
        }
        _ => panic!("expected a removal"),
    }
    assert_eq!(a.input_context, InputContext::Normal);
}

#[test]
fn delete_without_selection_stays_normal() {
    let mut a = app();
    a.handle_key(Key::Char('d'));
    assert_eq!(a.input_context, InputContext::Normal);
}

#[test]
fn new_file_name_is_trimmed_and_edited() {
    let mut a = app();
    a.handle_key(Key::Char('n'));
    assert_eq!(a.input_context, InputContext::NewFile);
    assert_eq!(a.fs.status_flag(), StatusFlag::Input);
    type_text(&mut a, "  notes.tx");
    a.handle_key(Key::Backspace);
    type_text(&mut a, "d ");
    match a.handle_key(Key::Enter) {
        Request::Create { name, is_dir } => {
            assert_eq!(name, "notes.td");
            assert!(!is_dir);
        }
        _ => panic!("expected a creation"),
    }
    assert_eq!(a.input_context, InputContext::Normal);
    assert!(a.input_buffer.is_empty());
}

#[test]
fn new_dir_with_blank_name_does_nothing() {
    let mut a = app();
    a.handle_key(Key::Char('m'));
    assert_eq!(a.input_context, InputContext::NewDir);
    type_text(&mut a, "   ");
    assert!(matches!(a.handle_key(Key::Enter), Request::Nothing));
    assert_eq!(a.fs.status_info(), "Ready");
}

#[test]
fn escape_cancels_entry() {
    let mut a = app();
    a.handle_key(Key::Char('m'));
    type_text(&mut a, "dir");
    assert!(matches!(a.handle_key(Key::Esc), Request::Nothing));
    assert_eq!(a.input_context, InputContext::Normal);
    assert!(a.input_buffer.is_empty());
    assert_eq!(a.fs.status_info(), "Ready");
    assert_eq!(a.fs.status_flag(), StatusFlag::Ready);
}

#[test]
fn rename_selects_entry_under_cursor() {
    let mut a = app();
    a.handle_key(Key::Char('k'));
    a.handle_key(Key::Char('k'));
    a.handle_key(Key::Char('r'));
    assert_eq!(a.input_context, InputContext::Rename);
    let selected = a.fs.selected_index().unwrap();
    assert_eq!(a.fs.files()[selected].name, "B.txt");
    type_text(&mut a, "c.txt");
    match a.handle_key(Key::Enter) {
        Request::Rename(name) => assert_eq!(name, "c.txt"),
        _ => panic!("expected a rename"),
    }
}

#[test]
fn enter_directory_and_settle() {
    let mut a = app();
    a.handle_key(Key::Char('k'));
    match a.handle_key(Key::Char('l')) {
        Request::Run(Step::Reload) => {}
        _ => panic!("expected a reload"),
    }
    assert_eq!(a.fs.current_dir().parts().clone(), vec!["tmp", "a", "sub"]);
    a.fs.finish(Ok(vec![FileInfo {
        name: "inner".to_string(),
        path: path(&["tmp", "a", "sub", "inner"]),
        size: 0,
        is_dir: false,
    }]));
    a.settle();
    assert_eq!(a.cursor, Some(0));
    assert_eq!(a.fs.selected_index(), None);
    assert!(a.reset_after.is_none());
}

#[test]
fn enter_on_a_file_does_nothing() {
    let mut a = app();
    a.handle_key(Key::Char('k'));
    a.handle_key(Key::Char('k'));
    assert!(matches!(a.handle_key(Key::Char('l')), Request::Nothing));
    assert_eq!(a.fs.current_dir().parts().clone(), vec!["tmp", "a"]);
}

#[test]
fn keys_for_paste_undo_and_quit() {
    let mut a = app();
    assert!(matches!(a.handle_key(Key::Char('v')), Request::Paste));
    assert!(matches!(a.handle_key(Key::Char('u')), Request::Undo));
    assert!(matches!(a.handle_key(Key::Other), Request::Nothing));
    assert!(!a.should_quit);
    a.handle_key(Key::Char('q'));
    assert!(a.should_quit);
}

#[test]
fn parent_key_moves_up() {
    let mut a = app();
    assert!(matches!(a.handle_key(Key::Char('h')), Request::Run(Step::Reload)));
    assert_eq!(a.fs.current_dir().parts().clone(), vec!["tmp"]);
    assert_eq!(a.reset_after, Some(false));
}
