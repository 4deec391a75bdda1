use vstd::prelude::*;
use crate::file_info::FileInfo;
use crate::file_system_info::{FileSys, FsOpKind, Step, StatusFlag, step_op};
use crate::names::{contains_run, lower_of, lowercase, matches_folded, string_from_chars, trim_chars, trimmed};

verus! {

/// What the key handler reads as text entry instead of commands.
#[derive(Clone, Copy, Debug, PartialEq, Eq, Structural)]
pub enum InputContext {
    Normal,
    NewFile,
    NewDir,
    Rename,
    ConfirmDelete,
    Search,
}

/// A key press.
#[derive(Clone, Copy, Debug, PartialEq, Eq, Structural)]
pub enum Key {
    Char(char),
    Backspace,
    Enter,
    Esc,
    /// Any other key, which is ignored.
    Other,
}

/// What the caller does after a key was handled.
pub enum Request {
    Nothing,
    /// Run the step that the model has decided.
    Run(Step),
    /// Check the paths of `FileSys::paste_paths`, then run `FileSys::paste`.
    Paste,
    /// Check the path of `FileSys::undo_target`, then run `FileSys::undo`.
    Undo,
    /// Check the path of `FileSys::new_file_target`, then run
    /// `FileSys::new_file`.
    Create { name: String, is_dir: bool },
    /// Check the path of `FileSys::rename_target`, then run
    /// `FileSys::rename_selected`.
    Rename(String),
}

/// Whether a name starts with a dot.
pub open spec fn is_hidden(name: Seq<char>) -> bool {
    name.len() > 0 && name[0] == '.'
}

/// Whether an entry shows under the hidden-file setting and the query.
pub open spec fn shown(f: FileInfo, show_hidden: bool, query: Seq<char>) -> bool {
    &&& (show_hidden || !is_hidden(f.name@))
    &&& (query.len() == 0 || contains_run(lower_of(f.name@), lower_of(query)))
}

/// The indices of the entries that show, in order.
pub open spec fn shown_indices(files: Seq<FileInfo>, show_hidden: bool, query: Seq<char>) -> Seq<
    usize,
>
    decreases files.len(),
{
    if files.len() == 0 {
        Seq::empty()
    } else {
        let rest = shown_indices(files.drop_last(), show_hidden, query);
        if shown(files.last(), show_hidden, query) {
            rest.push((files.len() - 1) as usize)
        } else {
            rest
        }
    }
}

/// The entry under the cursor after a move by `delta` among `len` rows: down
/// for a positive delta, else up, wrapping round at either end.
pub open spec fn cursor_moved(cursor: Option<usize>, len: nat, delta: i32) -> Option<usize> {
    if len == 0 {
        None
    } else {
        match cursor {
            Some(i) => if delta > 0 {
                if i >= len - 1 {
                    Some(0)
                } else {
                    Some((i + 1) as usize)
                }
            } else {
                if i == 0 {
                    Some((len - 1) as usize)
                } else {
                    Some((i - 1) as usize)
                }
            },
            None => Some(0),
        }
    }
}

/// The file manager: its model, the cursor over the shown entries, and the
/// input state machine.
pub struct App {
    pub fs: FileSys,
    /// The row of the shown entries under the cursor.
    pub cursor: Option<usize>,
    pub input_context: InputContext,
    pub input_buffer: Vec<char>,
    pub show_hidden: bool,
    pub search_query: String,
    pub should_quit: bool,
    /// After the step under way: reset the cursor and the selection, and the
    /// query too if it holds `true`.
    pub reset_after: Option<bool>,
}

impl App {
    pub open spec fn wf(&self) -> bool {
        self.fs.wf()
    }

    /// The indices of the entries that show now.
    pub open spec fn shown_now(&self) -> Seq<usize> {
        shown_indices(self.fs.files@, self.show_hidden, self.search_query@)
    }

    /// The entry under the cursor, as its index in the listing, if any.
    pub open spec fn cursor_entry(&self) -> Option<usize> {
        match self.cursor {
            Some(c) => if c < self.shown_now().len() {
                Some(self.shown_now()[c as int])
            } else {
                None
            },
            None => None,
        }
    }

    /// A file manager over `fs`, in normal mode, with no cursor.
    pub fn new(fs: FileSys) -> (r: App)
        requires
            fs.wf(),
        ensures
            r.wf(),
            r.fs == fs,
            r.cursor is None,
            r.input_context == InputContext::Normal,
            r.input_buffer@.len() == 0,
            !r.show_hidden,
            r.search_query@.len() == 0,
            !r.should_quit,
            r.reset_after is None,
    {
        App {
            fs,
            cursor: None,
            input_context: InputContext::Normal,
            input_buffer: Vec::new(),
            show_hidden: false,
            search_query: String::new(),
            should_quit: false,
            reset_after: None,
        }
    }

    /// The indices of the entries that show under the hidden-file setting
    /// and the query, in listing order.
    pub fn filtered_files(&self) -> (r: Vec<usize>)
        ensures
            r@ == self.shown_now(),
            forall|k: int| 0 <= k < r@.len() ==> #[trigger] r@[k] < self.fs.files@.len(),
    {
        let files = &self.fs.files;
        let query = lowercase(self.search_query.as_str());
        let no_query = self.search_query.as_str().unicode_len() == 0;
        let mut r: Vec<usize> = Vec::new();
        let mut i: usize = 0;
        while i < files.len()
            invariant
                files == &self.fs.files,
                query@ == lower_of(self.search_query@),
                no_query == (self.search_query@.len() == 0),
                i <= files@.len(),
                r@ == shown_indices(files@.subrange(0, i as int), self.show_hidden, self.search_query@),
                forall|k: int| 0 <= k < r@.len() ==> #[trigger] r@[k] < i,
            decreases files@.len() - i,
        {
            let f = &files[i];
            let name = f.name.as_str();
            let n = name.unicode_len();
            let hidden = n > 0 && name.get_char(0) == '.';
            let visible = self.show_hidden || !hidden;
            let matched = no_query || matches_folded(lowercase(name).as_str(), query.as_str());
            proof {
                assert(files@.subrange(0, i + 1).drop_last() =~= files@.subrange(0, i as int));
                assert(files@.subrange(0, i + 1).last() == files@[i as int]);
            }
            if visible && matched {
                r.push(i);
            }
            i = i + 1;
        }
        assert(files@.subrange(0, files@.len() as int) =~= files@);
        r
    }

    /// The entry under the cursor: its index in the listing, and whether it
    /// is a directory.
    pub fn get_cursor_file_info(&self) -> (r: Option<(usize, bool)>)
        requires
            self.wf(),
        ensures
            match self.cursor_entry() {
                Some(i) => r == Some((i, self.fs.files@[i as int].is_dir)),
                None => r is None,
            },
            r matches Some((i, _)) ==> i < self.fs.files@.len(),
    {
        let filtered = self.filtered_files();
        match self.cursor {
            Some(c) => {
                if c < filtered.len() {
                    let i = filtered[c];
                    Some((i, self.fs.files[i].is_dir))
                } else {
                    None
                }
            },
            None => None,
        }
    }

    /// Moves the cursor down (`delta` above zero) or up, wrapping round.
    pub fn move_cursor(&mut self, delta: i32)
        requires
            old(self).wf(),
        ensures
            final(self).cursor == cursor_moved(old(self).cursor, old(self).shown_now().len(), delta),
            *final(self) == (App { cursor: final(self).cursor, ..*old(self) }),
    {
        let len = self.filtered_files().len();
        if len == 0 {
            self.cursor = None;
            return;
        }
        let new_index = match self.cursor {
            Some(i) => {
                if delta > 0 {
                    if i >= len - 1 {
                        0
                    } else {
                        i + 1
                    }
                } else {
                    if i == 0 {
                        len - 1
                    } else {
                        i - 1
                    }
                }
            },
            None => 0,
        };
        self.cursor = Some(new_index);
    }

    /// Puts the cursor on the first shown entry, if any.
    pub fn reset_cursor(&mut self)
        requires
            old(self).wf(),
        ensures
            final(self).cursor == if old(self).shown_now().len() == 0 {
                None
            } else {
                Some(0usize)
            },
            *final(self) == (App { cursor: final(self).cursor, ..*old(self) }),
    {
        let filtered = self.filtered_files();
        self.cursor = if filtered.len() == 0 {
            None
        } else {
            Some(0)
        };
    }

    /// Leaves text entry: back to normal mode with an empty buffer and a
    /// ready status.
    pub fn exit_input_mode(&mut self)
        requires
            old(self).wf(),
        ensures
            final(self).wf(),
            final(self).input_context == InputContext::Normal,
            final(self).input_buffer@.len() == 0,
            final(self).fs.status_info@ == "Ready"@,
            final(self).fs.status_flag == StatusFlag::Ready,
            final(self).fs.files == old(self).fs.files,
            final(self).fs.selected_index == old(self).fs.selected_index,
            final(self).fs.current_dir == old(self).fs.current_dir,
            final(self).fs.clipboard == old(self).fs.clipboard,
            final(self).fs.ops_history == old(self).fs.ops_history,
            final(self).cursor == old(self).cursor,
            final(self).search_query == old(self).search_query,
            final(self).show_hidden == old(self).show_hidden,
    {
        self.input_context = InputContext::Normal;
        self.input_buffer = Vec::new();
        self.fs.status_info = String::from_str("Ready");
        self.fs.status_flag = StatusFlag::Ready;
    }

    /// Enters text entry for `context` with an empty buffer and `prompt` as
    /// the status.
    fn start_input(&mut self, context: InputContext, prompt: &str)
        requires
            old(self).wf(),
        ensures
            final(self).wf(),
            final(self).input_context == context,
            final(self).input_buffer@.len() == 0,
            final(self).fs.status_info@ == prompt@,
            final(self).fs.status_flag == StatusFlag::Input,
            final(self).fs.files == old(self).fs.files,
            final(self).fs.selected_index == old(self).fs.selected_index,
            final(self).fs.current_dir == old(self).fs.current_dir,
            final(self).fs.clipboard == old(self).fs.clipboard,
            final(self).fs.ops_history == old(self).fs.ops_history,
            final(self).cursor == old(self).cursor,
            final(self).search_query == old(self).search_query,
            final(self).show_hidden == old(self).show_hidden,
            final(self).should_quit == old(self).should_quit,
    {
        self.input_context = context;
        self.input_buffer = Vec::new();
        self.fs.status_info = String::from_str(prompt);
        self.fs.status_flag = StatusFlag::Input;
    }

    pub fn start_new_file(&mut self)
        requires
            old(self).wf(),
        ensures
            final(self).wf(),
            final(self).input_context == InputContext::NewFile,
            final(self).input_buffer@.len() == 0,
            final(self).fs.files == old(self).fs.files,
            final(self).fs.selected_index == old(self).fs.selected_index,
    {
        self.start_input(InputContext::NewFile, "New file name");
    }

    pub fn start_new_dir(&mut self)
        requires
            old(self).wf(),
        ensures
            final(self).wf(),
            final(self).input_context == InputContext::NewDir,
            final(self).input_buffer@.len() == 0,
            final(self).fs.files == old(self).fs.files,
            final(self).fs.selected_index == old(self).fs.selected_index,
    {
        self.start_input(InputContext::NewDir, "New directory name");
    }

    /// Asks to confirm the deletion of the selection; without a selection
    /// there is nothing to confirm.
    pub fn start_delete_confirm(&mut self)
        requires
            old(self).wf(),
        ensures
            final(self).wf(),
            final(self).input_context == if old(self).fs.selected_index is Some {
                InputContext::ConfirmDelete
            } else {
                InputContext::Normal
            },
            final(self).input_buffer@.len() == 0,
            final(self).fs.files == old(self).fs.files,
            final(self).fs.selected_index == old(self).fs.selected_index,
    {
        if self.fs.selected_index.is_some() {
            self.start_input(InputContext::ConfirmDelete, "Delete the selection? (y/N)");
        } else {
            self.exit_input_mode();
        }
    }

    /// Selects the entry under the cursor and asks for its new name.
    pub fn start_rename(&mut self)
        requires
            old(self).wf(),
        ensures
            final(self).wf(),
            final(self).fs.files == old(self).fs.files,
            match old(self).cursor_entry() {
                Some(i) => {
                    &&& final(self).input_context == InputContext::Rename
                    &&& final(self).input_buffer@.len() == 0
                    &&& final(self).fs.selected_index == Some(i)
                },
                None => *final(self) == *old(self),
            },
    {
        match self.get_cursor_file_info() {
            Some((i, _)) => {
                self.fs.select_current(i);
                self.start_input(InputContext::Rename, "Rename to");
            },
            None => {},
        }
    }

    /// Asks for a search query.
    pub fn start_search(&mut self)
        requires
            old(self).wf(),
        ensures
            final(self).wf(),
            final(self).input_context == InputContext::Search,
            final(self).input_buffer@.len() == 0,
            final(self).fs.files == old(self).fs.files,
            final(self).fs.selected_index == old(self).fs.selected_index,
            final(self).search_query == old(self).search_query,
    {
        self.start_input(InputContext::Search, "Search");
        self.reset_cursor();
    }

    /// Shows or hides the entries whose name starts with a dot, and drops
    /// the query.
    pub fn toggle_hidden_files(&mut self)
        requires
            old(self).wf(),
        ensures
            final(self).wf(),
            final(self).show_hidden == !old(self).show_hidden,
            final(self).search_query@.len() == 0,
            final(self).fs == old(self).fs,
            final(self).cursor == if final(self).shown_now().len() == 0 {
                None
            } else {
                Some(0usize)
            },
    {
        self.show_hidden = !self.show_hidden;
        self.search_query = String::new();
        self.reset_cursor();
    }

    /// Drops the query, if there is one.
    pub fn clear_search(&mut self)
        requires
            old(self).wf(),
        ensures
            final(self).wf(),
            final(self).search_query@.len() == 0,
            final(self).fs == old(self).fs,
            final(self).show_hidden == old(self).show_hidden,
            old(self).search_query@.len() == 0 ==> *final(self) == *old(self),
    {
        if self.search_query.as_str().unicode_len() > 0 {
            self.search_query = String::new();
            self.reset_cursor();
        }
    }

    /// Drops the selection if it is the entry under the cursor; else selects
    /// that entry.
    pub fn toggle_selection(&mut self)
        requires
            old(self).wf(),
        ensures
            final(self).wf(),
            final(self).fs.files == old(self).fs.files,
            match old(self).cursor_entry() {
                Some(i) => final(self).fs.selected_index == if old(self).fs.selected_index == Some(
                    i,
                ) {
                    None
                } else {
                    Some(i)
                },
                None => final(self).fs.selected_index == old(self).fs.selected_index,
            },
    {
        match self.get_cursor_file_info() {
            Some((i, _)) => self.fs.toggle_selection(i),
            None => {},
        }
    }

    pub fn clear_selection(&mut self)
        requires
            old(self).wf(),
        ensures
            final(self).wf(),
            final(self).fs.selected_index is None,
            final(self).fs.files == old(self).fs.files,
            final(self).fs.status_info == old(self).fs.status_info,
            final(self).fs.status_flag == old(self).fs.status_flag,
            final(self).fs.current_dir == old(self).fs.current_dir,
            final(self).fs.clipboard == old(self).fs.clipboard,
            final(self).fs.ops_history == old(self).fs.ops_history,
            *final(self) == (App { fs: final(self).fs, ..*old(self) }),
    {
        self.fs.clear_selection();
    }

    /// Moves to the parent directory; the cursor and selection are reset
    /// once the step has run.
    pub fn go_parent_dir(&mut self) -> (r: Request)
        requires
            old(self).wf(),
        ensures
            final(self).wf(),
            r matches Request::Run(_),
            final(self).reset_after == Some(false),
            final(self).fs.current_dir@ == if old(self).fs.current_dir@.len() == 0 {
                old(self).fs.current_dir@
            } else {
                old(self).fs.current_dir@.drop_last()
            },
    {
        let step = self.fs.parent_dir();
        self.reset_after = Some(false);
        Request::Run(step)
    }

    /// Enters the directory under the cursor; the query, cursor and
    /// selection are reset once the step has run. Anything else under the
    /// cursor is left alone.
    pub fn enter_current(&mut self) -> (r: Request)
        requires
            old(self).wf(),
        ensures
            final(self).wf(),
            match old(self).cursor_entry() {
                Some(i) => if old(self).fs.files@[i as int].is_dir {
                    &&& r matches Request::Run(Step::Reload)
                    &&& final(self).fs.current_dir@ == old(self).fs.files@[i as int].path@
                    &&& final(self).reset_after == Some(true)
                } else {
                    r is Nothing && *final(self) == *old(self)
                },
                None => r is Nothing && *final(self) == *old(self),
            },
    {
        match self.get_cursor_file_info() {
            Some((i, is_dir)) => {
                if is_dir {
                    self.fs.select_current(i);
                    let step = self.fs.sub_dir(i);
                    self.reset_after = Some(true);
                    Request::Run(step)
                } else {
                    Request::Nothing
                }
            },
            None => Request::Nothing,
        }
    }

    /// Ends what a navigation asked for once its step has run: the query
    /// (if asked), the selection and the cursor are reset.
    pub fn settle(&mut self)
        requires
            old(self).wf(),
        ensures
            final(self).wf(),
            final(self).reset_after is None,
            final(self).fs.files == old(self).fs.files,
            old(self).reset_after is None ==> *final(self) == *old(self),
            old(self).reset_after matches Some(q) ==> {
                &&& final(self).fs.selected_index is None
                &&& (q ==> final(self).search_query@.len() == 0)
                &&& (!q ==> final(self).search_query == old(self).search_query)
                &&& final(self).cursor == if final(self).shown_now().len() == 0 {
                    None
                } else {
                    Some(0usize)
                }
            },
    {
        match self.reset_after {
            Some(q) => {
                if q {
                    self.search_query = String::new();
                }
                self.fs.clear_selection();
                self.reset_cursor();
                self.reset_after = None;
            },
            None => {},
        }
    }

    /// What `submit_input` guarantees, from the state `pre` to the state `post`.
    pub open spec fn submit_post(pre: App, post: App, r: Request) -> bool {
        &&& post.wf()
        &&& post.input_context == InputContext::Normal
        &&& post.input_buffer@.len() == 0
        &&& post.fs.files == pre.fs.files
        &&& post.fs.current_dir == pre.fs.current_dir
        &&& post.fs.ops_history == pre.fs.ops_history
        &&& ({
            let input = trimmed(pre.input_buffer@);
            match pre.input_context {
                InputContext::Search => {
                    &&& r is Nothing
                    &&& post.search_query@ == input
                    &&& post.fs.selected_index is None
                    &&& post.fs.status_info@ == "Ready"@
                },
                InputContext::ConfirmDelete => if input == seq!['y'] || input == seq!['Y'] {
                    &&& r matches Request::Run(st)
                    &&& match pre.fs.selected_entry() {
                        Some(f) => step_op(r->Run_0) == Some(
                            (
                                if f.is_dir {
                                    FsOpKind::RemoveDirAll
                                } else {
                                    FsOpKind::RemoveFile
                                },
                                Seq::<Seq<char>>::empty(),
                                f.path@,
                            ),
                        ),
                        None => r->Run_0 is Done,
                    }
                } else {
                    &&& r is Nothing
                    &&& post.fs.selected_index == pre.fs.selected_index
                    &&& post.fs.status_info@ == "Ready"@
                },
                _ => if input.len() == 0 {
                    &&& r is Nothing
                    &&& post.fs.status_info@ == "Ready"@
                } else {
                    match pre.input_context {
                        InputContext::NewFile => r matches Request::Create { name, is_dir }
                            && name@ == input && !is_dir,
                        InputContext::NewDir => r matches Request::Create { name, is_dir }
                            && name@ == input && is_dir,
                        _ => r matches Request::Rename(name) && name@ == input,
                    }
                },
            }
        })
    }

    /// Ends text entry with the buffer, trimmed: a search takes it as the
    /// query; a deletion goes ahead on `y` or `Y` only; a creation or a
    /// rename goes ahead on a non-empty name. Always back to normal mode.
    pub fn submit_input(&mut self) -> (r: Request)
        requires
            old(self).wf(),
            old(self).input_context != InputContext::Normal,
        ensures
            Self::submit_post(*old(self), *final(self), r),
    {
        let input = trim_chars(&self.input_buffer);
        let context = self.input_context;
        match context {
            InputContext::Search => {
                self.search_query = string_from_chars(&input);
                self.reset_cursor();
                self.clear_selection();
                self.exit_input_mode();
                Request::Nothing
            },
            InputContext::ConfirmDelete => {
                let yes = input.len() == 1 && (input[0] == 'y' || input[0] == 'Y');
                proof {
                    if input@ == seq!['y'] || input@ == seq!['Y'] {
                        assert(input@[0] == 'y' || input@[0] == 'Y');
                    }
                    if yes {
                        assert(input@ =~= seq![input@[0]]);
                    }
                }
                if yes {
                    let step = self.fs.delete_selected();
                    self.input_context = InputContext::Normal;
                    self.input_buffer = Vec::new();
                    Request::Run(step)
                } else {
                    self.exit_input_mode();
                    Request::Nothing
                }
            },
            _ => {
                if input.len() == 0 {
                    self.exit_input_mode();
                    return Request::Nothing;
                }
                let name = string_from_chars(&input);
                self.input_context = InputContext::Normal;
                self.input_buffer = Vec::new();
                match context {
                    InputContext::NewFile => Request::Create { name, is_dir: false },
                    InputContext::NewDir => Request::Create { name, is_dir: true },
                    _ => Request::Rename(name),
                }
            },
        }
    }

    /// What a key does in text entry.
    pub open spec fn input_post(pre: App, key: Key, post: App, r: Request) -> bool {
        match key {
            Key::Char(c) => {
                &&& r is Nothing
                &&& post == (App { input_buffer: post.input_buffer, ..pre })
                &&& post.input_buffer@ == pre.input_buffer@.push(c)
            },
            Key::Backspace => {
                &&& r is Nothing
                &&& post == (App { input_buffer: post.input_buffer, ..pre })
                &&& post.input_buffer@ == if pre.input_buffer@.len() == 0 {
                    pre.input_buffer@
                } else {
                    pre.input_buffer@.drop_last()
                }
            },
            Key::Enter => Self::submit_post(pre, post, r),
            Key::Esc => {
                &&& r is Nothing
                &&& post.input_context == InputContext::Normal
                &&& post.input_buffer@.len() == 0
                &&& post.fs.status_info@ == "Ready"@
                &&& post.fs.status_flag == StatusFlag::Ready
                &&& post.fs.files == pre.fs.files
                &&& post.fs.selected_index == pre.fs.selected_index
                &&& post.fs.current_dir == pre.fs.current_dir
                &&& post.fs.ops_history == pre.fs.ops_history
            },
            Key::Other => r is Nothing && post == pre,
        }
    }

    /// Handles a key in text entry: characters go into the buffer,
    /// backspace takes the last one out, enter submits and escape cancels.
    pub fn handle_input_mode(&mut self, key: Key) -> (r: Request)
        requires
            old(self).wf(),
            old(self).input_context != InputContext::Normal,
        ensures
            final(self).wf(),
            Self::input_post(*old(self), key, *final(self), r),
    {
        match key {
            Key::Char(c) => {
                self.input_buffer.push(c);
                Request::Nothing
            },
            Key::Backspace => {
                self.input_buffer.pop();
                Request::Nothing
            },
            Key::Enter => self.submit_input(),
            Key::Esc => {
                self.exit_input_mode();
                Request::Nothing
            },
            Key::Other => Request::Nothing,
        }
    }

    /// What a key does in normal mode.
    pub open spec fn normal_post(pre: App, key: Key, post: App, r: Request) -> bool {
        let same_files = post.fs.files == pre.fs.files;
        match key {
            Key::Char('j') => r is Nothing && post == (App {
                cursor: cursor_moved(pre.cursor, pre.shown_now().len(), -1i32),
                ..pre
            }),
            Key::Char('k') => r is Nothing && post == (App {
                cursor: cursor_moved(pre.cursor, pre.shown_now().len(), 1i32),
                ..pre
            }),
            Key::Char('h') => {
                &&& r matches Request::Run(_)
                &&& post.reset_after == Some(false)
                &&& post.fs.current_dir@ == if pre.fs.current_dir@.len() == 0 {
                    pre.fs.current_dir@
                } else {
                    pre.fs.current_dir@.drop_last()
                }
            },
            Key::Char('l') => match pre.cursor_entry() {
                Some(i) => if pre.fs.files@[i as int].is_dir {
                    &&& r matches Request::Run(Step::Reload)
                    &&& post.fs.current_dir@ == pre.fs.files@[i as int].path@
                    &&& post.reset_after == Some(true)
                } else {
                    r is Nothing && post == pre
                },
                None => r is Nothing && post == pre,
            },
            Key::Char(' ') => {
                &&& r is Nothing
                &&& same_files
                &&& post.fs.selected_index == match pre.cursor_entry() {
                    Some(i) => if pre.fs.selected_index == Some(i) {
                        None
                    } else {
                        Some(i)
                    },
                    None => pre.fs.selected_index,
                }
            },
            Key::Char('c') | Key::Char('x') => {
                let is_copy = key == Key::Char('c');
                &&& r is Nothing
                &&& same_files
                &&& post.fs.selected_index == pre.fs.selected_index
                &&& post.fs.ops_history == pre.fs.ops_history
                &&& match pre.fs.selected_entry() {
                    Some(f) => if f.is_dir {
                        post.fs.clipboard == pre.fs.clipboard && post.fs.status_flag
                            == StatusFlag::Error
                    } else {
                        post.fs.clipboard matches Some((p, c)) && p@ == f.path@ && c == is_copy
                    },
                    None => post.fs.clipboard == pre.fs.clipboard && post.fs.status_flag
                        == StatusFlag::Error,
                }
            },
            Key::Char('v') => r is Paste && post == pre,
            Key::Char('u') => r is Undo && post == pre,
            Key::Char('d') => {
                &&& r is Nothing
                &&& same_files
                &&& post.fs.selected_index == pre.fs.selected_index
                &&& post.input_context == if pre.fs.selected_index is Some {
                    InputContext::ConfirmDelete
                } else {
                    InputContext::Normal
                }
            },
            Key::Char('r') => {
                &&& r is Nothing
                &&& same_files
                &&& match pre.cursor_entry() {
                    Some(i) => post.input_context == InputContext::Rename
                        && post.fs.selected_index == Some(i),
                    None => post == pre,
                }
            },
            Key::Char('n') => r is Nothing && same_files && post.input_context
                == InputContext::NewFile && post.input_buffer@.len() == 0,
            Key::Char('m') => r is Nothing && same_files && post.input_context
                == InputContext::NewDir && post.input_buffer@.len() == 0,
            Key::Char('.') => {
                &&& r is Nothing
                &&& post.fs == pre.fs
                &&& post.show_hidden == !pre.show_hidden
                &&& post.search_query@.len() == 0
            },
            Key::Char('/') => r is Nothing && same_files && post.input_context
                == InputContext::Search && post.input_buffer@.len() == 0,
            Key::Esc => {
                &&& r is Nothing
                &&& post.fs == pre.fs
                &&& post.search_query@.len() == 0
                &&& (pre.search_query@.len() == 0 ==> post == pre)
            },
            Key::Char('q') => r is Nothing && post == (App { should_quit: true, ..pre }),
            _ => r is Nothing && post == pre,
        }
    }

    /// Handles a key in normal mode: cursor moves, navigation, selection,
    /// clipboard, deletion, undo, creation, search and quitting.
    pub fn handle_normal_mode(&mut self, key: Key) -> (r: Request)
        requires
            old(self).wf(),
        ensures
            final(self).wf(),
            Self::normal_post(*old(self), key, *final(self), r),
    {
        match key {
            Key::Char('j') => {
                self.move_cursor(-1);
                Request::Nothing
            },
            Key::Char('k') => {
                self.move_cursor(1);
                Request::Nothing
            },
            Key::Char('h') => self.go_parent_dir(),
            Key::Char('l') => self.enter_current(),
            Key::Char(' ') => {
                self.toggle_selection();
                Request::Nothing
            },
            Key::Char('c') => {
                self.fs.copy_selected(true);
                Request::Nothing
            },
            Key::Char('x') => {
                self.fs.copy_selected(false);
                Request::Nothing
            },
            Key::Char('v') => Request::Paste,
            Key::Char('d') => {
                self.start_delete_confirm();
                Request::Nothing
            },
            Key::Char('u') => Request::Undo,
            Key::Char('r') => {
                self.start_rename();
                Request::Nothing
            },
            Key::Char('n') => {
                self.start_new_file();
                Request::Nothing
            },
            Key::Char('m') => {
                self.start_new_dir();
                Request::Nothing
            },
            Key::Char('.') => {
                self.toggle_hidden_files();
                Request::Nothing
            },
            Key::Char('/') => {
                self.start_search();
                Request::Nothing
            },
            Key::Esc => {
                self.clear_search();
                Request::Nothing
            },
            Key::Char('q') => {
                self.should_quit = true;
                Request::Nothing
            },
            _ => Request::Nothing,
        }
    }

    /// Handles a key: as text in an input state, else as a command.
    pub fn handle_key(&mut self, key: Key) -> (r: Request)
        requires
            old(self).wf(),
        ensures
            final(self).wf(),
            old(self).input_context != InputContext::Normal ==> Self::input_post(
                *old(self),
                key,
                *final(self),
                r,
            ),
            old(self).input_context == InputContext::Normal ==> Self::normal_post(
                *old(self),
                key,
                *final(self),
                r,
            ),
    {
        if self.input_context != InputContext::Normal {
            self.handle_input_mode(key)
        } else {
            self.handle_normal_mode(key)
        }
    }
}

} // verus!
