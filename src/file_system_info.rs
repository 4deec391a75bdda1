use vstd::prelude::*;
use std::collections::VecDeque;
use crate::file_info::{FileInfo, listing_ordered, sort_listing};
use crate::file_ops::{Operation, OpsUnit};
use crate::path::FsPath;
use crate::names::{valid_name, validate_filename};

verus! {

/// The most records the history keeps.
pub const MAX_HISTORY_SIZE: usize = 64;

/// The severity of the status line.
#[derive(Clone, Copy, Debug, PartialEq, Eq, Structural)]
pub enum StatusFlag {
    Ready,
    Error,
    Input,
    Others,
}

/// A kind of filesystem change.
#[derive(Clone, Copy, Debug, PartialEq, Eq, Structural)]
pub enum FsOpKind {
    /// Copy the file `source` to `target`.
    CopyFile,
    /// Move or rename `source` to `target`.
    Move,
    /// Remove the file `target`.
    RemoveFile,
    /// Remove the directory `target` with all it holds.
    RemoveDirAll,
    /// Create the directory `target`.
    CreateDir,
    /// Create the empty file `target`.
    CreateFile,
}

/// A filesystem change that the model asks its caller to make. Changes that
/// act on one path leave `source` empty.
pub struct FsOp {
    pub kind: FsOpKind,
    pub source: FsPath,
    pub target: FsPath,
}

impl View for FsOp {
    type V = (FsOpKind, Seq<Seq<char>>, Seq<Seq<char>>);

    open spec fn view(&self) -> (FsOpKind, Seq<Seq<char>>, Seq<Seq<char>>) {
        (self.kind, self.source@, self.target@)
    }
}

/// What the caller does after an operation has decided.
pub enum Step {
    /// Nothing: the operation is over, its outcome is in the status line.
    Done,
    /// Read the current directory again and hand it to `finish`.
    Reload,
    /// Make the change; then call `finish` with the current directory's new
    /// contents, or `abort` if the change failed.
    Perform(FsOp),
}

/// The change that a step hands out, if any.
pub open spec fn step_op(s: Step) -> Option<(FsOpKind, Seq<Seq<char>>, Seq<Seq<char>>)> {
    match s {
        Step::Perform(op) => Some(op@),
        _ => None,
    }
}

/// The history after `u` is recorded: the oldest record leaves when it is full.
pub open spec fn history_pushed(h: Seq<OpsUnit>, u: OpsUnit) -> Seq<OpsUnit> {
    if h.len() < MAX_HISTORY_SIZE {
        seq![u] + h
    } else {
        seq![u] + h.subrange(0, MAX_HISTORY_SIZE - 1)
    }
}

/// The state of the file manager over its current directory.
pub struct FileSys {
    pub current_dir: FsPath,
    pub files: Vec<FileInfo>,
    pub selected_index: Option<usize>,
    pub status_info: String,
    pub status_flag: StatusFlag,
    /// The path to paste, and whether it is copied (else cut).
    pub clipboard: Option<(FsPath, bool)>,
    /// The records, most recent first.
    pub ops_history: VecDeque<OpsUnit>,
    /// The record that the change under way adds once it succeeded.
    pub pending_record: Option<OpsUnit>,
    /// The status that the change under way reports once it succeeded.
    pub pending_message: Option<String>,
}

impl FileSys {
    /// The listing is in listing order, the history is within its bound and
    /// the selection names an entry.
    pub open spec fn wf(&self) -> bool {
        &&& listing_ordered(self.files@)
        &&& self.ops_history@.len() <= MAX_HISTORY_SIZE
        &&& (self.selected_index is Some ==> self.selected_index->0 < self.files@.len())
    }

    /// The selected entry, if any.
    pub open spec fn selected_entry(&self) -> Option<FileInfo> {
        match self.selected_index {
            Some(i) => Some(self.files@[i as int]),
            None => None,
        }
    }

    /// Where pasted and created entries go: into the selected entry if it is
    /// a directory, else into the current directory.
    pub open spec fn drop_dir(&self) -> Seq<Seq<char>> {
        match self.selected_entry() {
            Some(f) => if f.is_dir {
                f.path@
            } else {
                self.current_dir@
            },
            None => self.current_dir@,
        }
    }

    /// What `new_file` guarantees, from the state `pre` to the state `post`.
    pub open spec fn new_file_post(pre: FileSys, name: &str, is_dir: bool, target_exists: bool, post: FileSys, r: Step) -> bool {
        &&& post.wf()
        &&& post.files == pre.files
        &&& post.selected_index == pre.selected_index
        &&& post.current_dir == pre.current_dir
        &&& post.clipboard == pre.clipboard
        &&& post.ops_history == pre.ops_history
        &&& if !valid_name(name@) {
            &&& r is Done
            &&& post.status_info@ == "Invalid Name"@
            &&& post.status_flag == StatusFlag::Error
        } else if target_exists {
            &&& r is Done
            &&& post.status_info@ == name@ + " Exists"@
            &&& post.status_flag == StatusFlag::Error
        } else {
            let target = pre.drop_dir().push(name@);
            &&& step_op(r) == Some(
                (
                    if is_dir { FsOpKind::CreateDir } else { FsOpKind::CreateFile },
                    Seq::<Seq<char>>::empty(),
                    target,
                ),
            )
            &&& post.pending_record matches Some(u) && u@ == (
                Operation::New,
                Seq::<Seq<char>>::empty(),
                target,
            )
            &&& post.pending_message is None
            &&& post.status_info == pre.status_info
            &&& post.status_flag == pre.status_flag
        }
    }

    /// What `rename_selected` guarantees, from the state `pre` to the state `post`.
    pub open spec fn rename_post(pre: FileSys, new_name: &str, target_exists: bool, post: FileSys, r: Step) -> bool {
        &&& post.wf()
        &&& post.files == pre.files
        &&& post.selected_index == pre.selected_index
        &&& post.current_dir == pre.current_dir
        &&& post.clipboard == pre.clipboard
        &&& post.ops_history == pre.ops_history
        &&& if !valid_name(new_name@) {
            &&& r is Done
            &&& post.status_info@ == "Invalid Name"@
            &&& post.status_flag == StatusFlag::Error
        } else if pre.selected_index is None {
            &&& r is Done
            &&& post.status_info@ == "No Selection"@
            &&& post.status_flag == StatusFlag::Error
        } else if target_exists {
            &&& r is Done
            &&& post.status_info@ == new_name@ + " Exists"@
            &&& post.status_flag == StatusFlag::Error
        } else {
            let source = pre.selected_entry()->0.path@;
            let target = pre.current_dir@.push(new_name@);
            &&& step_op(r) == Some((FsOpKind::Move, source, target))
            &&& post.pending_record matches Some(u) && u@ == (
                Operation::Rename,
                source,
                target,
            )
            &&& post.pending_message matches Some(m) && m@ == "Renamed to: "@
                + new_name@
            &&& post.status_info == pre.status_info
            &&& post.status_flag == pre.status_flag
        }
    }

    /// What `undo` guarantees, from the state `pre` to the state `post`.
    pub open spec fn undo_post(pre: FileSys, target_exists: bool, target_is_dir: bool, post: FileSys, r: Step) -> bool {
        &&& post.wf()
        &&& post.files == pre.files
        &&& post.selected_index == pre.selected_index
        &&& post.clipboard == pre.clipboard
        &&& pre.ops_history@.len() == 0 ==> {
            &&& r is Done
            &&& post.status_info@ == "Nothing to undo"@
            &&& post.status_flag == StatusFlag::Others
            &&& post.current_dir == pre.current_dir
            &&& post.ops_history@ == pre.ops_history@
        }
        &&& pre.ops_history@.len() > 0 ==> {
            let u = pre.ops_history@[0];
            let (op, src, tgt) = u@;
            &&& post.ops_history@ == pre.ops_history@.subrange(
                1,
                pre.ops_history@.len() as int,
            )
            &&& post.pending_record is None
            &&& post.pending_message matches Some(m) && m@ == "Undone"@
            &&& post.status_info == pre.status_info
            &&& post.status_flag == pre.status_flag
            &&& (op == Operation::CD ==> post.current_dir@ == src)
            &&& (op != Operation::CD ==> post.current_dir == pre.current_dir)
            &&& step_op(r) == if op == Operation::CD || !target_exists {
                None
            } else if op == Operation::Copy || (op == Operation::New && !target_is_dir) {
                Some((FsOpKind::RemoveFile, Seq::<Seq<char>>::empty(), tgt))
            } else if op == Operation::New {
                Some((FsOpKind::RemoveDirAll, Seq::<Seq<char>>::empty(), tgt))
            } else {
                Some((FsOpKind::Move, tgt, src))
            }
            &&& (step_op(r) is None ==> r is Reload)
        }
    }

    /// What `finish` guarantees, from the state `pre` to the state `post`.
    pub open spec fn finish_post(pre: FileSys, listing: Result<Vec<FileInfo>, String>, post: FileSys) -> bool {
        &&& post.wf()
        &&& post.ops_history@ == match pre.pending_record {
            Some(u) => history_pushed(pre.ops_history@, u),
            None => pre.ops_history@,
        }
        &&& post.pending_record is None
        &&& post.pending_message is None
        &&& post.current_dir == pre.current_dir
        &&& post.clipboard == pre.clipboard
        &&& post.selected_index is None
        &&& match listing {
            Ok(l) => {
                &&& listing_ordered(post.files@)
                &&& post.files@.to_multiset() == l@.to_multiset()
                &&& match pre.pending_message {
                    Some(m) => post.status_info@ == m@ && post.status_flag
                        == StatusFlag::Others,
                    None => post.status_info@ == "Ready"@ && post.status_flag
                        == StatusFlag::Ready,
                }
            },
            Err(e) => {
                &&& post.files@.len() == 0
                &&& post.status_info@ == "Error: "@ + e@
                &&& post.status_flag == StatusFlag::Error
            },
        }
    }

    /// Records `ops` as the most recent operation, dropping the oldest record
    /// when the history is full.
    pub fn push_history(target: &mut VecDeque<OpsUnit>, ops: OpsUnit)
        requires
            old(target)@.len() <= MAX_HISTORY_SIZE,
        ensures
            final(target)@ == history_pushed(old(target)@, ops),
            final(target)@.len() <= MAX_HISTORY_SIZE,
    {
        broadcast use vstd::std_specs::vecdeque::axiom_spec_len;

        if target.len() == MAX_HISTORY_SIZE {
            target.pop_back();
        }
        target.push_front(ops);
    }

    /// A model of `start_dir` whose contents are `listing`.
    pub fn init(start_dir: FsPath, listing: Vec<FileInfo>) -> (r: FileSys)
        ensures
            r.wf(),
            r.current_dir@ == start_dir@,
            listing_ordered(r.files@),
            r.files@.to_multiset() == listing@.to_multiset(),
            r.selected_index is None,
            r.status_info@ == "Ready"@,
            r.status_flag == StatusFlag::Ready,
            r.clipboard is None,
            r.ops_history@.len() == 0,
            r.pending_record is None,
            r.pending_message is None,
    {
        let mut fs = FileSys {
            current_dir: start_dir,
            files: Vec::new(),
            selected_index: None,
            status_info: String::from_str("Initializing"),
            status_flag: StatusFlag::Others,
            clipboard: None,
            ops_history: VecDeque::with_capacity(MAX_HISTORY_SIZE),
            pending_record: None,
            pending_message: None,
        };
        fs.refresh(listing);
        fs
    }

    /// Replaces the listing with `listing` in listing order, and drops the
    /// selection.
    pub fn refresh(&mut self, listing: Vec<FileInfo>)
        requires
            old(self).wf(),
        ensures
            final(self).wf(),
            listing_ordered(final(self).files@),
            final(self).files@.to_multiset() == listing@.to_multiset(),
            final(self).selected_index is None,
            final(self).status_info@ == "Ready"@,
            final(self).status_flag == StatusFlag::Ready,
            final(self).current_dir == old(self).current_dir,
            final(self).clipboard == old(self).clipboard,
            final(self).ops_history == old(self).ops_history,
            final(self).pending_record == old(self).pending_record,
            final(self).pending_message == old(self).pending_message,
    {
        self.files = sort_listing(listing);
        self.selected_index = None;
        self.status_info = String::from_str("Ready");
        self.status_flag = StatusFlag::Ready;
    }

    /// Makes entry `current_index` the selection, if there is such an entry.
    pub fn select_current(&mut self, current_index: usize)
        requires
            old(self).wf(),
        ensures
            final(self).wf(),
            current_index < old(self).files@.len() ==> {
                &&& final(self).selected_index == Some(current_index)
                &&& final(self).status_info@ == "Selected: "@ + old(self).files@[current_index as int].name@
                &&& final(self).status_flag == StatusFlag::Others
                &&& final(self).files == old(self).files
                &&& final(self).current_dir == old(self).current_dir
                &&& final(self).clipboard == old(self).clipboard
                &&& final(self).ops_history == old(self).ops_history
            },
            current_index >= old(self).files@.len() ==> *final(self) == *old(self),
    {
        if current_index < self.files.len() {
            let mut msg = String::from_str("Selected: ");
            msg.append(self.files[current_index].name.as_str());
            self.selected_index = Some(current_index);
            self.status_info = msg;
            self.status_flag = StatusFlag::Others;
        }
    }

    /// Drops the selection.
    pub fn clear_selection(&mut self)
        requires
            old(self).wf(),
        ensures
            final(self).wf(),
            final(self).selected_index is None,
            final(self).files == old(self).files,
            final(self).status_info == old(self).status_info,
            final(self).status_flag == old(self).status_flag,
            final(self).current_dir == old(self).current_dir,
            final(self).clipboard == old(self).clipboard,
            final(self).ops_history == old(self).ops_history,
    {
        self.selected_index = None;
    }

    /// Drops the selection if it is entry `index`; else selects that entry,
    /// if there is one.
    pub fn toggle_selection(&mut self, index: usize)
        requires
            old(self).wf(),
        ensures
            final(self).wf(),
            final(self).selected_index == if old(self).selected_index == Some(index) {
                None
            } else if index < old(self).files@.len() {
                Some(index)
            } else {
                old(self).selected_index
            },
            final(self).files == old(self).files,
            final(self).status_info == old(self).status_info,
            final(self).status_flag == old(self).status_flag,
            final(self).current_dir == old(self).current_dir,
            final(self).clipboard == old(self).clipboard,
            final(self).ops_history == old(self).ops_history,
    {
        if self.selected_index == Some(index) {
            self.selected_index = None;
        } else if index < self.files.len() {
            self.selected_index = Some(index);
        }
    }

    /// Puts the selected file on the clipboard, to be copied (`is_copy`) or
    /// moved by the next paste. A directory is refused.
    pub fn copy_selected(&mut self, is_copy: bool)
        requires
            old(self).wf(),
        ensures
            final(self).wf(),
            final(self).files == old(self).files,
            final(self).selected_index == old(self).selected_index,
            final(self).current_dir == old(self).current_dir,
            final(self).ops_history == old(self).ops_history,
            match old(self).selected_entry() {
                None => {
                    &&& final(self).status_info@ == "No File Selected"@
                    &&& final(self).status_flag == StatusFlag::Error
                    &&& final(self).clipboard == old(self).clipboard
                },
                Some(f) => if f.is_dir {
                    &&& final(self).status_info@ == "Operation Not Supported"@
                    &&& final(self).status_flag == StatusFlag::Error
                    &&& final(self).clipboard == old(self).clipboard
                } else {
                    &&& final(self).clipboard matches Some((p, c)) && p@ == f.path@ && c == is_copy
                    &&& final(self).status_info@ == (if is_copy {
                        "Copied: "@
                    } else {
                        "Cut: "@
                    }) + f.name@
                    &&& final(self).status_flag == StatusFlag::Others
                },
            },
    {
        match self.selected_index {
            Some(i) => {
                let file = &self.files[i];
                if !file.is_dir {
                    let mut msg = if is_copy {
                        String::from_str("Copied: ")
                    } else {
                        String::from_str("Cut: ")
                    };
                    msg.append(file.name.as_str());
                    self.clipboard = Some((file.path.duplicate(), is_copy));
                    self.status_info = msg;
                    self.status_flag = StatusFlag::Others;
                } else {
                    self.status_info = String::from_str("Operation Not Supported");
                    self.status_flag = StatusFlag::Error;
                }
            },
            None => {
                self.status_info = String::from_str("No File Selected");
                self.status_flag = StatusFlag::Error;
            },
        }
    }

    /// The directory that pasted and created entries go into.
    pub fn drop_dir_path(&self) -> (r: FsPath)
        requires
            self.wf(),
        ensures
            r@ == self.drop_dir(),
    {
        match self.selected_index {
            Some(i) => {
                if self.files[i].is_dir {
                    self.files[i].path.duplicate()
                } else {
                    self.current_dir.duplicate()
                }
            },
            None => self.current_dir.duplicate(),
        }
    }

    /// The clipboard's path and where a paste would put it, if the clipboard
    /// holds a path with a last component: the caller checks whether each
    /// exists before it calls `paste`.
    pub fn paste_paths(&self) -> (r: Option<(FsPath, FsPath)>)
        requires
            self.wf(),
        ensures
            match self.clipboard {
                Some((src, _)) => if src@.len() > 0 {
                    r matches Some((a, b)) && a@ == src@ && b@ == self.drop_dir().push(src@.last())
                } else {
                    r is None
                },
                None => r is None,
            },
    {
        match &self.clipboard {
            Some((src, _)) => {
                match src.file_name() {
                    Some(name) => {
                        let dir = self.drop_dir_path();
                        Some((src.duplicate(), dir.join(name.as_str())))
                    },
                    None => None,
                }
            },
            None => None,
        }
    }

    /// Pastes the clipboard's path into the directory that `drop_dir` names,
    /// given whether that path (`source_exists`) and the place it would go
    /// (`target_exists`) exist now. Nothing is handed out when the target is
    /// taken; the clipboard stays for further pastes.
    pub fn paste(&mut self, source_exists: bool, target_exists: bool) -> (r: Step)
        requires
            old(self).wf(),
        ensures
            final(self).wf(),
            final(self).files == old(self).files,
            final(self).selected_index == old(self).selected_index,
            final(self).current_dir == old(self).current_dir,
            final(self).ops_history == old(self).ops_history,
            match old(self).clipboard {
                None => {
                    &&& r is Done
                    &&& final(self).status_info@ == "Clipboard is empty"@
                    &&& final(self).status_flag == StatusFlag::Error
                    &&& final(self).clipboard is None
                },
                Some((src, is_copy)) => if !source_exists {
                    &&& r is Done
                    &&& final(self).status_info@ == "Source file does not exist"@
                    &&& final(self).status_flag == StatusFlag::Error
                    &&& final(self).clipboard is None
                } else if src@.len() == 0 {
                    &&& r is Done
                    &&& final(self).status_info@ == "Invalid file name"@
                    &&& final(self).status_flag == StatusFlag::Error
                    &&& final(self).clipboard == old(self).clipboard
                } else if target_exists {
                    &&& r is Done
                    &&& final(self).status_info@ == "File already exists"@
                    &&& final(self).status_flag == StatusFlag::Error
                    &&& final(self).clipboard == old(self).clipboard
                } else {
                    let target = old(self).drop_dir().push(src@.last());
                    &&& step_op(r) == Some(
                        (if is_copy { FsOpKind::CopyFile } else { FsOpKind::Move }, src@, target),
                    )
                    &&& final(self).pending_record matches Some(u) && u@ == (
                        if is_copy { Operation::Copy } else { Operation::Cut },
                        src@,
                        target,
                    )
                    &&& final(self).pending_message matches Some(m) && m@ == "Pasted: "@
                        + src@.last()
                    &&& final(self).clipboard == old(self).clipboard
                    &&& final(self).status_info == old(self).status_info
                    &&& final(self).status_flag == old(self).status_flag
                },
            },
    {
        let (source, is_copy) = match &self.clipboard {
            Some((p, c)) => (p.duplicate(), *c),
            None => {
                self.status_info = String::from_str("Clipboard is empty");
                self.status_flag = StatusFlag::Error;
                return Step::Done;
            },
        };
        if !source_exists {
            self.status_info = String::from_str("Source file does not exist");
            self.status_flag = StatusFlag::Error;
            self.clipboard = None;
            return Step::Done;
        }
        let file_name = match source.file_name() {
            Some(n) => n,
            None => {
                self.status_info = String::from_str("Invalid file name");
                self.status_flag = StatusFlag::Error;
                return Step::Done;
            },
        };
        if target_exists {
            self.status_info = String::from_str("File already exists");
            self.status_flag = StatusFlag::Error;
            return Step::Done;
        }
        let target = self.drop_dir_path().join(file_name.as_str());
        let kind = if is_copy { FsOpKind::CopyFile } else { FsOpKind::Move };
        let operation = if is_copy { Operation::Copy } else { Operation::Cut };
        let mut msg = String::from_str("Pasted: ");
        msg.append(file_name.as_str());
        self.pending_record = Some(
            OpsUnit { operation, file_source: source.duplicate(), file_target: target.duplicate() },
        );
        self.pending_message = Some(msg);
        Step::Perform(FsOp { kind, source, target })
    }

    /// Removes the selected entry, a directory with all it holds. Deleting is
    /// not recorded in the history.
    pub fn delete_selected(&mut self) -> (r: Step)
        requires
            old(self).wf(),
        ensures
            final(self).wf(),
            final(self).files == old(self).files,
            final(self).selected_index == old(self).selected_index,
            final(self).current_dir == old(self).current_dir,
            final(self).clipboard == old(self).clipboard,
            final(self).ops_history == old(self).ops_history,
            match old(self).selected_entry() {
                None => {
                    &&& r is Done
                    &&& final(self).status_info@ == "No Selected"@
                    &&& final(self).status_flag == StatusFlag::Error
                },
                Some(f) => {
                    &&& step_op(r) == Some(
                        (
                            if f.is_dir { FsOpKind::RemoveDirAll } else { FsOpKind::RemoveFile },
                            Seq::<Seq<char>>::empty(),
                            f.path@,
                        ),
                    )
                    &&& final(self).pending_record is None
                    &&& final(self).pending_message matches Some(m) && m@ == "Deleted: "@ + f.name@
                    &&& final(self).status_info == old(self).status_info
                    &&& final(self).status_flag == old(self).status_flag
                },
            },
    {
        match self.selected_index {
            Some(i) => {
                let file = &self.files[i];
                let kind = if file.is_dir { FsOpKind::RemoveDirAll } else { FsOpKind::RemoveFile };
                let mut msg = String::from_str("Deleted: ");
                msg.append(file.name.as_str());
                let op = FsOp { kind, source: FsPath::root(), target: file.path.duplicate() };
                self.pending_record = None;
                self.pending_message = Some(msg);
                Step::Perform(op)
            },
            None => {
                self.status_info = String::from_str("No Selected");
                self.status_flag = StatusFlag::Error;
                Step::Done
            },
        }
    }

    /// Where `new_file` would create `name`: the caller checks whether it
    /// exists before it calls `new_file`.
    pub fn new_file_target(&self, name: &str) -> (r: FsPath)
        requires
            self.wf(),
        ensures
            r@ == self.drop_dir().push(name@),
    {
        self.drop_dir_path().join(name)
    }

    /// Creates the directory (`is_dir`) or the empty file `name` inside the
    /// directory that `drop_dir` names, given whether that path exists now.
    pub fn new_file(&mut self, name: &str, is_dir: bool, target_exists: bool) -> (r: Step)
        requires
            old(self).wf(),
        ensures
            Self::new_file_post(*old(self), name, is_dir, target_exists, *final(self), r),
    {
        if validate_filename(name).is_err() {
            self.status_info = String::from_str("Invalid Name");
            self.status_flag = StatusFlag::Error;
            return Step::Done;
        }
        if target_exists {
            let mut msg = String::from_str(name);
            msg.append(" Exists");
            self.status_info = msg;
            self.status_flag = StatusFlag::Error;
            return Step::Done;
        }
        let target = self.new_file_target(name);
        let kind = if is_dir { FsOpKind::CreateDir } else { FsOpKind::CreateFile };
        self.pending_record = Some(
            OpsUnit {
                operation: Operation::New,
                file_source: FsPath::root(),
                file_target: target.duplicate(),
            },
        );
        self.pending_message = None;
        Step::Perform(FsOp { kind, source: FsPath::root(), target })
    }

    /// Where `rename_selected` would move the selection to: `new_name` in the
    /// current directory.
    pub fn rename_target(&self, new_name: &str) -> (r: FsPath)
        ensures
            r@ == self.current_dir@.push(new_name@),
    {
        self.current_dir.join(new_name)
    }

    /// Renames the selected entry to `new_name` in the current directory,
    /// given whether that path exists now.
    pub fn rename_selected(&mut self, new_name: &str, target_exists: bool) -> (r: Step)
        requires
            old(self).wf(),
        ensures
            Self::rename_post(*old(self), new_name, target_exists, *final(self), r),
    {
        if validate_filename(new_name).is_err() {
            self.status_info = String::from_str("Invalid Name");
            self.status_flag = StatusFlag::Error;
            return Step::Done;
        }
        let source = match self.selected_index {
            Some(i) => self.files[i].path.duplicate(),
            None => {
                self.status_info = String::from_str("No Selection");
                self.status_flag = StatusFlag::Error;
                return Step::Done;
            },
        };
        if target_exists {
            let mut msg = String::from_str(new_name);
            msg.append(" Exists");
            self.status_info = msg;
            self.status_flag = StatusFlag::Error;
            return Step::Done;
        }
        let target = self.rename_target(new_name);
        let mut msg = String::from_str("Renamed to: ");
        msg.append(new_name);
        self.pending_record = Some(
            OpsUnit {
                operation: Operation::Rename,
                file_source: source.duplicate(),
                file_target: target.duplicate(),
            },
        );
        self.pending_message = Some(msg);
        Step::Perform(FsOp { kind: FsOpKind::Move, source, target })
    }

    /// Moves to the parent of the current directory, recording the move.
    /// At the root there is no parent, and nothing changes but the status.
    pub fn parent_dir(&mut self) -> (r: Step)
        requires
            old(self).wf(),
        ensures
            final(self).wf(),
            final(self).files == old(self).files,
            final(self).clipboard == old(self).clipboard,
            final(self).ops_history == old(self).ops_history,
            if old(self).current_dir@.len() == 0 {
                &&& r is Done
                &&& final(self).status_info@ == "Root Dir"@
                &&& final(self).status_flag == StatusFlag::Error
                &&& final(self).current_dir == old(self).current_dir
                &&& final(self).selected_index == old(self).selected_index
            } else {
                &&& r is Reload
                &&& final(self).selected_index is None
                &&& final(self).current_dir@ == old(self).current_dir@.drop_last()
                &&& final(self).pending_record matches Some(u) && u@ == (
                    Operation::CD,
                    old(self).current_dir@,
                    old(self).current_dir@.drop_last(),
                )
                &&& final(self).pending_message is None
                &&& final(self).status_info == old(self).status_info
                &&& final(self).status_flag == old(self).status_flag
            },
    {
        match self.current_dir.parent() {
            Some(parent) => {
                self.pending_record = Some(
                    OpsUnit {
                        operation: Operation::CD,
                        file_source: self.current_dir.duplicate(),
                        file_target: parent.duplicate(),
                    },
                );
                self.pending_message = None;
                self.current_dir = parent;
                self.selected_index = None;
                Step::Reload
            },
            None => {
                self.status_info = String::from_str("Root Dir");
                self.status_flag = StatusFlag::Error;
                Step::Done
            },
        }
    }

    /// Enters the directory at `index`, which must be the selected entry,
    /// recording the move. Anything else changes nothing but the status.
    pub fn sub_dir(&mut self, index: usize) -> (r: Step)
        requires
            old(self).wf(),
        ensures
            final(self).wf(),
            final(self).files == old(self).files,
            final(self).clipboard == old(self).clipboard,
            final(self).ops_history == old(self).ops_history,
            if old(self).selected_index != Some(index) || !old(self).files@[index as int].is_dir {
                &&& r is Done
                &&& final(self).status_info@ == "No Selection"@
                &&& final(self).status_flag == StatusFlag::Error
                &&& final(self).current_dir == old(self).current_dir
                &&& final(self).selected_index == old(self).selected_index
            } else {
                let dir = old(self).files@[index as int].path@;
                &&& r is Reload
                &&& final(self).current_dir@ == dir
                &&& final(self).selected_index is None
                &&& final(self).pending_record matches Some(u) && u@ == (
                    Operation::CD,
                    old(self).current_dir@,
                    dir,
                )
                &&& final(self).pending_message is None
                &&& final(self).status_info == old(self).status_info
                &&& final(self).status_flag == old(self).status_flag
            },
    {
        let is_selected_dir = match self.selected_index {
            Some(i) => i == index && self.files[i].is_dir,
            None => false,
        };
        if !is_selected_dir {
            self.status_info = String::from_str("No Selection");
            self.status_flag = StatusFlag::Error;
            return Step::Done;
        }
        let dir = self.files[index].path.duplicate();
        self.pending_record = Some(
            OpsUnit {
                operation: Operation::CD,
                file_source: self.current_dir.duplicate(),
                file_target: dir.duplicate(),
            },
        );
        self.pending_message = None;
        self.current_dir = dir;
        self.selected_index = None;
        Step::Reload
    }

    /// The target of the most recent record, if any: the caller checks
    /// whether it exists, and whether it is a directory, before it calls
    /// `undo`.
    pub fn undo_target(&self) -> (r: Option<FsPath>)
        ensures
            self.ops_history@.len() == 0 ==> r is None,
            self.ops_history@.len() > 0 ==> (r matches Some(p) && p@
                == self.ops_history@[0].file_target@),
    {
        broadcast use vstd::std_specs::vecdeque::axiom_spec_len;

        if self.ops_history.len() == 0 {
            None
        } else {
            Some(self.ops_history[0].file_target.duplicate())
        }
    }

    /// Takes back the most recent record, given whether its target exists
    /// now and is a directory. The record leaves the history, and nothing
    /// takes its place.
    pub fn undo(&mut self, target_exists: bool, target_is_dir: bool) -> (r: Step)
        requires
            old(self).wf(),
        ensures
            Self::undo_post(*old(self), target_exists, target_is_dir, *final(self), r),
    {
        let last_op = match self.ops_history.pop_front() {
            Some(op) => op,
            None => {
                self.status_info = String::from_str("Nothing to undo");
                self.status_flag = StatusFlag::Others;
                return Step::Done;
            },
        };
        self.pending_record = None;
        self.pending_message = Some(String::from_str("Undone"));
        let OpsUnit { operation, file_source, file_target } = last_op;
        match operation {
            Operation::CD => {
                self.current_dir = file_source;
                Step::Reload
            },
            _ => {
                if !target_exists {
                    return Step::Reload;
                }
                match operation {
                    Operation::Copy => Step::Perform(
                        FsOp { kind: FsOpKind::RemoveFile, source: FsPath::root(), target: file_target },
                    ),
                    Operation::New => {
                        let kind = if target_is_dir {
                            FsOpKind::RemoveDirAll
                        } else {
                            FsOpKind::RemoveFile
                        };
                        Step::Perform(FsOp { kind, source: FsPath::root(), target: file_target })
                    },
                    _ => Step::Perform(
                        FsOp { kind: FsOpKind::Move, source: file_target, target: file_source },
                    ),
                }
            },
        }
    }

    /// Ends the change under way, which succeeded: its record, if any, enters
    /// the history, and the listing becomes `listing`, the current
    /// directory's contents, or is emptied when they could not be read
    /// (`Err`, with the reason).
    pub fn finish(&mut self, listing: Result<Vec<FileInfo>, String>)
        requires
            old(self).wf(),
        ensures
            Self::finish_post(*old(self), listing, *final(self)),
    {
        match self.pending_record.take() {
            Some(u) => Self::push_history(&mut self.ops_history, u),
            None => {},
        }
        let message = self.pending_message.take();
        match listing {
            Ok(l) => {
                self.refresh(l);
                match message {
                    Some(m) => {
                        self.status_info = m;
                        self.status_flag = StatusFlag::Others;
                    },
                    None => {},
                }
            },
            Err(e) => {
                let mut msg = String::from_str("Error: ");
                msg.append(e.as_str());
                self.files = Vec::new();
                self.selected_index = None;
                self.status_info = msg;
                self.status_flag = StatusFlag::Error;
            },
        }
    }

    /// Ends the change under way, which failed for `reason`: nothing is
    /// recorded.
    pub fn abort(&mut self, reason: &str)
        requires
            old(self).wf(),
        ensures
            final(self).wf(),
            final(self).pending_record is None,
            final(self).pending_message is None,
            final(self).status_info@ == "Error: "@ + reason@,
            final(self).status_flag == StatusFlag::Error,
            final(self).files == old(self).files,
            final(self).selected_index == old(self).selected_index,
            final(self).current_dir == old(self).current_dir,
            final(self).clipboard == old(self).clipboard,
            final(self).ops_history == old(self).ops_history,
    {
        let mut msg = String::from_str("Error: ");
        msg.append(reason);
        self.pending_record = None;
        self.pending_message = None;
        self.status_info = msg;
        self.status_flag = StatusFlag::Error;
    }

    pub fn files(&self) -> (r: &Vec<FileInfo>)
        ensures
            r == &self.files,
    {
        &self.files
    }

    pub fn current_dir(&self) -> (r: &FsPath)
        ensures
            r == &self.current_dir,
    {
        &self.current_dir
    }

    pub fn status_info(&self) -> (r: &str)
        ensures
            r@ == self.status_info@,
    {
        self.status_info.as_str()
    }

    pub fn status_flag(&self) -> (r: StatusFlag)
        ensures
            r == self.status_flag,
    {
        self.status_flag
    }

    pub fn selected_index(&self) -> (r: Option<usize>)
        ensures
            r == self.selected_index,
    {
        self.selected_index
    }
}

} // verus!
