use vstd::prelude::*;
use crate::file_info::{
    FileInfo, lemma_ordered_listing_unique, listing_ordered, listed_before, name_before,
};
use crate::file_ops::{Operation, OpsUnit};
use crate::file_system_info::{
    FileSys, FsOpKind, MAX_HISTORY_SIZE, Step, history_pushed, step_op,
};
use crate::names::has_dot_dot;

verus! {

/// In an ordered listing every directory comes before every file, and
/// within each group the names never go down.
pub proof fn lemma_listing_groups(s: Seq<FileInfo>)
    requires
        listing_ordered(s),
    ensures
        forall|i: int, j: int| 0 <= i < j < s.len() && #[trigger] s[j].is_dir ==> #[trigger] s[i].is_dir,
        forall|i: int, j: int|
            0 <= i < j < s.len() && s[i].is_dir == s[j].is_dir ==> !name_before(
                #[trigger] s[j].name@,
                #[trigger] s[i].name@,
            ),
{
    assert forall|i: int, j: int| 0 <= i < j < s.len() && #[trigger] s[j].is_dir implies #[trigger] s[i].is_dir by {
        assert(!listed_before(s[j], s[i]));
    }
    assert forall|i: int, j: int|
        0 <= i < j < s.len() && s[i].is_dir == s[j].is_dir implies !name_before(
            #[trigger] s[j].name@,
            #[trigger] s[i].name@,
        ) by {
        assert(!listed_before(s[j], s[i]));
    }
}

/// The history never grows past its bound. Recording into a full history
/// drops the oldest record and keeps the others in their order, behind the
/// new one; otherwise every record stays.
pub proof fn lemma_history_bounded(h: Seq<OpsUnit>, u: OpsUnit)
    requires
        h.len() <= MAX_HISTORY_SIZE,
    ensures
        history_pushed(h, u).len() <= MAX_HISTORY_SIZE,
        history_pushed(h, u)[0] == u,
        h.len() == MAX_HISTORY_SIZE ==> history_pushed(h, u).len() == MAX_HISTORY_SIZE,
        forall|k: int|
            0 <= k < h.len() && k < MAX_HISTORY_SIZE - 1 ==> #[trigger] history_pushed(h, u)[k + 1]
                == h[k],
{
}

/// A new name with a path separator, a parent reference or a null
/// character is refused: nothing is handed out for the filesystem, and the
/// listing, directory, clipboard and history stay as they were.
pub proof fn lemma_rename_rejects(
    pre: FileSys,
    new_name: &str,
    target_exists: bool,
    post: FileSys,
    r: Step,
)
    requires
        FileSys::rename_post(pre, new_name, target_exists, post, r),
        new_name@.contains('/') || has_dot_dot(new_name@) || new_name@.contains('\0'),
    ensures
        r is Done,
        post.status_info@ == "Invalid Name"@,
        post.files == pre.files,
        post.current_dir == pre.current_dir,
        post.clipboard == pre.clipboard,
        post.ops_history == pre.ops_history,
{
}

/// Undoing the creation of a file removes the very path that was created,
/// and leaves the directory and the history as they were before; once the
/// directory reads as it did before, the listing is exactly the one from
/// before the creation.
pub proof fn lemma_undo_reverts_create(
    s0: FileSys,
    name: &str,
    s1: FileSys,
    created: Step,
    after_create: Vec<FileInfo>,
    s2: FileSys,
    s3: FileSys,
    removed: Step,
    after_undo: Vec<FileInfo>,
    s4: FileSys,
)
    requires
        s0.wf(),
        FileSys::new_file_post(s0, name, false, false, s1, created),
        step_op(created) is Some,
        FileSys::finish_post(s1, Ok(after_create), s2),
        FileSys::undo_post(s2, true, false, s3, removed),
        FileSys::finish_post(s3, Ok(after_undo), s4),
        after_undo@.to_multiset() == s0.files@.to_multiset(),
        forall|i: int, j: int|
            0 <= i < j < s0.files@.len() ==> s0.files@[i].name@ != s0.files@[j].name@,
    ensures
        step_op(created) == Some(
            (FsOpKind::CreateFile, Seq::<Seq<char>>::empty(), s0.drop_dir().push(name@)),
        ),
        step_op(removed) == Some(
            (FsOpKind::RemoveFile, Seq::<Seq<char>>::empty(), s0.drop_dir().push(name@)),
        ),
        s4.current_dir == s0.current_dir,
        s0.ops_history@.len() < MAX_HISTORY_SIZE ==> s4.ops_history@ == s0.ops_history@,
        s4.files@ == s0.files@,
{
    let u = s1.pending_record->0;
    assert(s2.ops_history@ == history_pushed(s0.ops_history@, u));
    assert(s2.ops_history@[0] == u);
    assert(u@.0 == Operation::New);
    if s0.ops_history@.len() < MAX_HISTORY_SIZE {
        assert(s3.ops_history@ =~= s0.ops_history@);
    }
    lemma_ordered_listing_unique(s0.files@, s4.files@);
}

} // verus!
