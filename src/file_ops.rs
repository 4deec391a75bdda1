use vstd::prelude::*;
use crate::path::FsPath;

verus! {

/// What a history record undoes.
#[derive(Clone, Copy, Debug, PartialEq, Eq, Structural)]
pub enum Operation {
    Copy,
    Cut,
    Rename,
    New,
    CD,
}

/// One record of the history: an applied change, or a change of directory.
pub struct OpsUnit {
    pub operation: Operation,
    pub file_source: FsPath,
    pub file_target: FsPath,
}

impl View for OpsUnit {
    type V = (Operation, Seq<Seq<char>>, Seq<Seq<char>>);

    open spec fn view(&self) -> (Operation, Seq<Seq<char>>, Seq<Seq<char>>) {
        (self.operation, self.file_source@, self.file_target@)
    }
}

/// The records of a history, most recent first.
pub open spec fn records(h: Seq<OpsUnit>) -> Seq<(Operation, Seq<Seq<char>>, Seq<Seq<char>>)> {
    h.map_values(|u: OpsUnit| u@)
}

} // verus!
