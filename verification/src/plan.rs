//! Filesystem work, written down as values.
//!
//! The library never touches the disk. Where a decision calls for changes on
//! disk, it returns them as a sequence of operations, to be carried out in
//! order and abandoned at the first one that fails.

use vstd::prelude::*;

verus! {

/// One change to the filesystem.
#[derive(Debug, PartialEq, Eq)]
pub enum FsOp {
    /// Create a directory and every missing parent.
    CreateDirAll { path: String },
    /// Remove a file or a symbolic link.
    RemoveFile { path: String },
    /// Remove a directory with all it holds.
    RemoveDirAll { path: String },
    /// Create a symbolic link at `link` that points to `target`.
    Symlink { target: String, link: String },
    /// Write a file, replacing what was there.
    WriteFile { path: String, contents: Vec<u8> },
    /// Copy a file, replacing what was at `to`.
    CopyFile { from: String, to: String },
    /// Set the permission bits of a file to `rwxr-xr-x`.
    MakeExecutable { path: String },
    /// Move a file, replacing what was at `to`.
    Rename { from: String, to: String },
}

/// How a command that was run ended.
pub struct CommandOutput {
    /// The command exited with success.
    pub success: bool,
    /// What the command wrote to its standard output.
    pub stdout: Vec<u8>,
}

/// The mathematical value of an operation.
pub enum FsOpView {
    CreateDirAll { path: Seq<char> },
    RemoveFile { path: Seq<char> },
    RemoveDirAll { path: Seq<char> },
    Symlink { target: Seq<char>, link: Seq<char> },
    WriteFile { path: Seq<char>, contents: Seq<u8> },
    CopyFile { from: Seq<char>, to: Seq<char> },
    MakeExecutable { path: Seq<char> },
    Rename { from: Seq<char>, to: Seq<char> },
}

impl View for FsOp {
    type V = FsOpView;

    open spec fn view(&self) -> FsOpView {
        match self {
            FsOp::CreateDirAll { path } => FsOpView::CreateDirAll { path: path@ },
            FsOp::RemoveFile { path } => FsOpView::RemoveFile { path: path@ },
            FsOp::RemoveDirAll { path } => FsOpView::RemoveDirAll { path: path@ },
            FsOp::Symlink { target, link } => FsOpView::Symlink { target: target@, link: link@ },
            FsOp::WriteFile { path, contents } => FsOpView::WriteFile {
                path: path@,
                contents: contents@,
            },
            FsOp::CopyFile { from, to } => FsOpView::CopyFile { from: from@, to: to@ },
            FsOp::MakeExecutable { path } => FsOpView::MakeExecutable { path: path@ },
            FsOp::Rename { from, to } => FsOpView::Rename { from: from@, to: to@ },
        }
    }
}

/// The mathematical value of a sequence of operations.
pub open spec fn plan_view(ops: Seq<FsOp>) -> Seq<FsOpView> {
    ops.map_values(|op: FsOp| op@)
}

/// Append one operation to a plan.
pub fn push_op(ops: &mut Vec<FsOp>, op: FsOp)
    ensures
        plan_view(final(ops)@) == plan_view(old(ops)@).push(op@),
{
    ops.push(op);
    assert(plan_view(ops@) =~= plan_view(old(ops)@).push(op@));
}

/// Append every operation of `more` to a plan.
pub fn extend_plan(ops: &mut Vec<FsOp>, more: Vec<FsOp>)
    ensures
        plan_view(final(ops)@) == plan_view(old(ops)@) + plan_view(more@),
{
    let mut rest = more;
    let ghost added = rest@;
    ops.append(&mut rest);
    assert(plan_view(ops@) =~= plan_view(old(ops)@) + plan_view(added));
}

} // verus!
