//! The `init` command: set up the install root.

use crate::config::{joined, Config};
use crate::plan::{plan_view, push_op, FsOp, FsOpView};
use crate::text::{field, line, push_field, push_line};
use vstd::prelude::*;

verus! {

/// Why the install root was not set up.
#[derive(Debug, PartialEq, Eq)]
pub enum InitError {
    /// The installer's binary is already in the install root.
    AlreadyInitialized { install_dir: String },
}

impl InitError {
    /// The install root that was found set up.
    pub open spec fn spec_install_dir(self) -> Seq<char> {
        match self {
            InitError::AlreadyInitialized { install_dir } => install_dir@,
        }
    }
}

/// The operations that set up an install root: create its directories,
/// copy the running executable into it, and make the copy executable.
pub open spec fn init_ops(config: Config, current_exe: Seq<char>) -> Seq<FsOpView> {
    config.spec_ensure_dirs() + seq![
        FsOpView::CopyFile { from: current_exe, to: joined(config.bin_dir@, "ampup"@) },
        FsOpView::MakeExecutable { path: joined(config.bin_dir@, "ampup"@) },
    ]
}

/// Plan the set-up of an install root. An install root that already holds
/// the installer's binary is left alone.
pub fn run(config: &Config, already_initialized: bool, current_exe: &str) -> (r: Result<
    Vec<FsOp>,
    InitError,
>)
    ensures
        match r {
            Ok(ops) => !already_initialized && plan_view(ops@) == init_ops(*config, current_exe@),
            Err(e) => already_initialized && e.spec_install_dir() == config.amp_dir@,
        },
{
    if already_initialized {
        return Err(InitError::AlreadyInitialized { install_dir: config.amp_dir.clone() });
    }
    let mut ops = config.ensure_dirs();
    let ampup_path = config.ampup_binary_path();
    push_op(&mut ops, FsOp::CopyFile { from: String::from_str(current_exe), to: ampup_path.clone() });
    push_op(&mut ops, FsOp::MakeExecutable { path: ampup_path });
    assert(plan_view(ops@) =~= init_ops(*config, current_exe@));
    Ok(ops)
}

/// The message for an install root that is already set up.
pub open spec fn already_initialized_message(install_dir: Seq<char>) -> Seq<char> {
    let m = Seq::<char>::empty();
    let m = line(m, "ampup is already initialized"@);
    let m = field(m, "  Installation: "@, install_dir);
    let m = line(m, ""@);
    let m = line(m, "  If you want to reinstall, remove the directory first:"@);
    let m = field(m, "    rm -rf "@, install_dir);
    m
}

impl InitError {
    /// The message that tells the user what went wrong and what to try.
    pub fn message(&self) -> (text: String)
        ensures
            text@ == already_initialized_message(self.spec_install_dir()),
    {
        let mut m = String::new();
        match self {
            InitError::AlreadyInitialized { install_dir } => {
                push_line(&mut m, "ampup is already initialized");
                push_field(&mut m, "  Installation: ", install_dir.as_str());
                push_line(&mut m, "");
                push_line(&mut m, "  If you want to reinstall, remove the directory first:");
                push_field(&mut m, "    rm -rf ", install_dir.as_str());
            },
        }
        m
    }
}

} // verus!
