//! The user's shell and its profile file.

use crate::config::{join, joined};
use crate::text::{
    contains, ends_with, line, push_line, text_contains, text_ends_with, trim_end, trimmed_end,
};
use vstd::prelude::*;

verus! {

/// Why the search path could not be extended.
#[derive(Debug, PartialEq, Eq)]
pub enum ShellError {
    /// `SHELL` is not set or names no supported shell.
    ShellNotDetected,
}

/// Supported shells.
#[derive(Debug, Clone, Copy, PartialEq, Eq, Structural)]
pub enum Shell {
    Zsh,
    Bash,
    Fish,
    Ash,
}

/// The shell that a value of `SHELL` names, by the file name it ends in.
pub open spec fn shell_of(path: Seq<char>) -> Option<Shell> {
    if text_ends_with(path, "/zsh"@) {
        Some(Shell::Zsh)
    } else if text_ends_with(path, "/bash"@) {
        Some(Shell::Bash)
    } else if text_ends_with(path, "/fish"@) {
        Some(Shell::Fish)
    } else if text_ends_with(path, "/ash"@) {
        Some(Shell::Ash)
    } else {
        None
    }
}

/// The profile after the export line was added: the line alone for an empty
/// profile; for a profile that ends in a line break, the profile without
/// its trailing white space, a line break and the line; otherwise the
/// profile, an empty line and the line. The result ends in a line break.
pub open spec fn profile_with(content: Seq<char>, line: Seq<char>) -> Seq<char> {
    if content.len() == 0 {
        line + "\n"@
    } else if text_ends_with(content, "\n"@) {
        trimmed_end(content) + "\n"@ + line + "\n"@
    } else {
        content + "\n\n"@ + line + "\n"@
    }
}

impl Shell {
    /// Detect the shell from the value of `SHELL`.
    pub fn detect(shell: Option<&str>) -> (r: Option<Shell>)
        ensures
            r == (match shell {
                Some(path) => shell_of(path@),
                None => None,
            }),
    {
        let path = match shell {
            Some(path) => path,
            None => {
                return None;
            },
        };
        if ends_with(path, "/zsh") {
            Some(Shell::Zsh)
        } else if ends_with(path, "/bash") {
            Some(Shell::Bash)
        } else if ends_with(path, "/fish") {
            Some(Shell::Fish)
        } else if ends_with(path, "/ash") {
            Some(Shell::Ash)
        } else {
            None
        }
    }

    /// The profile file of this shell.
    pub open spec fn spec_profile_path(self, home: Seq<char>, zdotdir: Option<Seq<char>>) -> Seq<char> {
        match self {
            Shell::Zsh => joined(
                match zdotdir {
                    Some(dir) => dir,
                    None => home,
                },
                ".zshenv"@,
            ),
            Shell::Bash => joined(home, ".bashrc"@),
            Shell::Fish => joined(home, ".config/fish/config.fish"@),
            Shell::Ash => joined(home, ".profile"@),
        }
    }

    /// The profile file of this shell, under the home directory or, for zsh,
    /// under `ZDOTDIR` where that is set.
    pub fn profile_path(&self, home: &str, zdotdir: Option<&str>) -> (r: String)
        ensures
            r@ == self.spec_profile_path(
                home@,
                match zdotdir {
                    Some(dir) => Some(dir@),
                    None => None,
                },
            ),
    {
        match self {
            Shell::Zsh => {
                let base = match zdotdir {
                    Some(dir) => dir,
                    None => home,
                };
                join(base, ".zshenv")
            },
            Shell::Bash => join(home, ".bashrc"),
            Shell::Fish => join(home, ".config/fish/config.fish"),
            Shell::Ash => join(home, ".profile"),
        }
    }

    /// The line that puts a directory on the search path.
    pub open spec fn spec_path_export_line(self, bin_dir: Seq<char>) -> Seq<char> {
        match self {
            Shell::Fish => "fish_add_path -a "@ + bin_dir,
            _ => "export PATH=\"$PATH:"@ + bin_dir + "\""@,
        }
    }

    /// The line of this shell that puts a directory on the search path.
    pub fn path_export_line(&self, bin_dir: &str) -> (r: String)
        ensures
            r@ == self.spec_path_export_line(bin_dir@),
    {
        match self {
            Shell::Fish => {
                let mut r = String::from_str("fish_add_path -a ");
                r.append(bin_dir);
                r
            },
            _ => {
                let mut r = String::from_str("export PATH=\"$PATH:");
                r.append(bin_dir);
                r.append("\"");
                r
            },
        }
    }
}

/// The new contents of a profile that is to hold the export line, or
/// nothing where the profile holds the line already. `content` is empty for
/// a profile that does not exist.
pub fn add_to_path(content: &str, export_line: &str) -> (r: Option<String>)
    ensures
        match r {
            Some(updated) => !text_contains(content@, export_line@) && updated@ == profile_with(
                content@,
                export_line@,
            ),
            None => text_contains(content@, export_line@),
        },
{
    if contains(content, export_line) {
        return None;
    }
    if content.unicode_len() == 0 {
        let mut r = String::from_str(export_line);
        r.append("\n");
        Some(r)
    } else if ends_with(content, "\n") {
        let mut r = trim_end(content);
        r.append("\n");
        r.append(export_line);
        r.append("\n");
        Some(r)
    } else {
        let mut r = String::from_str(content);
        r.append("\n\n");
        r.append(export_line);
        r.append("\n");
        Some(r)
    }
}

/// The message for a shell that was not detected.
pub open spec fn shell_not_detected_message() -> Seq<char> {
    let m = Seq::<char>::empty();
    let m = line(m, "Could not detect shell type"@);
    let m = line(m, ""@);
    let m = line(m, "  The SHELL environment variable is not set or is unsupported."@);
    let m = line(m, "  Supported shells: bash, zsh, fish, ash"@);
    let m = line(m, ""@);
    let m = line(m, "  You can manually add the following to your shell profile:"@);
    let m = line(m, "    export PATH=\"$PATH:$HOME/.amp/bin\""@);
    m
}

impl ShellError {
    /// The message that tells the user what went wrong and what to try.
    pub fn message(&self) -> (text: String)
        ensures
            text@ == shell_not_detected_message(),
    {
        let mut m = String::new();
        match self {
            ShellError::ShellNotDetected => {
                push_line(&mut m, "Could not detect shell type");
                push_line(&mut m, "");
                push_line(&mut m, "  The SHELL environment variable is not set or is unsupported.");
                push_line(&mut m, "  Supported shells: bash, zsh, fish, ash");
                push_line(&mut m, "");
                push_line(&mut m, "  You can manually add the following to your shell profile:");
                push_line(&mut m, "    export PATH=\"$PATH:$HOME/.amp/bin\"");
            },
        }
        m
    }
}

} // verus!
