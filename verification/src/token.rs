//! Where the access token comes from.

use crate::plan::CommandOutput;
use crate::text::{trim, trimmed, utf8_text};
use vstd::prelude::*;
use vstd::utf8::{decode_utf8, valid_utf8};

verus! {

/// The token that a run of the GitHub CLI printed: its output without
/// surrounding white space, if the run succeeded and printed valid UTF-8
/// that holds more than white space.
pub open spec fn token_printed(output: CommandOutput) -> Option<Seq<char>> {
    if output.success && valid_utf8(output.stdout@) && trimmed(decode_utf8(output.stdout@)).len()
        > 0 {
        Some(trimmed(decode_utf8(output.stdout@)))
    } else {
        None
    }
}

/// The token to use: the explicit one if there is one, else the one that the
/// GitHub CLI printed, else none.
pub open spec fn resolved_token(explicit: Option<String>, gh: Option<CommandOutput>) -> Option<Seq<char>> {
    match explicit {
        Some(token) => Some(token@),
        None => match gh {
            Some(output) => token_printed(output),
            None => None,
        },
    }
}

/// Whether the GitHub CLI has to be asked: only without an explicit token.
pub fn needs_gh_cli(explicit: &Option<String>) -> (r: bool)
    ensures
        r == (explicit is None),
{
    explicit.is_none()
}

/// The token that a run of `gh auth token` gave.
pub fn try_gh_auth_token(output: CommandOutput) -> (r: Option<String>)
    ensures
        match r {
            Some(token) => token_printed(output) == Some(token@),
            None => token_printed(output) is None,
        },
{
    if !output.success {
        return None;
    }
    let text = match utf8_text(output.stdout) {
        Some(text) => text,
        None => {
            return None;
        },
    };
    let token = trim(text.as_str());
    if token.as_str().unicode_len() == 0 {
        return None;
    }
    Some(token)
}

/// Resolve the access token by this chain: the explicit token, passed by
/// flag or environment; the token of the GitHub CLI; none. `gh` is how the
/// run of `gh auth token` ended, or nothing where it was not run or could
/// not be run.
pub fn resolve_github_token(explicit: Option<String>, gh: Option<CommandOutput>) -> (r: Option<String>)
    ensures
        match r {
            Some(token) => resolved_token(explicit, gh) == Some(token@),
            None => resolved_token(explicit, gh) is None,
        },
{
    if explicit.is_some() {
        return explicit;
    }
    match gh {
        Some(output) => try_gh_auth_token(output),
        None => None,
    }
}

} // verus!
