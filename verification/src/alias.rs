//! The shell snippet that puts the viewer in place of `man`.

use crate::error::ViewerError;
use vstd::prelude::*;
use vstd::string::StringExecFns;

verus! {

/// The snippet for shells that define functions as `sh` does.
pub open spec fn posix_alias() -> Seq<char> {
    "man() {\n  better-man-viewer \"$@\"\n}\n# Bypass wrapper with: command man <topic>"@
}

/// The snippet for fish.
pub open spec fn fish_alias() -> Seq<char> {
    "function man\n  better-man-viewer $argv\nend\n# Bypass wrapper with: command man <topic>"@
}

/// What is suggested for the shell `shell`: one snippet for `zsh` and
/// `bash`, another for `fish`, nothing for any other name.
pub open spec fn alias_of(shell: Seq<char>) -> Option<Seq<char>> {
    if shell == "zsh"@ || shell == "bash"@ {
        Some(posix_alias())
    } else if shell == "fish"@ {
        Some(fish_alias())
    } else {
        None
    }
}

/// Suggests the snippet for the shell that is named.
pub fn suggest_alias(shell: &str) -> (r: Result<String, ViewerError>)
    ensures
        match r {
            Ok(snippet) => alias_of(shell@) == Some(snippet@),
            Err(e) => alias_of(shell@) is None && e == ViewerError::UnsupportedShell,
        },
{
    let name = String::from_str(shell);
    if name == String::from_str("zsh") || name == String::from_str("bash") {
        Ok(
            String::from_str(
                "man() {\n  better-man-viewer \"$@\"\n}\n# Bypass wrapper with: command man <topic>",
            ),
        )
    } else if name == String::from_str("fish") {
        Ok(
            String::from_str(
                "function man\n  better-man-viewer $argv\nend\n# Bypass wrapper with: command man <topic>",
            ),
        )
    } else {
        Err(ViewerError::UnsupportedShell)
    }
}

/// `zsh` and `bash` are given the same snippet.
pub proof fn lemma_zsh_and_bash_agree()
    ensures
        alias_of("zsh"@) == alias_of("bash"@),
        alias_of("zsh"@) is Some,
{
}

} // verus!
