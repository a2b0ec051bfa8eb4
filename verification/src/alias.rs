//! Installing a shell alias for the tool, as plain string decisions.
//!
//! The binary offers to add an `alias ccb=...` line to the user's
//! shell profile once. Which profile file that is follows from the
//! shell's name; whether the line is still needed follows from the
//! profile's current contents. Reading the shell name and writing the
//! profile are the binary's work.

use vstd::prelude::*;
use vstd::string::StringExecFns;
use crate::text::{has_substring, str_contains};

verus! {

/// The profile file, relative to the home directory, that a shell of
/// the given name reads: `zsh`, `bash` and `fish` each have their own,
/// and anything else falls back to `.bashrc`.
pub open spec fn profile_file_spec(shell: Seq<char>) -> Seq<char> {
    if has_substring(shell, "zsh"@) {
        ".zshrc"@
    } else if has_substring(shell, "bash"@) {
        ".bashrc"@
    } else if has_substring(shell, "fish"@) {
        ".config/fish/config.fish"@
    } else {
        ".bashrc"@
    }
}

/// Picks the profile file that the alias line belongs in.
pub fn profile_file_for_shell(shell: &str) -> (r: String)
    ensures
        r@ == profile_file_spec(shell@),
{
    if str_contains(shell, "zsh") {
        String::from_str(".zshrc")
    } else if str_contains(shell, "bash") {
        String::from_str(".bashrc")
    } else if str_contains(shell, "fish") {
        String::from_str(".config/fish/config.fish")
    } else {
        String::from_str(".bashrc")
    }
}

/// The alias line for the given binary path, quoted for the profile.
pub fn alias_line(binary_path: &str) -> (r: String)
    ensures
        r@ == "alias ccb=\""@ + binary_path@ + "\""@,
{
    let mut line = String::from_str("alias ccb=\"");
    line.append(binary_path);
    line.append("\"");
    line
}

/// Whether the profile already defines the alias, in which case no
/// line is added.
pub fn alias_already_present(profile_contents: &str) -> (r: bool)
    ensures
        r == has_substring(profile_contents@, "alias ccb="@),
{
    str_contains(profile_contents, "alias ccb=")
}

} // verus!
