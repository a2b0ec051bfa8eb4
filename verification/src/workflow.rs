//! The plain decisions of the commit-and-push flow.
//!
//! Each function here answers one question the flow asks between two
//! Git or prompt operations: did the user say yes, which reference a
//! new commit should update, what the current branch is called, and
//! which refspec a push sends.

use vstd::prelude::*;
use vstd::string::StringExecFns;
use crate::text::str_eq;

verus! {

/// A push-confirmation answer counts as yes exactly when it is the
/// word `yes` or the letter `y`.
pub fn is_affirmative(answer: &str) -> (r: bool)
    ensures
        r == (answer@ == "yes"@ || answer@ == "y"@),
{
    str_eq(answer, "yes") || str_eq(answer, "y")
}

/// The reference a new commit updates: `HEAD` when the repository
/// already has one, none for the very first commit.
pub fn commit_update_ref(head_exists: bool) -> (r: Option<String>)
    ensures
        r is Some <==> head_exists,
        head_exists ==> r->Some_0@ == "HEAD"@,
{
    if head_exists {
        Some(String::from_str("HEAD"))
    } else {
        None
    }
}

/// The current branch name: the head's short name, but only when the
/// head could be read and points at a branch.
pub fn branch_name_from_head(
    head_ok: bool,
    is_branch: bool,
    shorthand: Option<String>,
) -> (r: Option<String>)
    ensures
        r == (if head_ok && is_branch {
            shorthand
        } else {
            None::<String>
        }),
{
    if head_ok && is_branch {
        shorthand
    } else {
        None
    }
}

/// The refspec that pushes the current head onto the named remote
/// branch.
pub fn push_refspec(branch: &str) -> (r: String)
    ensures
        r@ == "HEAD:refs/heads/"@ + branch@,
{
    let mut refspec = String::from_str("HEAD:refs/heads/");
    refspec.append(branch);
    refspec
}

} // verus!
