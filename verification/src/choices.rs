//! Building the staging checklist from a status scan, and reading the
//! user's selection back out of it.
//!
//! A status scan yields one entry per path: the path's name and its
//! status bitset. The checklist shows every entry that is not ignored,
//! pre-checking those the classifier marks as staged. The selection
//! comes back as indices into the shown list and is mapped back to
//! paths.

use vstd::prelude::*;
use crate::status::{Status, IGNORED, is_staged_spec, is_staged};

verus! {

/// One entry of a status scan: a path and its status bitset.
#[derive(Clone, Debug)]
pub struct StatusEntry {
    pub path: String,
    pub status: Status,
}

/// An entry is shown in the checklist unless its path is ignored.
pub open spec fn visible(e: StatusEntry) -> bool {
    !e.status.spec_contains(IGNORED)
}

/// The paths of the visible entries, in scan order.
pub open spec fn choice_paths(entries: Seq<StatusEntry>) -> Seq<String>
    decreases entries.len(),
{
    if entries.len() == 0 {
        Seq::empty()
    } else {
        let prefix = choice_paths(entries.drop_last());
        if visible(entries.last()) {
            prefix.push(entries.last().path)
        } else {
            prefix
        }
    }
}

/// The pre-selection of the visible entries, in scan order.
pub open spec fn choice_defaults(entries: Seq<StatusEntry>) -> Seq<bool>
    decreases entries.len(),
{
    if entries.len() == 0 {
        Seq::empty()
    } else {
        let prefix = choice_defaults(entries.drop_last());
        if visible(entries.last()) {
            prefix.push(is_staged_spec(entries.last().status))
        } else {
            prefix
        }
    }
}

/// The checklist's paths and pre-selections always line up: the
/// multi-select prompt needs exactly one default per shown item.
pub proof fn lemma_choices_align(entries: Seq<StatusEntry>)
    ensures
        choice_paths(entries).len() == choice_defaults(entries).len(),
    decreases entries.len(),
{
    if entries.len() > 0 {
        lemma_choices_align(entries.drop_last());
    }
}

/// Turns a status scan into the checklist: the visible paths and, for
/// each, whether it starts out checked.
pub fn build_choices(entries: &Vec<StatusEntry>) -> (r: (Vec<String>, Vec<bool>))
    ensures
        r.0@ == choice_paths(entries@),
        r.1@ == choice_defaults(entries@),
{
    let mut items: Vec<String> = Vec::new();
    let mut defaults: Vec<bool> = Vec::new();
    let mut i: usize = 0;
    while i < entries.len()
        invariant
            i <= entries@.len(),
            items@ == choice_paths(entries@.take(i as int)),
            defaults@ == choice_defaults(entries@.take(i as int)),
        decreases entries@.len() - i,
    {
        let staged = is_staged(entries[i].status);
        if !entries[i].status.contains(IGNORED) {
            items.push(entries[i].path.clone());
            defaults.push(staged);
        }
        proof {
            assert(entries@.take(i + 1).drop_last() =~= entries@.take(i as int));
            assert(entries@.take(i + 1).last() == entries@[i as int]);
        }
        i += 1;
    }
    proof {
        assert(entries@.take(entries@.len() as int) =~= entries@);
    }
    (items, defaults)
}

/// The display path of one status entry: the new path of the
/// head-to-index delta if there is one, else the new path of the
/// index-to-workdir delta, else its old path, else a placeholder.
pub fn entry_path(
    head_new: Option<String>,
    workdir_new: Option<String>,
    workdir_old: Option<String>,
) -> (r: String)
    ensures
        r@ == (match head_new {
            Some(p) => p@,
            None => (match workdir_new {
                Some(p) => p@,
                None => (match workdir_old {
                    Some(p) => p@,
                    None => "<unknown>"@,
                }),
            }),
        }),
{
    match head_new {
        Some(p) => p,
        None => match workdir_new {
            Some(p) => p,
            None => match workdir_old {
                Some(p) => p,
                None => String::from_str("<unknown>"),
            },
        },
    }
}

/// Maps the chosen checklist indices back to the paths they name.
pub fn select_paths(items: &Vec<String>, selection: &Vec<usize>) -> (r: Vec<String>)
    requires
        forall|i: int| 0 <= i < selection@.len() ==> (#[trigger] selection@[i]) < items@.len(),
    ensures
        r@.len() == selection@.len(),
        forall|i: int| 0 <= i < r@.len() ==> r@[i] == items@[selection@[i] as int],
{
    let mut paths: Vec<String> = Vec::new();
    let mut i: usize = 0;
    while i < selection.len()
        invariant
            forall|k: int| 0 <= k < selection@.len() ==> (#[trigger] selection@[k]) < items@.len(),
            i <= selection@.len(),
            paths@.len() == i,
            forall|k: int| 0 <= k < i ==> paths@[k] == items@[selection@[k] as int],
        decreases selection@.len() - i,
    {
        let idx = selection[i];
        paths.push(items[idx].clone());
        i += 1;
    }
    paths
}

} // verus!
