//! Repair of the guest's mount table link.
//!
//! The namespace backend needs `<rootfs>/etc/mtab` to be a symbolic link to
//! the live mount table. What is found at that path decides what is done.

use vstd::prelude::*;

use crate::sandbox::MTAB_TARGET;
use crate::text::same_text;

verus! {

/// What stands at the guest's mount table path.
#[derive(Clone, Debug)]
pub enum MtabState {
    /// Nothing.
    Missing,
    /// A symbolic link, with its target.
    Symlink(String),
    /// A directory.
    Directory,
    /// Any other file.
    File,
}

/// What to do at the guest's mount table path.
#[derive(Clone, Copy, Debug, PartialEq, Eq, Structural)]
pub enum MtabAction {
    /// Leave it as it is.
    Keep,
    /// Remove what is there (a whole tree when `remove_dir` is set) and put
    /// the link in its place.
    Replace { remove_dir: bool },
}

/// Whether the state is already the wanted link.
pub open spec fn is_repaired(state: MtabState) -> bool {
    match state {
        MtabState::Symlink(t) => t@ == MTAB_TARGET@,
        _ => false,
    }
}

/// What to do in a given state.
pub open spec fn mtab_plan(state: MtabState) -> MtabAction {
    if is_repaired(state) {
        MtabAction::Keep
    } else {
        MtabAction::Replace { remove_dir: state is Directory }
    }
}

/// Whether `after` is what an action leaves when the link, if it is made,
/// is made.
pub open spec fn mtab_outcome(before: MtabState, action: MtabAction, after: MtabState) -> bool {
    match action {
        MtabAction::Keep => after == before,
        MtabAction::Replace { .. } => is_repaired(after),
    }
}

/// What to do at the guest's mount table path: nothing when it already
/// links to the live mount table, else replace it, removing a directory
/// tree if one stands there.
pub fn mtab_action(state: &MtabState) -> (r: MtabAction)
    ensures
        r == mtab_plan(*state),
{
    match state {
        MtabState::Symlink(t) => {
            if same_text(t.as_str(), MTAB_TARGET) {
                MtabAction::Keep
            } else {
                MtabAction::Replace { remove_dir: false }
            }
        },
        MtabState::Directory => MtabAction::Replace { remove_dir: true },
        _ => MtabAction::Replace { remove_dir: false },
    }
}

/// The repair is idempotent: once a repair has made the link, a second one
/// keeps it, leaving the link and its target as they are and touching
/// nothing that could fail.
pub proof fn lemma_mtab_repair_idempotent(s0: MtabState, s1: MtabState, s2: MtabState)
    requires
        mtab_outcome(s0, mtab_plan(s0), s1),
        mtab_outcome(s1, mtab_plan(s1), s2),
    ensures
        is_repaired(s1),
        mtab_plan(s1) == MtabAction::Keep,
        s2 == s1,
{
}

} // verus!
