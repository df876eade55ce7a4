use vstd::prelude::*;
use crate::options::Cli;
use crate::timestamp::TimestampPair;

verus! {

/// What is to be done with one target path, decided from whether it exists
/// and from the no-create flag.
#[derive(Clone, Copy, PartialEq, Eq, Structural, Debug)]
pub enum FileOp {
    /// The path does not exist and the no-create flag is set: leave it
    /// alone, without error, and go on to the next path.
    Skip,
    /// The path does not exist: create an empty regular file there, then set
    /// its timestamps.
    CreateThenSet,
    /// The path exists: open it and set its timestamps.
    SetOnExisting,
}

/// Which of the two timestamps the resolved pair is applied to.
#[derive(Clone, Copy, PartialEq, Eq, Structural, Debug)]
pub enum TimesToSet {
    Both,
    AccessOnly,
    ModificationOnly,
}

/// The selection the flags call for: the modification-only flag wins when
/// both are given, and with neither flag both timestamps are applied.
pub open spec fn selection_of(access: bool, modification: bool) -> TimesToSet {
    if modification {
        TimesToSet::ModificationOnly
    } else if access {
        TimesToSet::AccessOnly
    } else {
        TimesToSet::Both
    }
}

/// The timestamps a file carries after the selection is applied to it:
/// each selected time comes from the resolved pair, each unselected time
/// stays what it was.
pub open spec fn apply_times(
    before: TimestampPair,
    resolved: TimestampPair,
    sel: TimesToSet,
) -> TimestampPair {
    match sel {
        TimesToSet::Both => resolved,
        TimesToSet::AccessOnly => TimestampPair {
            access: resolved.access,
            modification: before.modification,
        },
        TimesToSet::ModificationOnly => TimestampPair {
            access: before.access,
            modification: resolved.modification,
        },
    }
}

impl Cli {
    /// Decides one target path's fate from whether it exists: an existing
    /// file has its timestamps set; a missing one is created first, unless
    /// the no-create flag forbids it, in which case it is skipped silently.
    pub fn plan_file(&self, exists: bool) -> (op: FileOp)
        ensures
            exists ==> op == FileOp::SetOnExisting,
            !exists && self.no_create ==> op == FileOp::Skip,
            !exists && !self.no_create ==> op == FileOp::CreateThenSet,
    {
        if exists {
            FileOp::SetOnExisting
        } else if self.no_create {
            FileOp::Skip
        } else {
            FileOp::CreateThenSet
        }
    }

    /// Which timestamps this invocation sets on every file it touches.
    pub fn times_selection(&self) -> (sel: TimesToSet)
        ensures
            sel == selection_of(self.access, self.modification),
    {
        if self.modification {
            TimesToSet::ModificationOnly
        } else if self.access {
            TimesToSet::AccessOnly
        } else {
            TimesToSet::Both
        }
    }
}

/// The timestamps a file is to carry after this invocation touches it, from
/// the pair it carried before, the resolved pair, and the two flags.
pub fn updated_times(
    before: &TimestampPair,
    resolved: &TimestampPair,
    access: bool,
    modification: bool,
) -> (r: TimestampPair)
    ensures
        r == apply_times(*before, *resolved, selection_of(access, modification)),
{
    if modification {
        TimestampPair { access: before.access, modification: resolved.modification }
    } else if access {
        TimestampPair { access: resolved.access, modification: before.modification }
    } else {
        *resolved
    }
}

/// With both flags absent, both timestamps are updated to the resolved pair;
/// with only the access flag, the modification time is left untouched; with
/// only the modification flag, the access time is left untouched.
pub proof fn lemma_flag_targets(
    before: TimestampPair,
    resolved: TimestampPair,
    access: bool,
    modification: bool,
)
    ensures
        !access && !modification ==> apply_times(
            before,
            resolved,
            selection_of(access, modification),
        ) == resolved,
        access && !modification ==> apply_times(
            before,
            resolved,
            selection_of(access, modification),
        ) == (TimestampPair { access: resolved.access, modification: before.modification }),
        modification && !access ==> apply_times(
            before,
            resolved,
            selection_of(access, modification),
        ) == (TimestampPair { access: before.access, modification: resolved.modification }),
{
}

/// Batch uniformity: every file in one invocation receives the same
/// selected times. Each time that the selection applies is the resolved
/// pair's, whatever the file carried before, so two files touched by the
/// same invocation agree on it.
pub proof fn lemma_batch_uniformity(
    before1: TimestampPair,
    before2: TimestampPair,
    resolved: TimestampPair,
    access: bool,
    modification: bool,
)
    ensures
        selection_of(access, modification) == TimesToSet::Both ==> apply_times(
            before1,
            resolved,
            selection_of(access, modification),
        ) == apply_times(before2, resolved, selection_of(access, modification)),
        selection_of(access, modification) == TimesToSet::AccessOnly ==> apply_times(
            before1,
            resolved,
            selection_of(access, modification),
        ).access == apply_times(before2, resolved, selection_of(access, modification)).access,
        selection_of(access, modification) == TimesToSet::ModificationOnly ==> apply_times(
            before1,
            resolved,
            selection_of(access, modification),
        ).modification == apply_times(
            before2,
            resolved,
            selection_of(access, modification),
        ).modification,
{
}

} // verus!
