//! The pending-change count: given the per-entry status flags reported for
//! the working directory, count the entries that are modified, added,
//! deleted, or untracked, excluding the ignored ones.

use vstd::prelude::*;

verus! {

/// The status flags of one working-directory entry, as reported by the
/// version-control tool's status query.
#[derive(Clone, Copy, Debug, PartialEq, Eq, Structural)]
pub struct StatusEntry {
    pub modified: bool,
    pub added: bool,
    pub deleted: bool,
    pub untracked: bool,
    pub ignored: bool,
}

/// Whether an entry counts as a pending change: its status indicates
/// modification, addition, deletion, or being untracked, and it is not
/// ignored.
pub open spec fn spec_is_pending(e: StatusEntry) -> bool {
    (e.modified || e.added || e.deleted || e.untracked) && !e.ignored
}

/// The number of pending entries in a status report.
pub open spec fn spec_pending_count(s: Seq<StatusEntry>) -> nat
    decreases s.len(),
{
    if s.len() == 0 {
        0
    } else {
        spec_pending_count(s.drop_last()) + if spec_is_pending(s.last()) {
            1nat
        } else {
            0nat
        }
    }
}

/// Decides `spec_is_pending` on one entry.
pub fn is_pending(e: StatusEntry) -> (r: bool)
    ensures
        r == spec_is_pending(e),
{
    (e.modified || e.added || e.deleted || e.untracked) && !e.ignored
}

/// Counts the pending changes in a status report. This is a read-only
/// query over the flags the caller supplies.
pub fn count_pending(entries: &Vec<StatusEntry>) -> (r: usize)
    ensures
        r == spec_pending_count(entries@),
{
    let mut count: usize = 0;
    let mut i: usize = 0;
    while i < entries.len()
        invariant
            i <= entries@.len(),
            count <= i,
            count == spec_pending_count(entries@.take(i as int)),
        decreases entries@.len() - i,
    {
        proof {
            assert(entries@.take(i + 1).drop_last() =~= entries@.take(i as int));
            assert(entries@.take(i + 1).last() == entries@[i as int]);
        }
        if is_pending(entries[i]) {
            count += 1;
        }
        i += 1;
    }
    proof {
        assert(entries@.take(entries@.len() as int) =~= entries@);
    }
    count
}

} // verus!
