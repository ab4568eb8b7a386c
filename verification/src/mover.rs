//! The safe move engine's step plan. Moving a file runs through fixed
//! steps: an optional backup copy, a copy into a staging file beside the
//! target, permissions on the staging file, and one rename that makes the
//! target visible. The caller performs each step on disk; over the model
//! here it is proved that however the run is cut short, the target holds
//! either its old content or the complete source, never a partial write.

use vstd::prelude::*;

verus! {

/// One step of a move.
#[derive(Debug, Clone, Copy, PartialEq, Eq, Structural)]
pub enum MoveAction {
    /// Copy the source into the backup directory, preserving permissions.
    CopyToBackup,
    /// Copy the source into the staging file beside the target.
    CopyToTemp,
    /// Give the staging file the source's permissions.
    SetTempPermissions,
    /// Rename the staging file to the target: the only step that touches
    /// the target name.
    RenameTempToTarget,
}

/// What the affected names hold, as abstract contents; `None` is absence.
pub struct MoveState {
    pub backup: Option<int>,
    pub temp: Option<int>,
    pub dst: Option<int>,
}

/// The effect of one completed step on the model, copying content `src`.
pub open spec fn apply_action(s: MoveState, a: MoveAction, src: int) -> MoveState {
    match a {
        MoveAction::CopyToBackup => MoveState { backup: Some(src), ..s },
        MoveAction::CopyToTemp => MoveState { temp: Some(src), ..s },
        MoveAction::SetTempPermissions => s,
        MoveAction::RenameTempToTarget => MoveState { dst: s.temp, temp: None, ..s },
    }
}

/// The model state after the first `k` steps of a plan.
pub open spec fn apply_prefix(s: MoveState, plan: Seq<MoveAction>, k: int, src: int) -> MoveState
    decreases k,
{
    if k <= 0 {
        s
    } else {
        apply_action(apply_prefix(s, plan, k - 1, src), plan[k - 1], src)
    }
}

/// The step plan of one move.
pub open spec fn spec_move_plan(with_backup: bool) -> Seq<MoveAction> {
    if with_backup {
        seq![
            MoveAction::CopyToBackup,
            MoveAction::CopyToTemp,
            MoveAction::SetTempPermissions,
            MoveAction::RenameTempToTarget,
        ]
    } else {
        seq![
            MoveAction::CopyToTemp,
            MoveAction::SetTempPermissions,
            MoveAction::RenameTempToTarget,
        ]
    }
}

/// The steps to run, in order, for one move.
pub fn move_plan(with_backup: bool) -> (r: Vec<MoveAction>)
    ensures
        r@ == spec_move_plan(with_backup),
{
    let mut r: Vec<MoveAction> = Vec::new();
    if with_backup {
        r.push(MoveAction::CopyToBackup);
    }
    r.push(MoveAction::CopyToTemp);
    r.push(MoveAction::SetTempPermissions);
    r.push(MoveAction::RenameTempToTarget);
    proof {
        assert(r@ =~= spec_move_plan(with_backup));
    }
    r
}

/// Atomicity of the move: cut the plan anywhere — after any number of
/// completed steps — and the target holds either what it held before the
/// move or the complete source content. A finished plan leaves the source
/// content at the target, and, when a backup was asked for, in the backup.
pub proof fn lemma_move_atomic(s0: MoveState, with_backup: bool, src: int, k: int)
    requires
        0 <= k <= spec_move_plan(with_backup).len(),
    ensures
        ({
            let s = apply_prefix(s0, spec_move_plan(with_backup), k, src);
            &&& (s.dst == s0.dst || s.dst == Some(src))
            &&& (k == spec_move_plan(with_backup).len() ==> s.dst == Some(src))
            &&& (with_backup && k >= 1 ==> s.backup == Some(src))
        }),
    decreases k,
{
    if k > 0 {
        lemma_move_atomic(s0, with_backup, src, k - 1);
        let plan = spec_move_plan(with_backup);
        let before = apply_prefix(s0, plan, k - 1, src);
        // the rename is the only step that writes the target, and by then
        // the staging file holds the complete source
        if plan[k - 1] == MoveAction::RenameTempToTarget {
            assert(before.temp == Some(src)) by {
                lemma_temp_complete(s0, with_backup, src, k - 1);
            }
        }
    }
}

/// Before the rename step runs, the staging file holds the complete
/// source: the copy step precedes it in every plan.
proof fn lemma_temp_complete(s0: MoveState, with_backup: bool, src: int, k: int)
    requires
        (if with_backup {
            1int
        } else {
            0int
        }) < k < spec_move_plan(with_backup).len(),
    ensures
        apply_prefix(s0, spec_move_plan(with_backup), k, src).temp == Some(src),
    decreases k,
{
    let base: int = if with_backup {
        1int
    } else {
        0int
    };
    if k - 1 > base {
        lemma_temp_complete(s0, with_backup, src, k - 1);
    }
}

} // verus!
