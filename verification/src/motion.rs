use vstd::prelude::*;

use crate::skeleton::{Joint, Skeleton};

verus! {

/// The pose a creature takes once `step` whole pose periods have passed:
/// the poses are taken in turn, starting over after the last one.
pub fn pose_index(step: usize, pose_count: usize) -> (index: usize)
    requires
        pose_count > 0,
    ensures
        index == step % pose_count,
{
    step % pose_count
}

/// The poses come back in a cycle: one more full round of poses brings the
/// creature back to the pose it had.
pub proof fn lemma_pose_cycle(step: int, pose_count: int)
    requires
        step >= 0,
        pose_count > 0,
    ensures
        (step + pose_count) % pose_count == step % pose_count,
        0 <= step % pose_count < pose_count,
{
    vstd::arithmetic::div_mod::lemma_mod_add_multiples_vanish(step, pose_count);
}

/// What one joint is asked to do during a physics step: drive its particle
/// towards target number `target` of the current pose, or hold still.
#[derive(Clone, Copy, Debug, PartialEq, Eq, Structural)]
pub struct JointCommand {
    pub joint: Joint,
    pub target: usize,
    pub hold: bool,
}

/// The smallest of three lengths.
pub open spec fn min3(x: int, y: int, z: int) -> int {
    if x <= y && x <= z {
        x
    } else if y <= z {
        y
    } else {
        z
    }
}

/// The joints, the targets of a pose and its hold flags taken side by side:
/// joint `k` goes with target `k` and flag `k`, for as long as all three
/// lists last.
pub open spec fn commands(joints: Seq<Joint>, target_count: int, holds: Seq<bool>) -> Seq<JointCommand> {
    Seq::new(
        min3(joints.len() as int, target_count, holds.len() as int) as nat,
        |k: int| JointCommand { joint: joints[k], target: k as usize, hold: holds[k] },
    )
}

/// Side by side, position by position: command `k` drives joint `k` towards
/// target `k` with hold flag `k`, and there are as many commands as the
/// shortest of the three lists has entries.
pub proof fn lemma_commands_by_position(joints: Seq<Joint>, target_count: int, holds: Seq<bool>)
    requires
        0 <= target_count <= usize::MAX,
    ensures
        commands(joints, target_count, holds).len() <= joints.len(),
        commands(joints, target_count, holds).len() <= target_count,
        commands(joints, target_count, holds).len() <= holds.len(),
        commands(joints, target_count, holds).len() == joints.len()
            || commands(joints, target_count, holds).len() == target_count
            || commands(joints, target_count, holds).len() == holds.len(),
        forall|k: int| 0 <= k < commands(joints, target_count, holds).len() ==> {
            &&& (#[trigger] commands(joints, target_count, holds)[k]).joint == joints[k]
            &&& commands(joints, target_count, holds)[k].target == k
            &&& commands(joints, target_count, holds)[k].hold == holds[k]
        },
{
}

impl Skeleton {
    /// The commands for a pose with `target_count` targets and the hold
    /// flags `holds`.
    pub fn joint_commands(&self, target_count: usize, holds: &Vec<bool>) -> (cmds: Vec<JointCommand>)
        ensures
            cmds@ == commands(self.joints@, target_count as int, holds@),
            cmds.len() <= self.joints.len(),
            cmds.len() <= target_count,
            cmds.len() <= holds.len(),
            cmds.len() == self.joints.len() || cmds.len() == target_count || cmds.len() == holds.len(),
            forall|k: int| 0 <= k < cmds.len() ==> {
                &&& (#[trigger] cmds[k]).joint == self.joints[k]
                &&& cmds[k].target == k
                &&& cmds[k].hold == holds[k]
            },
    {
        let mut count = self.joints.len();
        if target_count < count {
            count = target_count;
        }
        if holds.len() < count {
            count = holds.len();
        }
        let mut cmds: Vec<JointCommand> = Vec::new();
        let mut k: usize = 0;
        while k < count
            invariant
                k <= count,
                count == min3(self.joints.len() as int, target_count as int, holds.len() as int),
                cmds@ == commands(self.joints@, target_count as int, holds@).take(k as int),
            decreases count - k,
        {
            cmds.push(JointCommand { joint: self.joints[k], target: k, hold: holds[k] });
            k = k + 1;
            assert(cmds@ =~= commands(self.joints@, target_count as int, holds@).take(k as int));
        }
        assert(cmds@ =~= commands(self.joints@, target_count as int, holds@));
        cmds
    }

    /// The pose the creature is in after `step` pose periods, and what each
    /// joint does in it. `target_counts[p]` is the number of targets of pose
    /// `p` and `hold_lst[p]` its hold flags.
    pub fn pose_commands(&self, step: usize, target_counts: &Vec<usize>, hold_lst: &Vec<Vec<bool>>) -> (res: (usize, Vec<JointCommand>))
        requires
            target_counts.len() > 0,
            step % target_counts.len() < hold_lst.len(),
        ensures
            res.0 == step % target_counts.len(),
            res.1@ == commands(self.joints@, target_counts[res.0 as int] as int, hold_lst[res.0 as int]@),
            res.0 < target_counts.len(),
            res.1.len() <= self.joints.len(),
            res.1.len() <= target_counts[res.0 as int],
            res.1.len() <= hold_lst[res.0 as int].len(),
            res.1.len() == self.joints.len() || res.1.len() == target_counts[res.0 as int]
                || res.1.len() == hold_lst[res.0 as int].len(),
            forall|k: int| 0 <= k < res.1.len() ==> {
                &&& (#[trigger] res.1[k]).joint == self.joints[k]
                &&& res.1[k].target == k
                &&& res.1[k].hold == hold_lst[res.0 as int][k]
            },
    {
        let pose = pose_index(step, target_counts.len());
        let cmds = self.joint_commands(target_counts[pose], &hold_lst[pose]);
        (pose, cmds)
    }
}

} // verus!
