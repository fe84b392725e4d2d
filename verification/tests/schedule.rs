use climbing_sim::random::gen_hold_row;
use climbing_sim::{collision_pairs, pose_index, Corner, JointCommand, Skeleton, CORNER_COUNT};

#[test]
fn collision_pairs_small_bodies() {
    assert_eq!(collision_pairs(0), vec![]);
    assert_eq!(collision_pairs(1), vec![]);
    assert_eq!(collision_pairs(2), vec![(0, 1)]);
    assert_eq!(collision_pairs(4), vec![(0, 1), (0, 2), (0, 3), (1, 2), (1, 3), (2, 3)]);
}

#[test]
fn collision_pairs_climber_counts_every_pair_once() {
    let pairs = collision_pairs(14);
    assert_eq!(pairs.len(), 91);
    for i in 0..14 {
        for j in (i + 1)..14 {
            assert_eq!(pairs.iter().filter(|p| **p == (i, j)).count(), 1);
        }
    }
    for w in pairs.windows(2) {
        assert!(w[0] < w[1]);
    }
    assert_eq!(pairs[0], (0, 1));
    assert_eq!(pairs[13], (1, 2));
    assert_eq!(pairs[90], (12, 13));
}

#[test]
fn pose_index_cycles() {
    assert_eq!(pose_index(0, 3), 0);
    assert_eq!(pose_index(5, 2), 1);
    assert_eq!(pose_index(7, 4), 3);
    assert_eq!(pose_index(7 + 4, 4), pose_index(7, 4));
    assert_eq!(pose_index(usize::MAX, 1), 0);
}

#[test]
fn joint_commands_pair_joints_targets_and_flags() {
    let s = Skeleton::climber();
    let holds = vec![true, false, true, false];
    let cmds = s.joint_commands(4, &holds);
    assert_eq!(cmds.len(), 4);
    for k in 0..4 {
        assert_eq!(cmds[k], JointCommand { joint: s.joints[k], target: k, hold: holds[k] });
    }
}

#[test]
fn joint_commands_stop_at_the_shortest_list() {
    let s = Skeleton::climber();
    assert_eq!(s.joint_commands(2, &vec![false, false, false, false]).len(), 2);
    assert_eq!(s.joint_commands(4, &vec![true]).len(), 1);
    assert_eq!(s.joint_commands(9, &vec![true; 9]).len(), 4);
    assert!(s.joint_commands(0, &vec![true]).is_empty());
}

#[test]
fn pose_commands_pick_pose_by_step() {
    let s = Skeleton::climber();
    let target_counts = vec![4, 4];
    let hold_lst = vec![vec![true, false, false, false], vec![false, true, false, false]];
    let (pose, cmds) = s.pose_commands(3, &target_counts, &hold_lst);
    assert_eq!(pose, 1);
    assert_eq!(cmds.len(), 4);
    assert!(!cmds[0].hold);
    assert!(cmds[1].hold);
    assert_eq!(cmds[1].joint.a, 3);
    let (pose, cmds) = s.pose_commands(4, &target_counts, &hold_lst);
    assert_eq!(pose, 0);
    assert!(cmds[0].hold);
}

#[test]
fn corners_by_index() {
    assert_eq!(Corner::from_index(0), Some(Corner::TopLeft));
    assert_eq!(Corner::from_index(1), Some(Corner::TopRight));
    assert_eq!(Corner::from_index(2), Some(Corner::BottomLeft));
    assert_eq!(Corner::from_index(3), Some(Corner::BottomRight));
    assert_eq!(Corner::from_index(4), None);
    assert_eq!(Corner::from_index(100), None);
    for c in Corner::all() {
        assert_eq!(Corner::from_index(c.index()), Some(c));
    }
    assert_eq!(Corner::all().len(), CORNER_COUNT);
}

#[test]
fn corner_signs_mirror_back() {
    assert_eq!(Corner::TopLeft.signs(), (-1, -1));
    assert_eq!(Corner::TopRight.signs(), (1, -1));
    assert_eq!(Corner::BottomLeft.signs(), (-1, 1));
    assert_eq!(Corner::BottomRight.signs(), (1, 1));
    for c in Corner::all() {
        let (sx, sy) = c.signs();
        let (x, y) = (7i32, 3i32);
        let (mx, my) = (sx as i32 * x, sy as i32 * y);
        assert_eq!((sx as i32 * mx, sy as i32 * my), (x, y));
    }
}

#[test]
fn joints_reach_their_own_corner() {
    let s = Skeleton::climber();
    for (k, c) in Corner::all().into_iter().enumerate() {
        let a = s.joints[k].a;
        let left = a < 3 || (6..9).contains(&a);
        let arm = a < 6;
        assert_eq!(c.signs().0 < 0, left);
        assert_eq!(c.signs().1 < 0, arm);
    }
}

#[test]
fn hold_row_has_one_flag_per_corner() {
    for _ in 0..20 {
        assert_eq!(gen_hold_row().len(), 4);
    }
}
