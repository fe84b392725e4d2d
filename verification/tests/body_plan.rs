use climbing_sim::skeleton::{Measure, BODY_MEASURE_COUNT, LIMB_MEASURE_COUNT};
use climbing_sim::{Joint, Link, Segment, Skeleton, PARTICLE_COUNT};

#[test]
fn joint_new_does_not_hold() {
    let j = Joint::new(0, 1, 2);
    assert_eq!(j, Joint { a: 0, b: 1, c: 2, hold: false });
}

#[test]
fn climber_has_fourteen_particles_nineteen_links_four_joints() {
    let s = Skeleton::climber();
    assert_eq!(s.particle_count, PARTICLE_COUNT);
    assert_eq!(s.particle_count, 14);
    assert_eq!(s.links.len(), 19);
    assert_eq!(s.joints.len(), 4);
}

#[test]
fn climber_links_are_listed_in_body_order() {
    let s = Skeleton::climber();
    assert_eq!(s.links[0], Link { a: 0, b: 1, segment: Segment::Forearm, visible: true });
    assert_eq!(s.links[1], Link { a: 1, b: 2, segment: Segment::Arm, visible: true });
    assert_eq!(s.links[4], Link { a: 6, b: 7, segment: Segment::Calf, visible: true });
    assert_eq!(s.links[5], Link { a: 7, b: 8, segment: Segment::Thigh, visible: true });
    assert_eq!(s.links[9], Link { a: 12, b: 11, segment: Segment::Hip, visible: true });
    assert_eq!(s.links[10], Link { a: 12, b: 13, segment: Segment::Trunk, visible: true });
    assert_eq!(s.links[12], Link { a: 13, b: 5, segment: Segment::Clavicle, visible: true });
    assert_eq!(s.links[13], Link { a: 2, b: 12, segment: Segment::ClavicleSupport, visible: false });
    assert_eq!(s.links[16], Link { a: 13, b: 11, segment: Segment::HipSupport, visible: false });
    assert_eq!(s.links[18], Link { a: 5, b: 11, segment: Segment::Trunk, visible: false });
}

#[test]
fn climber_visible_and_hidden_links() {
    let s = Skeleton::climber();
    let visible = s.links.iter().filter(|l| l.visible).count();
    assert_eq!(visible, 13);
    assert_eq!(s.links.len() - visible, 6);
}

#[test]
fn climber_joints_are_arms_then_legs() {
    let s = Skeleton::climber();
    assert_eq!(s.joints[0], Joint { a: 0, b: 1, c: 2, hold: false });
    assert_eq!(s.joints[1], Joint { a: 3, b: 4, c: 5, hold: false });
    assert_eq!(s.joints[2], Joint { a: 6, b: 7, c: 8, hold: false });
    assert_eq!(s.joints[3], Joint { a: 9, b: 10, c: 11, hold: false });
}

#[test]
fn climber_indices_are_in_range_and_distinct() {
    let s = Skeleton::climber();
    for l in &s.links {
        assert!(l.a < s.particle_count && l.b < s.particle_count && l.a != l.b);
    }
    for j in &s.joints {
        assert!(j.a < 14 && j.b < 14 && j.c < 14);
        assert!(j.a != j.b && j.b != j.c && j.a != j.c);
    }
}

#[test]
fn climber_joint_spans_two_links() {
    let s = Skeleton::climber();
    let joins = |l: &Link, p: usize, q: usize| (l.a == p && l.b == q) || (l.a == q && l.b == p);
    for j in &s.joints {
        assert!(s.links.iter().any(|l| joins(l, j.a, j.b)));
        assert!(s.links.iter().any(|l| joins(l, j.b, j.c)));
    }
}

#[test]
fn climber_every_particle_is_linked() {
    let s = Skeleton::climber();
    for p in 0..PARTICLE_COUNT {
        assert!(s.links.iter().any(|l| l.a == p || l.b == p));
    }
}

#[test]
fn set_grab_changes_only_first_joint() {
    let mut s = Skeleton::climber();
    s.set_grab(true);
    assert!(s.joints[0].hold);
    assert_eq!(s.joints[0].a, 0);
    assert!(!s.joints[1].hold && !s.joints[2].hold && !s.joints[3].hold);
    assert_eq!(s.links.len(), 19);
    s.set_grab(false);
    assert_eq!(s.joints, Skeleton::climber().joints);
}

#[test]
fn segment_measures() {
    assert_eq!(Segment::Forearm.measure(), Measure::Limb(0));
    assert_eq!(Segment::Arm.measure(), Measure::Limb(1));
    assert_eq!(Segment::Thigh.measure(), Measure::Limb(2));
    assert_eq!(Segment::Calf.measure(), Measure::Limb(3));
    assert_eq!(Segment::Clavicle.measure(), Measure::Body(0));
    assert_eq!(Segment::Hip.measure(), Measure::Body(1));
    assert_eq!(Segment::Trunk.measure(), Measure::Body(2));
    assert_eq!(Segment::ClavicleSupport.measure(), Measure::Diagonal(0, 2));
    assert_eq!(Segment::HipSupport.measure(), Measure::Diagonal(1, 2));
    assert_eq!(LIMB_MEASURE_COUNT, 4);
    assert_eq!(BODY_MEASURE_COUNT, 3);
}
