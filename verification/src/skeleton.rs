use vstd::prelude::*;

verus! {

/// Number of particles in a climber's body.
///
/// Particles 0..=2 are the left hand, elbow and shoulder, 3..=5 the right
/// ones, 6..=8 the left foot, knee and hip, 9..=11 the right ones, 12 the
/// pelvis and 13 the neck.
pub const PARTICLE_COUNT: usize = 14;

/// Which body measurement gives a link its rest length.
#[derive(Clone, Copy, Debug, PartialEq, Eq, Structural)]
pub enum Segment {
    Forearm,
    Arm,
    Thigh,
    Calf,
    Clavicle,
    Hip,
    Trunk,
    /// Diagonal brace from a shoulder to the pelvis: the hypotenuse of the
    /// clavicle and the trunk.
    ClavicleSupport,
    /// Diagonal brace from the neck to a hip: the hypotenuse of the hip and
    /// the trunk.
    HipSupport,
}

/// Number of limb measurements a climber is built from: forearm, arm,
/// thigh and calf, in that order.
pub const LIMB_MEASURE_COUNT: usize = 4;

/// Number of body measurements a climber is built from: clavicle, hip and
/// trunk, in that order.
pub const BODY_MEASURE_COUNT: usize = 3;

/// Where a segment's rest length comes from: an entry of the limb
/// measurements, an entry of the body measurements, or the hypotenuse of two
/// body measurements.
#[derive(Clone, Copy, Debug, PartialEq, Eq, Structural)]
pub enum Measure {
    Limb(usize),
    Body(usize),
    Diagonal(usize, usize),
}

/// The measurement each segment takes its rest length from.
pub open spec fn segment_measure(s: Segment) -> Measure {
    match s {
        Segment::Forearm => Measure::Limb(0),
        Segment::Arm => Measure::Limb(1),
        Segment::Thigh => Measure::Limb(2),
        Segment::Calf => Measure::Limb(3),
        Segment::Clavicle => Measure::Body(0),
        Segment::Hip => Measure::Body(1),
        Segment::Trunk => Measure::Body(2),
        Segment::ClavicleSupport => Measure::Diagonal(0, 2),
        Segment::HipSupport => Measure::Diagonal(1, 2),
    }
}

/// A measure reads only entries that a climber's measurements have.
pub open spec fn measure_in_range(m: Measure) -> bool {
    match m {
        Measure::Limb(i) => i < LIMB_MEASURE_COUNT,
        Measure::Body(i) => i < BODY_MEASURE_COUNT,
        Measure::Diagonal(i, j) => i < BODY_MEASURE_COUNT && j < BODY_MEASURE_COUNT,
    }
}

impl Segment {
    /// The measurement this segment's rest length comes from.
    pub fn measure(&self) -> (m: Measure)
        ensures
            m == segment_measure(*self),
            measure_in_range(m),
    {
        match self {
            Segment::Forearm => Measure::Limb(0),
            Segment::Arm => Measure::Limb(1),
            Segment::Thigh => Measure::Limb(2),
            Segment::Calf => Measure::Limb(3),
            Segment::Clavicle => Measure::Body(0),
            Segment::Hip => Measure::Body(1),
            Segment::Trunk => Measure::Body(2),
            Segment::ClavicleSupport => Measure::Diagonal(0, 2),
            Segment::HipSupport => Measure::Diagonal(1, 2),
        }
    }
}

/// A spring between particles `a` and `b`.
#[derive(Clone, Copy, Debug, PartialEq, Eq, Structural)]
pub struct Link {
    pub a: usize,
    pub b: usize,
    pub segment: Segment,
    /// Visible links are drawn; the others only brace the body.
    pub visible: bool,
}

/// An actuated joint: particle `a` is driven towards a target placed
/// relative to particle `c`, and `b` is the particle between them.
#[derive(Clone, Copy, Debug, PartialEq, Eq, Structural)]
pub struct Joint {
    pub a: usize,
    pub b: usize,
    pub c: usize,
    pub hold: bool,
}

impl Joint {
    /// A joint on particles `a`, `b`, `c` that does not hold.
    pub fn new(a: usize, b: usize, c: usize) -> (joint: Joint)
        ensures
            joint == (Joint { a, b, c, hold: false }),
    {
        Joint { a, b, c, hold: false }
    }
}

/// The `i`-th link of the climber's body, in the order the body lists them.
pub open spec fn climber_link(i: int) -> Link {
    if i == 0 {
        Link { a: 0, b: 1, segment: Segment::Forearm, visible: true }
    } else if i == 1 {
        Link { a: 1, b: 2, segment: Segment::Arm, visible: true }
    } else if i == 2 {
        Link { a: 3, b: 4, segment: Segment::Forearm, visible: true }
    } else if i == 3 {
        Link { a: 4, b: 5, segment: Segment::Arm, visible: true }
    } else if i == 4 {
        Link { a: 6, b: 7, segment: Segment::Calf, visible: true }
    } else if i == 5 {
        Link { a: 7, b: 8, segment: Segment::Thigh, visible: true }
    } else if i == 6 {
        Link { a: 9, b: 10, segment: Segment::Calf, visible: true }
    } else if i == 7 {
        Link { a: 10, b: 11, segment: Segment::Thigh, visible: true }
    } else if i == 8 {
        Link { a: 8, b: 12, segment: Segment::Hip, visible: true }
    } else if i == 9 {
        Link { a: 12, b: 11, segment: Segment::Hip, visible: true }
    } else if i == 10 {
        Link { a: 12, b: 13, segment: Segment::Trunk, visible: true }
    } else if i == 11 {
        Link { a: 2, b: 13, segment: Segment::Clavicle, visible: true }
    } else if i == 12 {
        Link { a: 13, b: 5, segment: Segment::Clavicle, visible: true }
    } else if i == 13 {
        Link { a: 2, b: 12, segment: Segment::ClavicleSupport, visible: false }
    } else if i == 14 {
        Link { a: 5, b: 12, segment: Segment::ClavicleSupport, visible: false }
    } else if i == 15 {
        Link { a: 13, b: 8, segment: Segment::HipSupport, visible: false }
    } else if i == 16 {
        Link { a: 13, b: 11, segment: Segment::HipSupport, visible: false }
    } else if i == 17 {
        Link { a: 2, b: 8, segment: Segment::Trunk, visible: false }
    } else {
        Link { a: 5, b: 11, segment: Segment::Trunk, visible: false }
    }
}

/// The `i`-th joint of the climber's body: left arm, right arm, left leg,
/// right leg, each driving its hand or foot relative to its shoulder or hip.
pub open spec fn climber_joint(i: int) -> Joint {
    if i == 0 {
        Joint { a: 0, b: 1, c: 2, hold: false }
    } else if i == 1 {
        Joint { a: 3, b: 4, c: 5, hold: false }
    } else if i == 2 {
        Joint { a: 6, b: 7, c: 8, hold: false }
    } else {
        Joint { a: 9, b: 10, c: 11, hold: false }
    }
}

/// Number of links of the climber's body.
pub const CLIMBER_LINK_COUNT: usize = 19;

/// Number of joints of the climber's body.
pub const CLIMBER_JOINT_COUNT: usize = 4;

/// A link is valid in a body of `n` particles when it joins two distinct
/// particles of that body.
pub open spec fn link_valid(link: Link, n: nat) -> bool {
    &&& link.a < n
    &&& link.b < n
    &&& link.a != link.b
}

/// A joint is valid in a body of `n` particles when its three particles exist
/// and are pairwise distinct.
pub open spec fn joint_valid(joint: Joint, n: nat) -> bool {
    &&& joint.a < n
    &&& joint.b < n
    &&& joint.c < n
    &&& joint.a != joint.b
    &&& joint.b != joint.c
    &&& joint.a != joint.c
}

/// A link joins `p` and `q`, in either direction.
pub open spec fn link_joins(link: Link, p: int, q: int) -> bool {
    (link.a == p && link.b == q) || (link.a == q && link.b == p)
}

/// Each of the climber's joints bends a chain of two links: one joins its
/// driven particle `a` to its middle particle `b`, the other joins `b` to
/// its anchor `c`.
pub proof fn lemma_climber_joint_spans_two_links(k: int)
    requires
        0 <= k < CLIMBER_JOINT_COUNT,
    ensures
        exists|i: int| 0 <= i < CLIMBER_LINK_COUNT && #[trigger] link_joins(climber_link(i), climber_joint(k).a as int, climber_joint(k).b as int),
        exists|i: int| 0 <= i < CLIMBER_LINK_COUNT && #[trigger] link_joins(climber_link(i), climber_joint(k).b as int, climber_joint(k).c as int),
{
    let first: int = 2 * k;
    assert(link_joins(climber_link(first), climber_joint(k).a as int, climber_joint(k).b as int));
    assert(link_joins(climber_link(first + 1), climber_joint(k).b as int, climber_joint(k).c as int));
}

/// No particle of the climber is loose: each one is an end of some link.
pub proof fn lemma_climber_every_particle_linked(p: int)
    requires
        0 <= p < PARTICLE_COUNT,
    ensures
        exists|i: int| 0 <= i < CLIMBER_LINK_COUNT && (#[trigger] climber_link(i).a == p || climber_link(i).b == p),
{
    let i: int = if p < 12 { if p % 3 == 2 { (p / 3) * 2 + 1 } else { (p / 3) * 2 } } else { 10 };
    assert(climber_link(i).a == p || climber_link(i).b == p);
}

/// The part of the body a particle of the climber stands for.
pub enum Role {
    Hand,
    Elbow,
    Shoulder,
    Foot,
    Knee,
    HipJoint,
    Pelvis,
    Neck,
}

/// The body part of particle `p` of the climber.
pub open spec fn role(p: int) -> Role {
    if p == 12 {
        Role::Pelvis
    } else if p == 13 {
        Role::Neck
    } else if p < 6 {
        if p % 3 == 0 {
            Role::Hand
        } else if p % 3 == 1 {
            Role::Elbow
        } else {
            Role::Shoulder
        }
    } else {
        if p % 3 == 0 {
            Role::Foot
        } else if p % 3 == 1 {
            Role::Knee
        } else {
            Role::HipJoint
        }
    }
}

/// `x` and `y` are `u` and `v`, in either order.
pub open spec fn roles_are(x: Role, y: Role, u: Role, v: Role) -> bool {
    (x == u && y == v) || (x == v && y == u)
}

/// The body parts a segment of each kind joins: a forearm joins a hand to
/// an elbow, an arm an elbow to a shoulder, a calf a foot to a knee, a thigh
/// a knee to a hip, a hip link a hip to the pelvis, a clavicle a shoulder to
/// the neck, a trunk-long link the pelvis to the neck or a shoulder to the
/// hip below it, a clavicle brace a shoulder to the pelvis, and a hip brace
/// the neck to a hip.
pub open spec fn segment_fits(s: Segment, x: Role, y: Role) -> bool {
    match s {
        Segment::Forearm => roles_are(x, y, Role::Hand, Role::Elbow),
        Segment::Arm => roles_are(x, y, Role::Elbow, Role::Shoulder),
        Segment::Calf => roles_are(x, y, Role::Foot, Role::Knee),
        Segment::Thigh => roles_are(x, y, Role::Knee, Role::HipJoint),
        Segment::Hip => roles_are(x, y, Role::HipJoint, Role::Pelvis),
        Segment::Clavicle => roles_are(x, y, Role::Shoulder, Role::Neck),
        Segment::Trunk => roles_are(x, y, Role::Pelvis, Role::Neck) || roles_are(x, y, Role::Shoulder, Role::HipJoint),
        Segment::ClavicleSupport => roles_are(x, y, Role::Shoulder, Role::Pelvis),
        Segment::HipSupport => roles_are(x, y, Role::Neck, Role::HipJoint),
    }
}

/// The particle at the same place on the other side of the body: left and
/// right limbs swap, the pelvis and the neck stay.
pub open spec fn mirror_particle(p: int) -> int {
    if (0 <= p < 3) || (6 <= p < 9) {
        p + 3
    } else if (3 <= p < 6) || (9 <= p < 12) {
        p - 3
    } else {
        p
    }
}

/// Particle `p` lies on the left side of the body (left arm or left leg).
pub open spec fn left_side(p: int) -> bool {
    (0 <= p < 3) || (6 <= p < 9)
}

/// Particle `p` lies on the right side of the body (right arm or right leg).
pub open spec fn right_side(p: int) -> bool {
    (3 <= p < 6) || (9 <= p < 12)
}

/// Every link of the climber joins the body parts its segment is named
/// after, so its rest length is the measurement of that part; and no link
/// crosses from the left side of the body to the right.
pub proof fn lemma_climber_links_fit_anatomy(i: int)
    requires
        0 <= i < CLIMBER_LINK_COUNT,
    ensures
        segment_fits(climber_link(i).segment, role(climber_link(i).a as int), role(climber_link(i).b as int)),
        !(left_side(climber_link(i).a as int) && right_side(climber_link(i).b as int)),
        !(right_side(climber_link(i).a as int) && left_side(climber_link(i).b as int)),
{
}

/// The index of the link that mirrors link `i` across the body.
spec fn twin_link(i: int) -> int {
    if i <= 7 {
        if i % 4 < 2 { i + 2 } else { i - 2 }
    } else if i == 8 {
        9
    } else if i == 9 {
        8
    } else if i == 10 {
        10
    } else if i == 11 || i == 13 || i == 15 || i == 17 {
        i + 1
    } else {
        i - 1
    }
}

/// The climber is left-right symmetric: mirroring the ends of any link gives
/// the ends of a link with the same segment and the same visibility, and
/// mirroring any joint gives a joint.
pub proof fn lemma_climber_symmetric(i: int, k: int)
    requires
        0 <= i < CLIMBER_LINK_COUNT,
        0 <= k < CLIMBER_JOINT_COUNT,
    ensures
        exists|j: int|
            #![trigger climber_link(j)]
            0 <= j < CLIMBER_LINK_COUNT
                && link_joins(climber_link(j), mirror_particle(climber_link(i).a as int), mirror_particle(climber_link(i).b as int))
                && climber_link(j).segment == climber_link(i).segment
                && climber_link(j).visible == climber_link(i).visible,
        exists|m: int|
            #![trigger climber_joint(m)]
            0 <= m < CLIMBER_JOINT_COUNT
                && climber_joint(m).a == mirror_particle(climber_joint(k).a as int)
                && climber_joint(m).b == mirror_particle(climber_joint(k).b as int)
                && climber_joint(m).c == mirror_particle(climber_joint(k).c as int),
{
    let j = twin_link(i);
    assert(link_joins(climber_link(j), mirror_particle(climber_link(i).a as int), mirror_particle(climber_link(i).b as int)));
    let m: int = if k % 2 == 0 { k + 1 } else { k - 1 };
    assert(climber_joint(m).a == mirror_particle(climber_joint(k).a as int));
}

/// The links and joints of a body, over particles `0..particle_count`.
pub struct Skeleton {
    pub particle_count: usize,
    pub links: Vec<Link>,
    pub joints: Vec<Joint>,
}

impl Skeleton {
    /// Every link and every joint refers to particles of this body only, and
    /// never twice to the same particle.
    pub open spec fn wf(&self) -> bool {
        &&& forall|i: int| 0 <= i < self.links.len() ==> #[trigger] link_valid(self.links[i], self.particle_count as nat)
        &&& forall|i: int| 0 <= i < self.joints.len() ==> #[trigger] joint_valid(self.joints[i], self.particle_count as nat)
    }

    /// The body plan of the climber: two arms and two legs of two segments
    /// each, a trunk from pelvis to neck, clavicles and hips joining the
    /// limbs to it, and six hidden braces that keep the torso rigid.
    pub fn climber() -> (s: Skeleton)
        ensures
            s.wf(),
            s.particle_count == PARTICLE_COUNT,
            s.links@ == Seq::new(CLIMBER_LINK_COUNT as nat, |i: int| climber_link(i)),
            s.joints@ == Seq::new(CLIMBER_JOINT_COUNT as nat, |i: int| climber_joint(i)),
            forall|i: int|
                0 <= i < s.links.len() ==> segment_fits(
                    (#[trigger] s.links[i]).segment,
                    role(s.links[i].a as int),
                    role(s.links[i].b as int),
                ),
    {
        let mut links: Vec<Link> = Vec::new();
        links.push(Link { a: 0, b: 1, segment: Segment::Forearm, visible: true });
        links.push(Link { a: 1, b: 2, segment: Segment::Arm, visible: true });
        links.push(Link { a: 3, b: 4, segment: Segment::Forearm, visible: true });
        links.push(Link { a: 4, b: 5, segment: Segment::Arm, visible: true });
        links.push(Link { a: 6, b: 7, segment: Segment::Calf, visible: true });
        links.push(Link { a: 7, b: 8, segment: Segment::Thigh, visible: true });
        links.push(Link { a: 9, b: 10, segment: Segment::Calf, visible: true });
        links.push(Link { a: 10, b: 11, segment: Segment::Thigh, visible: true });
        links.push(Link { a: 8, b: 12, segment: Segment::Hip, visible: true });
        links.push(Link { a: 12, b: 11, segment: Segment::Hip, visible: true });
        links.push(Link { a: 12, b: 13, segment: Segment::Trunk, visible: true });
        links.push(Link { a: 2, b: 13, segment: Segment::Clavicle, visible: true });
        links.push(Link { a: 13, b: 5, segment: Segment::Clavicle, visible: true });
        links.push(Link { a: 2, b: 12, segment: Segment::ClavicleSupport, visible: false });
        links.push(Link { a: 5, b: 12, segment: Segment::ClavicleSupport, visible: false });
        links.push(Link { a: 13, b: 8, segment: Segment::HipSupport, visible: false });
        links.push(Link { a: 13, b: 11, segment: Segment::HipSupport, visible: false });
        links.push(Link { a: 2, b: 8, segment: Segment::Trunk, visible: false });
        links.push(Link { a: 5, b: 11, segment: Segment::Trunk, visible: false });
        let mut joints: Vec<Joint> = Vec::new();
        joints.push(Joint::new(0, 1, 2));
        joints.push(Joint::new(3, 4, 5));
        joints.push(Joint::new(6, 7, 8));
        joints.push(Joint::new(9, 10, 11));
        let s = Skeleton { particle_count: PARTICLE_COUNT, links, joints };
        assert(s.links@ =~= Seq::new(CLIMBER_LINK_COUNT as nat, |i: int| climber_link(i)));
        assert(s.joints@ =~= Seq::new(CLIMBER_JOINT_COUNT as nat, |i: int| climber_joint(i)));
        assert forall|i: int| 0 <= i < s.links.len() implies segment_fits(
            (#[trigger] s.links[i]).segment,
            role(s.links[i].a as int),
            role(s.links[i].b as int),
        ) by {
            lemma_climber_links_fit_anatomy(i);
        }
        s
    }

    /// Sets whether the first joint (the left arm) holds on, as a pointer
    /// press does during a step; nothing else changes.
    pub fn set_grab(&mut self, held: bool)
        requires
            old(self).joints.len() > 0,
        ensures
            final(self).particle_count == old(self).particle_count,
            final(self).links@ == old(self).links@,
            final(self).joints@ == old(self).joints@.update(0, Joint { hold: held, ..old(self).joints[0] }),
            old(self).wf() ==> final(self).wf(),
    {
        let mut first = self.joints[0];
        first.hold = held;
        self.joints.set(0, first);
        assert forall|i: int| 0 <= i < self.joints.len() && old(self).wf() implies #[trigger] joint_valid(self.joints[i], self.particle_count as nat) by {
            assert(joint_valid(old(self).joints[i], old(self).particle_count as nat));
        }
    }
}

} // verus!
