//! The discrete part of a 2-D climbing simulation: the body plan of the
//! climber (which particles its links and joints tie together), the order in
//! which particle pairs are tested for contact, how a joint picks its target
//! in the current pose, and the corner layout of the poses.
//!
//! Positions, velocities and lengths are floating-point values; they live in
//! the application, which uses the indices and schedules computed here.

pub mod contact;
pub mod corner;
pub mod motion;
pub mod random;
pub mod skeleton;

pub use skeleton::{Joint, Link, Measure, Segment, Skeleton, PARTICLE_COUNT};
pub use contact::collision_pairs;
pub use motion::{pose_index, JointCommand};
pub use corner::{Corner, CORNER_COUNT};
pub use random::gen_hold_row;
