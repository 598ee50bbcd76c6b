//! The laws of the match, stated over the same spec functions the
//! executable contracts use and proved once and for all.

use vstd::prelude::*;
use vstd::math::abs;
use crate::entity::{hit_velocity_x, sign};

verus! {

/// Every hit with a positive acceleration adds energy: the horizontal
/// speed strictly grows, by exactly the acceleration, and the direction
/// of travel reverses. A motionless ball counts as travelling right, so
/// even it leaves the hit moving, at `accel` towards the left.
pub proof fn lemma_hit_speeds_up(vx: int, accel: int)
    requires
        accel > 0,
    ensures
        abs(hit_velocity_x(vx, accel)) == abs(vx) + accel,
        abs(hit_velocity_x(vx, accel)) > abs(vx),
        vx >= 0 ==> hit_velocity_x(vx, accel) < 0,
        vx < 0 ==> hit_velocity_x(vx, accel) > 0,
{
    assert(sign(vx) == if vx >= 0 { 1int } else { -1int });
}

} // verus!
