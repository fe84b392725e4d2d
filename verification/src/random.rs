use vstd::prelude::*;

use rand::Rng;

use crate::corner::CORNER_COUNT;

verus! {

/// A fair coin: `rand::thread_rng().gen::<bool>()` from the `rand` crate,
/// which takes the sign bit of the next 32-bit word of the thread's
/// generator. Nothing is claimed of the value, which rests on chance.
#[verifier::external_body]
fn get_rand_bool() -> bool {
    rand::thread_rng().gen::<bool>()
}

/// The hold flags of a new random pose: one coin toss per corner, in the
/// order of the pose's targets.
pub fn gen_hold_row() -> (row: Vec<bool>)
    ensures
        row.len() == CORNER_COUNT,
{
    let mut row: Vec<bool> = Vec::new();
    let mut k: usize = 0;
    while k < CORNER_COUNT
        invariant
            k <= CORNER_COUNT,
            row.len() == k,
        decreases CORNER_COUNT - k,
    {
        row.push(get_rand_bool());
        k = k + 1;
    }
    row
}

} // verus!
