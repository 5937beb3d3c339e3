//! The decisions of the demonstration workload that shaves yaks.
use vstd::prelude::*;

verus! {

/// The number of yaks among `1..=yaks` that can be shaved: all but yak 3.
pub open spec fn shaved_count(yaks: nat) -> nat {
    if yaks >= 3 {
        (yaks - 1) as nat
    } else {
        yaks
    }
}

/// Shaves yak number `yak`; yak 3 cannot be located and stays unshaved.
pub fn shave(yak: usize) -> (r: bool)
    ensures
        r == (yak != 3),
{
    yak != 3
}

/// Shaves the yaks numbered `1..=yaks` and returns how many were shaved.
pub fn shave_all(yaks: usize) -> (r: usize)
    ensures
        r == shaved_count(yaks as nat),
{
    let mut num_shaved: usize = 0;
    let mut yak: usize = 0;
    while yak < yaks
        invariant
            yak <= yaks,
            num_shaved == shaved_count(yak as nat),
        decreases yaks - yak,
    {
        yak = yak + 1;
        if shave(yak) {
            num_shaved = num_shaved + 1;
        }
    }
    num_shaved
}

} // verus!
