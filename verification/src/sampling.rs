//! The fixed supersampling grids: one centered sample, or five samples
//! in a small cross of jitter offsets (in normalized screen units).

use vstd::prelude::*;

use crate::fixed::Fx;

verus! {

/// The jitter offsets used for a pixel: a single centered sample, or
/// the five-sample grid.
pub open spec fn sample_grid(supersampling: bool) -> Seq<(int, int)> {
    if supersampling {
        seq![
            (0int, 0int),
            (330_000int, 330_000int),
            (-330_000int, 330_000int),
            (-330_000int, -330_000int),
            (330_000int, -330_000int),
        ]
    } else {
        seq![(0int, 0int)]
    }
}

/// How many samples the chosen grid has.
pub fn sample_count(supersampling: bool) -> (n: usize)
    ensures
        n == sample_grid(supersampling).len(),
        1 <= n <= 5,
{
    if supersampling {
        5
    } else {
        1
    }
}

/// The `k`-th jitter offset of the chosen grid.
pub fn sample_offset(supersampling: bool, k: usize) -> (r: (Fx, Fx))
    requires
        k < sample_grid(supersampling).len(),
    ensures
        r.0@ == sample_grid(supersampling)[k as int].0,
        r.1@ == sample_grid(supersampling)[k as int].1,
{
    if supersampling {
        if k == 0 {
            (Fx { v: 0 }, Fx { v: 0 })
        } else if k == 1 {
            (Fx { v: 330_000 }, Fx { v: 330_000 })
        } else if k == 2 {
            (Fx { v: -330_000 }, Fx { v: 330_000 })
        } else if k == 3 {
            (Fx { v: -330_000 }, Fx { v: -330_000 })
        } else {
            (Fx { v: 330_000 }, Fx { v: -330_000 })
        }
    } else {
        (Fx { v: 0 }, Fx { v: 0 })
    }
}

} // verus!
