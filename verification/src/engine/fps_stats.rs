//! The throughput figures of one trial.

use vstd::prelude::*;

verus! {

/// Mean, first percentile and ninetieth percentile of the accepted
/// throughput samples, in frames per second.
#[derive(Clone, Copy, Debug, PartialEq, Eq, Structural)]
pub struct FpsStats {
    pub avg: u16,
    pub one_perc_low: u16,
    pub ninety_perc: u16,
}

impl Default for FpsStats {
    fn default() -> (r: Self)
        ensures
            r == (FpsStats { avg: 0, one_perc_low: 0, ninety_perc: 0 }),
    {
        FpsStats { avg: 0, one_perc_low: 0, ninety_perc: 0 }
    }
}

} // verus!
