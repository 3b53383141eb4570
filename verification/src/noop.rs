//! The reducer for consumers whose whole point is their side effects.
use vstd::prelude::*;

use crate::plumbing::Reducer;

verus! {

/// Merges two unit results into one.
pub struct NoopReducer;

impl Reducer<()> for NoopReducer {
    open spec fn wf(&self) -> bool {
        true
    }

    open spec fn reduces(&self, left: (), right: (), merged: ()) -> bool {
        true
    }

    fn reduce(self, _left: (), _right: ()) -> (r: ()) {
    }
}

} // verus!
