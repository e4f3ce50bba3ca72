//! Rasterizer state; its contents are out of scope for the registry core,
//! so there is nothing to track yet.

use vstd::prelude::*;

verus! {

/// The rasterizer's fixed-function state.
#[derive(Clone, Copy, Debug, PartialEq, Eq, Structural)]
pub struct RasterizationState {}

impl Default for RasterizationState {
    fn default() -> (state: RasterizationState)
        ensures
            state == (RasterizationState {  }),
    {
        RasterizationState {  }
    }
}

} // verus!
