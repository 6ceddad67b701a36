use vstd::prelude::*;

verus! {

/// An executor that accepts every action and does nothing with it.
#[derive(Debug, Clone, Copy, Default)]
pub struct Dummy;

} // verus!
