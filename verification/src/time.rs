use vstd::prelude::*;

verus! {

/// A frequency, counted in cycles per second.
#[derive(Clone, Copy, Debug, PartialEq, Eq, Structural)]
pub struct Hertz(pub u32);

} // verus!
