//! Driver data of a graphics-memory object of the companion DRM driver.

use crate::resource::BusHandle;
use vstd::prelude::*;

verus! {

/// What the driver keeps with one graphics-memory object: nothing so far. The
/// place is held for state that is backed by memory.
#[derive(Clone, Copy, Debug, PartialEq, Eq, Structural)]
pub struct TyrObject {}

impl TyrObject {
    /// Builds the driver data of an object of `size` bytes that belongs to
    /// `dev`. The call may fail by its type, with an error code; as long as
    /// there is nothing to build it never does.
    pub fn new(dev: BusHandle, size: usize) -> (made: Result<TyrObject, i32>)
        ensures
            made == Ok::<TyrObject, i32>(TyrObject {  }),
    {
        Ok(TyrObject {  })
    }
}

} // verus!
