//! Recoverable failure conditions of the data-layout core.  Resource
//! allocation failures are fatal at setup time and never reach this type.

use vstd::prelude::*;

verus! {

/// A condition the caller can act on: an append past a registry's fixed
/// capacity, or a write that would fall outside a block's fixed size.
#[derive(Clone, Copy, PartialEq, Eq, Structural, Debug)]
pub enum SceneError {
    CapacityExceeded,
    LayoutViolation,
}

} // verus!
