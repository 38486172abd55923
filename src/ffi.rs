//! Value types of the host application's interface.
pub mod types;

use vstd::prelude::*;

verus! {

/// Whether this build is bound to the host application's native interface;
/// it never is: the library runs on its own.
pub fn maya_bindings_available() -> (r: bool)
    ensures
        !r,
{
    false
}

} // verus!
