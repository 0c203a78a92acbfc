use vstd::prelude::*;

verus! {

/// Error returned if there is no default value.
///
/// The marker carries no data: any two values of it are equal.
#[derive(Debug, Clone, Copy, PartialEq, Eq, Structural)]
pub struct DefaultNotFound;

impl DefaultNotFound {
    /// The human-readable description of the failure.
    pub fn message(&self) -> (r: &'static str)
        ensures
            r@ == "The type does not implement default"@,
    {
        "The type does not implement default"
    }
}

} // verus!
