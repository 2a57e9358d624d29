//! The uniform failure carrier: an opaque, human-readable cause string.

use vstd::prelude::*;

verus! {

/// Why no idle time could be obtained: no bus connection, no matching
/// service, a native call failure, or a computed value that would have been
/// negative.
#[derive(Debug)]
pub struct Error {
    pub cause: String,
}

impl Error {
    /// Build an error from its cause string.
    pub fn new(cause: String) -> (r: Self)
        ensures
            r.cause@ == cause@,
    {
        Self { cause }
    }

    /// The cause string, for callers that want to display the failure.
    pub fn message(&self) -> (r: &str)
        ensures
            r@ == self.cause@,
    {
        self.cause.as_str()
    }
}

} // verus!
