//! What came back from a call to an AWS service.

use vstd::prelude::*;

verus! {

/// How a call ended.
#[derive(Debug, Clone, Copy, PartialEq, Eq, Structural)]
pub enum Reply {
    /// The call succeeded.
    Done,
    /// The service answered that what the call names does not exist.
    NotFound,
    /// The call failed in any other way.
    Failed,
}

} // verus!
