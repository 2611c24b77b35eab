//! Who may use the methods that are unsafe to offer to everyone.

use crate::error::{Failure, FailureView};
use vstd::prelude::*;

verus! {

/// Whether callers are kept from the methods that are unsafe to offer them.
#[derive(Clone, Copy, Debug, PartialEq, Eq, Structural)]
pub enum DenyUnsafe {
    /// They are kept from them.
    Yes,
    /// They may use them.
    No,
}

impl DenyUnsafe {
    /// Lets the caller of an unsafe method pass, or turns it away.
    pub fn check_if_safe(self) -> (checked: Result<(), Failure>)
        ensures
            checked is Err <==> self == DenyUnsafe::Yes,
            checked matches Err(failure) ==> failure@ == FailureView::Forbidden,
    {
        match self {
            DenyUnsafe::Yes => Err(Failure::Forbidden),
            DenyUnsafe::No => Ok(()),
        }
    }
}

} // verus!
