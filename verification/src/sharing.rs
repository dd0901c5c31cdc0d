//! Clients that several parts of a recording share.

use std::sync::Arc;

use vstd::prelude::*;

verus! {

/// `Arc::clone`: another pointer to the same value.
#[verifier::external_body]
pub(crate) fn share<T>(pointer: &Arc<T>) -> (r: Arc<T>)
    ensures
        r == *pointer,
{
    Arc::clone(pointer)
}

} // verus!
