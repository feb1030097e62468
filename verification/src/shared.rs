//! Handles to values that several owners share.

use std::sync::Arc;
use vstd::prelude::*;

verus! {

/// Another handle to the value behind `handle`.
///
/// Calls `Arc::clone`, which hands out a new pointer to the same allocation
/// and leaves the value untouched. The contract claims that the new handle
/// equals the old one.
#[verifier::external_body]
pub(crate) fn share<T>(handle: &Arc<T>) -> (other: Arc<T>)
    ensures
        other == *handle,
{
    Arc::clone(handle)
}

} // verus!
