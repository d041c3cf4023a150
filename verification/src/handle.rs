//! Shared ownership of one stored value by several handles.

use vstd::prelude::*;
use std::sync::Arc;

verus! {

/// `Arc::clone`: the new handle points to the allocation that `handle` points
/// to, so both name the same stored value; the value itself is not copied.
#[verifier::external_body]
pub(crate) fn share<T>(handle: &Arc<T>) -> (shared: Arc<T>)
    ensures
        shared == *handle,
{
    Arc::clone(handle)
}

} // verus!
