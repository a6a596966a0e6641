//! Joint ownership of the block that the two handles of a beam hold.

use std::sync::Arc;
use vstd::prelude::*;

verus! {

/// `Arc::clone`: a second pointer to the same allocation, so that the result
/// equals the argument. The block is freed when both pointers are gone.
#[verifier::external_body]
pub(crate) fn share<B>(block: &Arc<B>) -> (other: Arc<B>)
    ensures
        other == *block,
{
    block.clone()
}

} // verus!
