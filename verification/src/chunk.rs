//! Receive-buffer sizing for download workers.

use vstd::prelude::*;

verus! {

/// The number of bytes a download worker asks for in one read, given the
/// aggregate rate observed during the last tick.
///
/// Slow links get small reads so that a worker looks at the stop signal
/// often; fast links get large reads so that the cost per read stays low.
pub open spec fn chunk_size(current_rate: u64) -> u64 {
    if current_rate <= 1_000 {
        4
    } else if current_rate <= 10_000 {
        32
    } else if current_rate <= 100_000 {
        512
    } else if current_rate <= 1_000_000 {
        4096
    } else {
        16384
    }
}

/// Picks the read size for the given rate estimate.
pub fn chunk_size_for(current_rate: u64) -> (size: u64)
    ensures
        size == chunk_size(current_rate),
{
    if current_rate <= 1_000 {
        4
    } else if current_rate <= 10_000 {
        32
    } else if current_rate <= 100_000 {
        512
    } else if current_rate <= 1_000_000 {
        4096
    } else {
        16384
    }
}

/// The step table never shrinks as the rate grows, and stays within its
/// smallest and largest step.
pub proof fn chunk_size_is_monotone(slower: u64, faster: u64)
    requires
        slower <= faster,
    ensures
        chunk_size(slower) <= chunk_size(faster),
        4 <= chunk_size(slower) <= 16384,
{
}

} // verus!
