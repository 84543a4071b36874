//! # Audio sample buffer
//!
//! The capture callback appends incoming samples to a shared buffer and
//! keeps only the most recent ones.

use vstd::prelude::*;

verus! {

/// Number of samples the capture buffer keeps.
pub const SAMPLE_BUFFER_LIMIT: usize = 4096;

/// The buffer after appending `data` to `buffer` and keeping at most
/// `limit` of the latest samples.
pub open spec fn kept_samples<T>(buffer: Seq<T>, data: Seq<T>, limit: nat) -> Seq<T> {
    let all = buffer + data;
    if all.len() > limit {
        all.subrange(all.len() - limit, all.len() as int)
    } else {
        all
    }
}

/// Append `data` to `buffer`, then drop the oldest samples so that at most
/// `limit` remain.
pub fn append_keeping_latest<T: Copy>(buffer: &mut Vec<T>, data: &[T], limit: usize)
    requires
        old(buffer)@.len() + data@.len() <= usize::MAX,
    ensures
        final(buffer)@ == kept_samples(old(buffer)@, data@, limit as nat),
{
    let ghost start = buffer@;
    let mut i: usize = 0;
    while i < data.len()
        invariant
            i <= data@.len(),
            buffer@ == start + data@.subrange(0, i as int),
        decreases data@.len() - i,
    {
        buffer.push(data[i]);
        i = i + 1;
        assert(data@.subrange(0, i as int) =~= data@.subrange(0, i - 1).push(data@[i - 1]));
    }
    assert(data@.subrange(0, data@.len() as int) =~= data@);
    if buffer.len() > limit {
        let drain_to = buffer.len() - limit;
        let ghost all = buffer@;
        let mut kept: Vec<T> = Vec::new();
        let mut j: usize = drain_to;
        while j < buffer.len()
            invariant
                buffer@ == all,
                drain_to <= j <= all.len(),
                kept@ == all.subrange(drain_to as int, j as int),
            decreases all.len() - j,
        {
            kept.push(buffer[j]);
            j = j + 1;
            assert(all.subrange(drain_to as int, j as int) =~= all.subrange(
                drain_to as int,
                j - 1,
            ).push(all[j - 1]));
        }
        *buffer = kept;
    }
}

} // verus!
