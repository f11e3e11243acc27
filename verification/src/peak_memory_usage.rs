//! Helpers of the probe program that drives its memory use up to a known peak
//! so that the measurement of peak memory can be checked.
use vstd::prelude::*;

verus! {

/// Writes to every byte of `buf`, adding 0x5A to it with wraparound, so that
/// its pages are backed by physical memory.
pub fn touch(buf: &mut [u8])
    ensures
        final(buf)@.len() == old(buf)@.len(),
        forall|i: int| 0 <= i < old(buf)@.len() ==> #[trigger] final(buf)@[i] == old(buf)@[i].wrapping_add(0x5Au8),
{
    let n = buf.len();
    let mut i: usize = 0;
    while i < n
        invariant
            n == buf@.len(),
            n == old(buf)@.len(),
            i <= n,
            forall|j: int| 0 <= j < i ==> #[trigger] buf@[j] == old(buf)@[j].wrapping_add(0x5Au8),
            forall|j: int| i <= j < n ==> #[trigger] buf@[j] == old(buf)@[j],
        decreases n - i,
    {
        let b = buf[i];
        buf[i] = b.wrapping_add(0x5A);
        i = i + 1;
    }
}

/// `n` mebibytes in bytes.
pub fn mb(n: usize) -> (r: usize)
    requires
        n * 1024 * 1024 <= usize::MAX,
    ensures
        r == n * 1024 * 1024,
{
    n * 1024 * 1024
}

} // verus!
