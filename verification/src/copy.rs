//! Moving bytes between slices and arrays.

use vstd::prelude::*;

verus! {

/// `target` with `source` written over it from index `at` on.
pub open spec fn overwritten(target: Seq<u8>, at: int, source: Seq<u8>) -> Seq<u8> {
    target.subrange(0, at) + source + target.subrange(at + source.len(), target.len() as int)
}

/// Writes `source` into `target` from index `at` on.
pub(crate) fn write_at(target: &mut [u8], at: usize, source: &[u8])
    requires
        at + source@.len() <= old(target)@.len(),
    ensures
        final(target)@ == overwritten(old(target)@, at as int, source@),
{
    let total: usize = target.len();
    let mut i: usize = 0;
    while i < source.len()
        invariant
            i <= source@.len(),
            at + source@.len() <= total,
            total == old(target)@.len(),
            target@ == overwritten(old(target)@, at as int, source@.subrange(0, i as int)),
        decreases source@.len() - i,
    {
        target[at + i] = source[i];
        i += 1;
    }
    assert(source@.subrange(0, i as int) =~= source@);
}

/// The `N` bytes of `source` that start at index `at`.
pub(crate) fn read_at<const N: usize>(source: &[u8], at: usize) -> (out: [u8; N])
    requires
        at + N <= source@.len(),
    ensures
        out@ == source@.subrange(at as int, at + N),
{
    let total: usize = source.len();
    let mut out: [u8; N] = [0u8; N];
    let mut i: usize = 0;
    while i < N
        invariant
            i <= N,
            at + N <= total,
            total == source@.len(),
            out@.subrange(0, i as int) == source@.subrange(at as int, at + i),
        decreases N - i,
    {
        let ghost before = out@;
        out[i] = source[at + i];
        proof {
            assert(out@.subrange(0, i + 1) =~= before.subrange(0, i as int).push(source@[at + i]));
            assert(source@.subrange(at as int, at + i + 1) =~= source@.subrange(
                at as int,
                at + i,
            ).push(source@[at + i]));
        }
        i += 1;
    }
    assert(out@.subrange(0, i as int) =~= out@);
    out
}

} // verus!
