//! Copying between fixed-size arrays and positions of a byte buffer.
use vstd::prelude::*;

verus! {

/// Copies the `N` bytes of `bytes` that start at `at` into an array.
pub(crate) fn read_array<const N: usize>(bytes: &[u8], at: usize) -> (out: [u8; N])
    requires
        at + N <= bytes.len(),
    ensures
        out@ == bytes@.subrange(at as int, at + N),
{
    let mut out: [u8; N] = [0u8; N];
    let mut i: usize = 0;
    while i < N
        invariant
            i <= N,
            at + N <= bytes.len(),
            forall|j: int| 0 <= j < i ==> out@[j] == bytes@[at + j],
        decreases N - i,
    {
        out[i] = bytes[at + i];
        i = i + 1;
    }
    out
}

/// Overwrites the `N` bytes of `dst` that start at `at` with `src` and leaves
/// the others as they were.
pub(crate) fn write_array<const M: usize, const N: usize>(
    dst: &mut [u8; M],
    at: usize,
    src: &[u8; N],
)
    requires
        at + N <= M,
    ensures
        final(dst)@ == old(dst)@.subrange(0, at as int) + src@ + old(dst)@.subrange(
            at + N,
            M as int,
        ),
{
    let mut i: usize = 0;
    while i < N
        invariant
            i <= N,
            at + N <= M,
            forall|j: int| 0 <= j < M && !(at <= j < at + i) ==> dst@[j] == old(dst)@[j],
            forall|j: int| 0 <= j < i ==> dst@[at + j] == src@[j],
        decreases N - i,
    {
        dst[at + i] = src[i];
        i = i + 1;
    }
    assert(dst@ =~= old(dst)@.subrange(0, at as int) + src@ + old(dst)@.subrange(
        at + N,
        M as int,
    ));
}

} // verus!
