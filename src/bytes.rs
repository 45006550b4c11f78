use vstd::prelude::*;

verus! {

/// Little-endian value of a byte sequence.
pub open spec fn le_value(s: Seq<u8>) -> nat
    decreases s.len(),
{
    if s.len() == 0 {
        0
    } else {
        s[0] as nat + 256 * le_value(s.drop_first())
    }
}

/// `256` to the power `n`.
pub open spec fn pow256(n: nat) -> nat
    decreases n,
{
    if n == 0 {
        1
    } else {
        256 * pow256((n - 1) as nat)
    }
}

/// A little-endian value is below `256` to the power of its width.
pub proof fn lemma_le_value_bound(s: Seq<u8>)
    ensures
        le_value(s) < pow256(s.len()),
    decreases s.len(),
{
    if s.len() > 0 {
        lemma_le_value_bound(s.drop_first());
        let a = s[0] as nat;
        let r = le_value(s.drop_first());
        let p = pow256((s.len() - 1) as nat);
        assert(a + 256 * r < 256 * p) by (nonlinear_arith)
            requires
                a < 256,
                r < p,
        ;
    }
}

/// Reads an unsigned 64-bit integer stored in little-endian order.
pub fn u64_from_le(b: &[u8; 8]) -> (r: u64)
    ensures
        r as nat == le_value(b@),
{
    let mut acc: u64 = 0;
    let mut i: usize = 8;
    proof {
        assert(b@.subrange(8, 8) =~= Seq::<u8>::empty());
    }
    while i > 0
        invariant
            i <= 8,
            b@.len() == 8,
            acc as nat == le_value(b@.subrange(i as int, 8)),
        decreases i,
    {
        let ghost tail = b@.subrange(i as int, 8);
        let ghost next = b@.subrange(i - 1, 8);
        proof {
            assert(next.drop_first() =~= tail);
            lemma_le_value_bound(next);
            assert(pow256(8) == 0x1_0000_0000_0000_0000) by {
                reveal_with_fuel(pow256, 9);
            }
            assert(pow256(next.len()) <= pow256(8)) by {
                lemma_pow256_mono(next.len(), 8);
            }
        }
        acc = (b[i - 1] as u64) + 256 * acc;
        i = i - 1;
    }
    proof {
        assert(b@.subrange(0, 8) =~= b@);
    }
    acc
}

/// Powers of `256` grow with the exponent.
pub proof fn lemma_pow256_mono(m: nat, n: nat)
    requires
        m <= n,
    ensures
        pow256(m) <= pow256(n),
    decreases n,
{
    if m < n {
        lemma_pow256_mono(m, (n - 1) as nat);
    }
}

/// Copies `N` bytes of `src`, starting at `off`, into an array.
pub fn read_array<const N: usize>(src: &[u8], off: usize) -> (r: [u8; N])
    requires
        off + N <= src@.len(),
    ensures
        r@ == src@.subrange(off as int, off + N),
{
    let mut r: [u8; N] = vstd::array::array_fill_for_copy_types(0u8);
    let len: usize = src.len();
    let mut i: usize = 0;
    while i < N
        invariant
            i <= N,
            off + N <= src@.len(),
            len == src@.len(),
            r@.len() == N,
            forall|k: int| 0 <= k < i ==> r@[k] == src@[off + k],
        decreases N - i,
    {
        r[i] = src[off + i];
        i = i + 1;
    }
    assert(r@ =~= src@.subrange(off as int, off + N));
    r
}

/// Appends the bytes of an array to `out`.
pub fn push_array<const N: usize>(out: &mut Vec<u8>, a: &[u8; N])
    ensures
        final(out)@ == old(out)@ + a@,
{
    let mut i: usize = 0;
    while i < N
        invariant
            i <= N,
            a@.len() == N,
            out@ == old(out)@ + a@.subrange(0, i as int),
        decreases N - i,
    {
        out.push(a[i]);
        i = i + 1;
        assert(out@ =~= old(out)@ + a@.subrange(0, i as int));
    }
    assert(a@.subrange(0, N as int) =~= a@);
}

} // verus!
