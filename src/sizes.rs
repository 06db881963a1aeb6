use vstd::arithmetic::power2::{lemma_pow2_pos, lemma_pow2_unfold, pow2};
use vstd::prelude::*;

verus! {

/// The first read size that is measured.
pub const FIRST_READ_SIZE: usize = 16;

/// The `i`-th read size: sizes start at 16 bytes and double each time.
pub open spec fn read_size(i: nat) -> nat {
    16 * pow2(i)
}

/// `⌊log2(n)⌋` for `n >= 1`, and 0 for `n == 0`.
pub open spec fn log2_floor(n: nat) -> nat
    decreases n,
{
    if n < 2 {
        0
    } else {
        1 + log2_floor(n / 2)
    }
}

/// How many sizes are measured against an allocation of `n` bytes.
pub open spec fn read_size_count(n: nat) -> nat {
    if n < 16 {
        0
    } else {
        log2_floor(n / 16) + 1
    }
}

/// For `m >= 1`, `2^k <= m` exactly when `k <= ⌊log2(m)⌋`.
proof fn lemma_pow2_le_iff_log2(k: nat, m: nat)
    requires
        m >= 1,
    ensures
        pow2(k) <= m <==> k <= log2_floor(m),
    decreases k,
{
    lemma_pow2_pos(k);
    if k == 0 {
        assert(pow2(0) == 1) by { vstd::arithmetic::power2::lemma2_to64(); }
    } else {
        lemma_pow2_unfold(k);
        let k1 = (k - 1) as nat;
        lemma_pow2_pos(k1);
        if m < 2 {
            assert(pow2(k) >= 2);
        } else {
            lemma_pow2_le_iff_log2(k1, m / 2);
            assert(2 * pow2(k1) <= m <==> pow2(k1) <= m / 2);
        }
    }
}

/// A size `16 * 2^i` fits in `n` bytes exactly when `i` is below the count.
pub proof fn lemma_read_size_fits(n: nat, i: nat)
    ensures
        read_size(i) <= n <==> i < read_size_count(n),
{
    lemma_pow2_pos(i);
    if n < 16 {
        assert(read_size(i) >= 16);
    } else {
        lemma_pow2_le_iff_log2(i, n / 16);
        assert(16 * pow2(i) <= n <==> pow2(i) <= n / 16);
    }
}

/// The read sizes measured against an allocation of `byte_num` bytes: 16,
/// 32, 64, ... up to and including the largest that does not exceed it.
pub fn read_sizes(byte_num: usize) -> (r: Vec<usize>)
    ensures
        r@.len() == read_size_count(byte_num as nat),
        forall|i: int| 0 <= i < r@.len() ==> #[trigger] r@[i] == read_size(i as nat),
        forall|i: int| 0 <= i < r@.len() ==> #[trigger] r@[i] <= byte_num,
{
    let mut r: Vec<usize> = Vec::new();
    let mut size: usize = FIRST_READ_SIZE;
    proof {
        vstd::arithmetic::power2::lemma2_to64();
    }
    while size <= byte_num
        invariant
            size == read_size(r@.len()),
            size >= 16,
            forall|i: int| 0 <= i < r@.len() ==> #[trigger] r@[i] == read_size(i as nat),
            forall|i: int| 0 <= i < r@.len() ==> #[trigger] r@[i] <= byte_num,
            r@.len() <= read_size_count(byte_num as nat),
            read_size(r@.len()) <= byte_num ==> r@.len() < read_size_count(byte_num as nat),
        decreases byte_num - size,
    {
        proof {
            lemma_read_size_fits(byte_num as nat, r@.len());
            lemma_read_size_fits(byte_num as nat, r@.len() + 1);
            lemma_pow2_unfold(r@.len() + 1);
        }
        r.push(size);
        if size > byte_num / 2 {
            assert(read_size(r@.len()) > byte_num);
            return r;
        }
        size = size * 2;
    }
    proof {
        lemma_read_size_fits(byte_num as nat, r@.len());
    }
    r
}

/// The measured sizes double from 16 and there are `⌊log2(n / 16)⌋ + 1` of
/// them for an allocation of `n >= 16` bytes.
pub proof fn lemma_read_sizes_double(n: nat)
    requires
        n >= 16,
    ensures
        read_size_count(n) == log2_floor(n / 16) + 1,
        read_size(0) == 16,
        forall|i: nat| #[trigger] read_size(i + 1) == 2 * read_size(i),
        read_size((read_size_count(n) - 1) as nat) <= n < read_size(read_size_count(n)),
{
    vstd::arithmetic::power2::lemma2_to64();
    assert forall|i: nat| #[trigger] read_size(i + 1) == 2 * read_size(i) by {
        lemma_pow2_unfold(i + 1);
    }
    lemma_read_size_fits(n, (read_size_count(n) - 1) as nat);
    lemma_read_size_fits(n, read_size_count(n));
}

} // verus!
