//! Little-endian integer fields inside byte buffers.

use vstd::prelude::*;

verus! {

/// `256^n`.
pub open spec fn pow256(n: nat) -> nat
    decreases n,
{
    if n == 0 {
        1
    } else {
        256 * pow256((n - 1) as nat)
    }
}

/// The little-endian value of `d[off .. off + n]`.
pub open spec fn le(d: Seq<u8>, off: int, n: nat) -> nat
    decreases n,
{
    if n == 0 {
        0
    } else {
        d[off] as nat + 256 * le(d, off + 1, (n - 1) as nat)
    }
}

pub proof fn lemma_le_bound(d: Seq<u8>, off: int, n: nat)
    ensures
        le(d, off, n) < pow256(n),
    decreases n,
{
    if n > 0 {
        lemma_le_bound(d, off + 1, (n - 1) as nat);
    }
}

pub proof fn lemma_pow256_mono(a: nat, b: nat)
    requires
        a <= b,
    ensures
        pow256(a) <= pow256(b),
    decreases b,
{
    if a < b {
        lemma_pow256_mono(a, (b - 1) as nat);
    }
}

pub proof fn lemma_pow256_8()
    ensures
        pow256(8) == 0x1_0000_0000_0000_0000,
        pow256(2) == 0x1_0000,
        pow256(4) == 0x1_0000_0000,
        pow256(6) == 0x1_0000_0000_0000,
{
    reveal_with_fuel(pow256, 9);
}

pub proof fn lemma_pow256_16()
    ensures
        pow256(16) == 0x1_0000_0000_0000_0000_0000_0000_0000_0000,
{
    reveal_with_fuel(pow256, 17);
}

/// The little-endian value of `d[off .. off + n]`, for `n <= 8`.
pub fn read_le_u64(d: &[u8], off: usize, n: usize) -> (v: u64)
    requires
        n <= 8,
        off + n <= d@.len(),
    ensures
        v as nat == le(d@, off as int, n as nat),
{
    let len = d.len();
    let mut acc: u64 = 0;
    let mut k: usize = n;
    proof {
        lemma_pow256_8();
    }
    while k > 0
        invariant
            k <= n <= 8,
            len == d@.len(),
            off + n <= d@.len(),
            acc as nat == le(d@, off + k, (n - k) as nat),
            pow256(8) == 0x1_0000_0000_0000_0000,
        decreases k,
    {
        proof {
            lemma_le_bound(d@, off + k, (n - k) as nat);
            lemma_pow256_mono((n - k + 1) as nat, 8);
        }
        let b = d[off + k - 1];
        assert(acc * 256 + b < pow256((n - k + 1) as nat));
        acc = acc * 256 + b as u64;
        k = k - 1;
    }
    v_of(acc)
}

fn v_of(v: u64) -> (r: u64)
    ensures
        r == v,
{
    v
}

/// The little-endian value of the 16 bytes at `off`.
pub fn read_le_u128(d: &[u8], off: usize) -> (v: u128)
    requires
        off + 16 <= d@.len(),
    ensures
        v as nat == le(d@, off as int, 16),
{
    let len = d.len();
    let mut acc: u128 = 0;
    let mut k: usize = 16;
    proof {
        lemma_pow256_16();
    }
    while k > 0
        invariant
            k <= 16,
            len == d@.len(),
            off + 16 <= d@.len(),
            acc as nat == le(d@, off + k, (16 - k) as nat),
            pow256(16) == 0x1_0000_0000_0000_0000_0000_0000_0000_0000,
        decreases k,
    {
        proof {
            lemma_le_bound(d@, off + k, (16 - k) as nat);
            lemma_pow256_mono((16 - k + 1) as nat, 16);
        }
        let b = d[off + k - 1];
        acc = acc * 256 + b as u128;
        k = k - 1;
    }
    acc
}

/// Some byte of the sequence is non-zero.
pub open spec fn any_nonzero(d: Seq<u8>) -> bool {
    exists|i: int| 0 <= i < d.len() && d[i] != 0
}

/// The first `n` bytes, or all bytes if there are fewer (`iter().take(n)`).
pub open spec fn prefix(d: Seq<u8>, n: nat) -> Seq<u8> {
    if n < d.len() {
        d.take(n as int)
    } else {
        d
    }
}

/// Whether any of the first `n` bytes (or all bytes, if fewer) is non-zero.
pub fn any_nonzero_prefix(d: &[u8], n: usize) -> (r: bool)
    ensures
        r == any_nonzero(prefix(d@, n as nat)),
{
    let m: usize = if n < d.len() {
        n
    } else {
        d.len()
    };
    let ghost t = prefix(d@, n as nat);
    assert(t =~= d@.take(m as int));
    let mut i: usize = 0;
    while i < m
        invariant
            i <= m <= d@.len(),
            t =~= d@.take(m as int),
            t == prefix(d@, n as nat),
            forall|k: int| 0 <= k < i ==> d@[k] == 0,
        decreases m - i,
    {
        if d[i] != 0 {
            assert(t[i as int] != 0);
            assert(0 <= i < t.len() && t[i as int] != 0);
            assert(any_nonzero(t));
            return true;
        }
        i = i + 1;
    }
    assert forall|k: int| 0 <= k < t.len() implies t[k] == 0 by {}
    false
}

} // verus!
