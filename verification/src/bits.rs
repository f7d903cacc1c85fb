//! Powers of two and masks over `u128`, the storage type of integral constants.
use vstd::arithmetic::power2::*;
use vstd::prelude::*;

verus! {

/// `2^128`, one past the largest `u128`.
pub proof fn lemma_pow2_128()
    ensures
        pow2(128) == 0x1_0000_0000_0000_0000_0000_0000_0000_0000,
        pow2(128) == u128::MAX + 1,
{
    lemma2_to64();
    lemma_pow2_adds(64, 64);
}

/// Every power of two up to `2^127` fits in a `u128`.
pub proof fn lemma_pow2_fits(k: nat)
    requires
        k < 128,
    ensures
        0 < pow2(k) <= 0x8000_0000_0000_0000_0000_0000_0000_0000,
        pow2(k) <= u128::MAX,
{
    lemma_pow2_pos(k);
    lemma_pow2_128();
    lemma_pow2_unfold(128);
    if k < 127 {
        lemma_pow2_strictly_increases(k, 127);
    }
}

/// `pow2` is monotone.
pub proof fn lemma_pow2_le(a: nat, b: nat)
    requires
        a <= b,
    ensures
        pow2(a) <= pow2(b),
{
    if a < b {
        lemma_pow2_strictly_increases(a, b);
    }
}

/// Computes `2^k`.
pub fn pow2_u128(k: u8) -> (r: u128)
    requires
        k < 128,
    ensures
        r == pow2(k as nat),
{
    let mut r: u128 = 1;
    let mut i: u8 = 0;
    proof {
        lemma2_to64();
    }
    while i < k
        invariant
            i <= k < 128,
            r == pow2(i as nat),
        decreases k - i,
    {
        proof {
            lemma_pow2_unfold((i + 1) as nat);
            lemma_pow2_fits((i + 1) as nat);
        }
        r = r * 2;
        i = i + 1;
    }
    r
}

/// The largest value representable in `width` bits, `2^width - 1`.
pub fn max_unsigned_bits(width: u8) -> (r: u128)
    requires
        width <= 128,
    ensures
        r == pow2(width as nat) - 1,
{
    if width >= 128 {
        proof {
            lemma_pow2_128();
        }
        u128::MAX
    } else {
        proof {
            lemma_pow2_fits(width as nat);
        }
        pow2_u128(width) - 1
    }
}

/// Keeps the low `width` bits of `value`, i.e. `value mod 2^width`.
pub fn mask_bits(value: u128, width: u8) -> (r: u128)
    requires
        width <= 128,
    ensures
        r == (value as nat) % pow2(width as nat),
{
    if width >= 128 {
        proof {
            lemma_pow2_128();
            vstd::arithmetic::div_mod::lemma_small_mod(value as nat, pow2(128));
        }
        value
    } else {
        proof {
            lemma_pow2_fits(width as nat);
        }
        value % pow2_u128(width)
    }
}


/// `n` is a power of two.
pub open spec fn is_power_of_two(n: nat) -> bool {
    exists|k: nat| #[trigger] pow2(k) == n
}

/// `r` is the smallest power of two that is at least `n` (and at least one).
pub open spec fn is_next_power_of_two(n: nat, r: nat) -> bool {
    &&& is_power_of_two(r)
    &&& r >= n
    &&& (r == 1 || r / 2 < n)
}

/// Decides whether `n` is a power of two.
pub fn usize_is_power_of_two(n: usize) -> (r: bool)
    ensures
        r == is_power_of_two(n as nat),
{
    if n == 0 {
        proof {
            assert forall|j: nat| pow2(j) != 0 by {
                lemma_pow2_pos(j);
            }
        }
        return false;
    }
    let mut p: usize = 1;
    let ghost mut k: nat = 0;
    proof {
        lemma2_to64();
    }
    while p < n
        invariant
            0 < n,
            1 <= p,
            p == pow2(k),
            forall|j: nat| j < k ==> #[trigger] pow2(j) < n,
        decreases usize::MAX - p,
    {
        if p > usize::MAX / 2 {
            proof {
                assert forall|j: nat| pow2(j) != n by {
                    if j < k {
                    } else if j == k {
                    } else {
                        lemma_pow2_le(k + 1, j);
                        lemma_pow2_unfold(k + 1);
                    }
                }
            }
            return false;
        }
        proof {
            lemma_pow2_unfold(k + 1);
            assert forall|j: nat| j < k + 1 implies #[trigger] pow2(j) < n by {
                if j < k {
                } else {
                }
            }
            k = k + 1;
        }
        p = p * 2;
    }
    proof {
        if p != n {
            assert forall|j: nat| pow2(j) != n by {
                if j >= k {
                    lemma_pow2_le(k, j);
                }
            }
        }
    }
    p == n
}

/// Computes the smallest power of two that is at least `n`.
pub fn usize_next_power_of_two(n: usize) -> (r: usize)
    requires
        n <= usize::MAX / 2 + 1,
    ensures
        is_next_power_of_two(n as nat, r as nat),
{
    let mut p: usize = 1;
    let ghost mut k: nat = 0;
    proof {
        lemma2_to64();
    }
    while p < n
        invariant
            n <= usize::MAX / 2 + 1,
            1 <= p,
            p == pow2(k),
            k == 0 || pow2((k - 1) as nat) < n,
        decreases usize::MAX - p,
    {
        proof {
            lemma_pow2_unfold(k + 1);
            k = k + 1;
        }
        p = p * 2;
    }
    proof {
        assert(pow2(k) == p);
        if k > 0 {
            lemma_pow2_unfold(k);
        }
    }
    p
}


/// The exponent of the smallest power of two that is at least `n` (and at least one).
pub fn usize_ceil_log2(n: usize) -> (k: u8)
    requires
        n <= usize::MAX / 2 + 1,
    ensures
        pow2(k as nat) >= n,
        k == 0 || pow2((k - 1) as nat) < n,
        pow2(k as nat) <= usize::MAX,
        k < 64,
{
    let mut p: usize = 1;
    let mut k: u8 = 0;
    proof {
        lemma2_to64();
    }
    while p < n
        invariant
            n <= usize::MAX / 2 + 1,
            1 <= p,
            p == pow2(k as nat),
            k == 0 || pow2((k - 1) as nat) < n,
            k < 64,
        decreases usize::MAX - p,
    {
        proof {
            lemma_pow2_unfold((k + 1) as nat);
            if k >= 63 {
                lemma_pow2_le(63, k as nat);
                lemma2_to64_rest();
                assert(false);
            }
        }
        p = p * 2;
        k = k + 1;
    }
    k
}


/// The exponent of a power of two is determined by the power.
pub proof fn lemma_pow2_injective(a: nat, b: nat)
    requires
        pow2(a) == pow2(b),
    ensures
        a == b,
{
    if a < b {
        lemma_pow2_strictly_increases(a, b);
    } else if b < a {
        lemma_pow2_strictly_increases(b, a);
    }
}

/// A power of two that fits a `usize` is at most half the range plus one.
pub proof fn lemma_usize_power_of_two_bound(n: nat)
    requires
        is_power_of_two(n),
        n <= usize::MAX,
    ensures
        n <= usize::MAX / 2 + 1,
{
    let j = choose|j: nat| pow2(j) == n;
    lemma2_to64();
    lemma2_to64_rest();
    assert(usize::MAX == 0xffff_ffff || usize::MAX == 0xffff_ffff_ffff_ffff);
    if usize::MAX == 0xffff_ffff {
        if j >= 32 {
            lemma_pow2_le(32, j);
        } else if j < 31 {
            lemma_pow2_le(j, 31);
        }
    } else {
        if j >= 64 {
            lemma_pow2_le(64, j);
        } else if j < 63 {
            lemma_pow2_le(j, 63);
        }
    }
}

} // verus!
