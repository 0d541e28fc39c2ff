//! Integer arithmetic on image dimensions.

use vstd::prelude::*;
use vstd::arithmetic::power2::*;

verus! {

/// The number of groups of `size` that cover `n` items.
pub open spec fn groups(n: int, size: int) -> int {
    (n + size - 1) / size
}

/// Divides and rounds up.
pub fn div_ceil(n: u32, size: u32) -> (r: u32)
    requires
        size > 0,
    ensures
        r == groups(n as int, size as int),
        r * size >= n,
        r > 0 ==> (r - 1) * size < n,
{
    let q: u32 = n / size;
    let rest: u32 = n % size;
    proof {
        lemma_groups(n as int, size as int);
    }
    if rest == 0 {
        q
    } else {
        q + 1
    }
}

/// `groups` is the least number of groups that covers `n` items.
pub proof fn lemma_groups(n: int, size: int)
    requires
        n >= 0,
        size > 0,
    ensures
        groups(n, size) == n / size + (if n % size == 0 { 0int } else { 1int }),
        groups(n, size) * size >= n,
        groups(n, size) > 0 ==> (groups(n, size) - 1) * size < n,
        0 <= groups(n, size) <= n,
{
    let q = n / size;
    let rest = n % size;
    let g = q + (if rest == 0 { 0int } else { 1int });
    assert(n == size * q + rest && 0 <= rest < size) by {
        vstd::arithmetic::div_mod::lemma_fundamental_div_mod(n, size);
    }
    assert(0 <= q) by (nonlinear_arith)
        requires
            n == size * q + rest,
            rest < size,
            n >= 0,
            size > 0,
    ;
    assert(groups(n, size) == g) by {
        let left = n + size - 1 - g * size;
        assert(0 <= left < size) by (nonlinear_arith)
            requires
                n == size * q + rest,
                0 <= rest < size,
                g == q + (if rest == 0 { 0int } else { 1int }),
                left == n + size - 1 - g * size,
        ;
        vstd::arithmetic::div_mod::lemma_fundamental_div_mod_converse(
            n + size - 1,
            size,
            g,
            left,
        );
    }
    assert(g * size >= n && (g > 0 ==> (g - 1) * size < n) && g <= n) by (nonlinear_arith)
        requires
            n == size * q + rest,
            0 <= rest < size,
            0 <= q,
            n >= 0,
            g == q + (if rest == 0 { 0int } else { 1int }),
    ;
}

/// `n` is a power of two.
pub open spec fn is_power_of_two(n: int) -> bool {
    exists|k: nat| n == #[trigger] pow2(k)
}

/// The least power of two that is not below `n`.
pub open spec fn power_above(n: int) -> int
    decreases n,
{
    if n <= 1 {
        1
    } else {
        2 * power_above((n + 1) / 2)
    }
}

/// The exponent of the largest power of two that is not above `n`.
pub open spec fn exponent_below(n: int) -> int
    decreases n,
{
    if n <= 1 {
        0
    } else {
        1 + exponent_below(n / 2)
    }
}

/// `power_above` is the least power of two that is not below `n`, and stays below twice `n`.
pub proof fn lemma_power_above(n: int)
    requires
        n >= 1,
    ensures
        is_power_of_two(power_above(n)),
        n <= power_above(n) < 2 * n,
        forall|k: nat| #[trigger] pow2(k) >= n ==> power_above(n) <= pow2(k),
    decreases n,
{
    if n == 1 {
        lemma2_to64();
        assert(power_above(n) == pow2(0));
        assert forall|k: nat| #[trigger] pow2(k) >= n implies power_above(n) <= pow2(k) by {
            lemma_pow2_pos(k);
        }
    } else {
        let half = (n + 1) / 2;
        lemma_power_above(half);
        let j = choose|j: nat| power_above(half) == #[trigger] pow2(j);
        lemma_pow2_unfold((j + 1) as nat);
        assert(power_above(n) == pow2((j + 1) as nat));
        assert forall|k: nat| #[trigger] pow2(k) >= n implies power_above(n) <= pow2(k) by {
            if k == 0 {
                lemma2_to64();
            } else {
                lemma_pow2_unfold(k);
                assert(pow2((k - 1) as nat) >= half);
            }
        }
    }
}

/// A power of two that lies between `n` and twice `n` is `power_above(n)`.
proof fn lemma_power_above_unique(n: int, k: nat)
    requires
        n >= 1,
        n <= pow2(k) < 2 * n,
    ensures
        power_above(n) == pow2(k),
{
    lemma_power_above(n);
    let j = choose|j: nat| power_above(n) == #[trigger] pow2(j);
    if j < k {
        lemma_pow2_unfold(k);
        if j + 1 < k {
            lemma_pow2_strictly_increases(j, (k - 1) as nat);
        }
    } else if k < j {
        lemma_pow2_strictly_increases(k, j);
    }
}

/// `exponent_below` brackets `n` between two neighbouring powers of two.
pub proof fn lemma_exponent_below(n: int)
    requires
        n >= 1,
    ensures
        0 <= exponent_below(n) < n,
        pow2(exponent_below(n) as nat) <= n < pow2((exponent_below(n) + 1) as nat),
    decreases n,
{
    if n == 1 {
        lemma2_to64();
    } else {
        lemma_exponent_below(n / 2);
        lemma_pow2_unfold(exponent_below(n) as nat);
        lemma_pow2_unfold((exponent_below(n) + 1) as nat);
    }
}

/// The exponent that brackets `n` is `exponent_below(n)`.
proof fn lemma_exponent_below_unique(n: int, k: nat)
    requires
        n >= 1,
        pow2(k) <= n < pow2((k + 1) as nat),
    ensures
        exponent_below(n) == k,
{
    lemma_exponent_below(n);
    let j = exponent_below(n) as nat;
    if j < k {
        if j + 1 < k {
            lemma_pow2_strictly_increases((j + 1) as nat, k);
        }
    } else if k < j {
        if k + 1 < j {
            lemma_pow2_strictly_increases((k + 1) as nat, j);
        }
    }
}

/// A power of two is two to its `exponent_below`.
pub proof fn lemma_power_of_two_exponent(n: int)
    requires
        is_power_of_two(n),
    ensures
        n >= 1,
        n == pow2(exponent_below(n) as nat),
{
    let k = choose|k: nat| n == #[trigger] pow2(k);
    lemma_pow2_pos(k);
    lemma_pow2_unfold((k + 1) as nat);
    lemma_exponent_below_unique(n, k);
}

/// The least power of two that is not below `n`, for `n` from 1 to two to the 31st.
pub fn next_pow2(n: u32) -> (r: u32)
    requires
        1 <= n <= 0x8000_0000,
    ensures
        r == power_above(n as int),
{
    let below: u32 = n - 1;
    let zeros: u32 = below.leading_zeros();
    proof {
        vstd::std_specs::bits::axiom_u32_leading_zeros(below);
        if zeros == 0 {
            assert(below < 0x8000_0000 ==> (below >> 31u32) & 1u32 == 0u32) by (bit_vector);
        }
    }
    let bits: u32 = 32 - zeros;
    let r: u32 = 1u32 << bits;
    proof {
        vstd::bits::lemma_u32_pow2_no_overflow(bits as nat);
        vstd::bits::lemma_u32_shl_is_mul(1u32, bits);
        assert(bits < 32 && below >> bits == 0 ==> below < (1u32 << bits)) by (bit_vector);
        if n == 1 {
            lemma2_to64();
        } else {
            let top: u32 = (bits - 1) as u32;
            assert(top < 31 && (below >> top) & 1u32 != 0u32 ==> below >= (1u32 << top))
                by (bit_vector);
            vstd::bits::lemma_u32_pow2_no_overflow(top as nat);
            vstd::bits::lemma_u32_shl_is_mul(1u32, top);
            lemma_pow2_unfold(bits as nat);
        }
        lemma_power_above_unique(n as int, bits as nat);
    }
    r
}

/// The exponent of the largest power of two that is not above `n`.
pub fn log2(n: u32) -> (r: u32)
    requires
        n > 0,
    ensures
        r == exponent_below(n as int),
{
    let zeros: u32 = n.leading_zeros();
    proof {
        vstd::std_specs::bits::axiom_u32_leading_zeros(n);
    }
    let r: u32 = 31 - zeros;
    proof {
        assert(r < 32 && (n >> r) & 1u32 != 0u32 ==> n >= (1u32 << r)) by (bit_vector);
        vstd::bits::lemma_u32_pow2_no_overflow(r as nat);
        vstd::bits::lemma_u32_shl_is_mul(1u32, r);
        lemma_pow2_unfold((r + 1) as nat);
        if r == 31 {
            lemma2_to64();
        } else {
            let over: u32 = (r + 1) as u32;
            assert(over < 32 && n >> over == 0 ==> n < (1u32 << over)) by (bit_vector);
            vstd::bits::lemma_u32_pow2_no_overflow(over as nat);
            vstd::bits::lemma_u32_shl_is_mul(1u32, over);
        }
        lemma_exponent_below_unique(n as int, r as nat);
    }
    r
}

} // verus!
