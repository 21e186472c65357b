//! KEY2 register seeds: the seed bytes read as a number, bit-reversed.
use vstd::prelude::*;

verus! {

/// Two to the power `n`.
pub open spec fn p2(n: nat) -> nat
    decreases n,
{
    if n == 0 { 1 } else { 2 * p2((n - 1) as nat) }
}

/// `x` shifted right by `n` bits.
pub open spec fn shr(x: nat, n: nat) -> nat
    decreases n,
{
    if n == 0 { x } else { shr(x, (n - 1) as nat) / 2 }
}

/// The lowest `n` bits of `x` in reverse order.
pub open spec fn rev_low(x: nat, n: nat) -> nat
    decreases n,
{
    if n == 0 { 0 } else { 2 * rev_low(x, (n - 1) as nat) + shr(x, (n - 1) as nat) % 2 }
}

/// The little-endian number that eight bytes hold.
pub open spec fn le64(b: Seq<u8>) -> nat {
    (b[0] + b[1] * 0x100 + b[2] * 0x1_0000 + b[3] * 0x100_0000 + b[4] * 0x1_0000_0000 + b[5]
        * 0x100_0000_0000 + b[6] * 0x1_0000_0000_0000 + b[7] * 0x100_0000_0000_0000) as nat
}

/// A KEY2 register from its seed: the 64-bit little-endian seed with its
/// bits reversed, shifted down by 25, that is, its lowest 39 bits in
/// reverse order.
pub open spec fn key2_from_seed(seed: Seq<u8>) -> nat {
    rev_low(le64(seed), 39)
}

proof fn lemma_p2_bound(n: nat)
    requires
        n <= 39,
    ensures
        p2(n) <= p2(39),
    decreases 39 - n,
{
    if n < 39 {
        lemma_p2_bound(n + 1);
    }
}

proof fn lemma_p2_39()
    ensures
        p2(39) == 0x80_0000_0000,
{
    reveal_with_fuel(p2, 40);
}

/// The KEY2 register for a seed.
pub fn key2_seed(seed: &[u8; 8]) -> (r: u64)
    ensures
        r == key2_from_seed(seed@),
{
    let x: u64 = (seed[0] as u64) + (seed[1] as u64) * 0x100 + (seed[2] as u64) * 0x1_0000 + (seed[3] as u64)
        * 0x100_0000 + (seed[4] as u64) * 0x1_0000_0000 + (seed[5] as u64) * 0x100_0000_0000 + (seed[6] as u64)
        * 0x1_0000_0000_0000 + (seed[7] as u64) * 0x100_0000_0000_0000;
    let mut y = x;
    let mut r: u64 = 0;
    let mut n: u64 = 0;
    proof {
        lemma_p2_39();
    }
    while n < 39
        invariant
            n <= 39,
            x == le64(seed@),
            y == shr(x as nat, n as nat),
            r == rev_low(x as nat, n as nat),
            r < p2(n as nat),
            p2(39) == 0x80_0000_0000,
        decreases 39 - n,
    {
        proof {
            lemma_p2_bound(n as nat);
        }
        r = r * 2 + y % 2;
        y = y / 2;
        n = n + 1;
    }
    r
}

} // verus!
