use vstd::prelude::*;

verus! {

/// The modulus of the Park-Miller-Lehmer generator, `2^31 - 1`.
pub const RAND_MAX: u64 = 2_147_483_647;

/// The multiplier of the generator.
pub const MULTIPLIER: u64 = 48271;

/// The state after one step of the generator.
pub open spec fn lehmer_next(s: u32) -> u32 {
    ((s as nat * MULTIPLIER as nat) % RAND_MAX as nat) as u32
}

/// The state after `n` steps from `s`.
pub open spec fn lehmer_iter(s: u32, n: nat) -> u32
    decreases n,
{
    if n == 0 {
        s
    } else {
        lehmer_next(lehmer_iter(s, (n - 1) as nat))
    }
}

/// The state a draw starts from: an unset (zero) state is first seeded from
/// the clock's milliseconds.
pub open spec fn seeded(seed: u32, now_millis: u32) -> u32 {
    if seed == 0 {
        now_millis
    } else {
        seed
    }
}

/// The first `n` states after `s`, each as a 32-bit digit, the earliest
/// most significant.
pub open spec fn digits(s: u32, n: nat) -> int
    decreases n,
{
    if n == 0 {
        0
    } else {
        digits(s, (n - 1) as nat) * 0x1_0000_0000 + lehmer_iter(s, n)
    }
}

/// `2^(32 n)`.
pub open spec fn digit_bound(n: nat) -> int
    decreases n,
{
    if n == 0 {
        1
    } else {
        digit_bound((n - 1) as nat) * 0x1_0000_0000
    }
}

/// The 128-bit value drawn from state `s`: the next four states as digits.
pub open spec fn random_of(s: u32) -> int {
    digits(s, 4)
}

/// Draws a 128-bit value: seeds the state from `now_millis` where it is
/// unset, steps the generator four times and packs the four states, the
/// first one highest. The state is left at the fourth.
pub fn random(seed: &mut u32, now_millis: u32) -> (r: u128)
    ensures
        *final(seed) == lehmer_iter(seeded(*old(seed), now_millis), 4),
        r == random_of(seeded(*old(seed), now_millis)),
{
    if *seed == 0 {
        *seed = now_millis;
    }
    let ghost start = *seed;
    let mut ret: u128 = 0;
    let mut i: usize = 0;
    while i < 4
        invariant
            i <= 4,
            *seed == lehmer_iter(start, i as nat),
            ret == digits(start, i as nat),
            0 <= ret < digit_bound(i as nat),
        decreases 4 - i,
    {
        let next: u64 = (*seed as u64 * MULTIPLIER) % RAND_MAX;
        *seed = next as u32;
        proof {
            reveal_with_fuel(digit_bound, 4);
            let b = digit_bound(i as nat);
            assert(ret * 0x1_0000_0000 + next < b * 0x1_0000_0000) by (nonlinear_arith)
                requires
                    0 <= ret < b,
                    next < 0x1_0000_0000,
            ;
            assert(digit_bound((i + 1) as nat) == b * 0x1_0000_0000);
            assert(digit_bound((i + 1) as nat) <= digit_bound(4));
        }
        ret = ret * 0x1_0000_0000 + next as u128;
        i = i + 1;
    }
    ret
}

/// Draws are reproducible: the same state and clock reading give the same
/// value and leave the same state.
pub proof fn lemma_random_reproducible(seed_a: u32, seed_b: u32, millis_a: u32, millis_b: u32)
    requires
        seeded(seed_a, millis_a) == seeded(seed_b, millis_b),
    ensures
        random_of(seeded(seed_a, millis_a)) == random_of(seeded(seed_b, millis_b)),
        lehmer_iter(seeded(seed_a, millis_a), 4) == lehmer_iter(seeded(seed_b, millis_b), 4),
{
}

/// The two 64-bit keys of a keyed hash, taken from one 128-bit draw.
#[derive(Clone, Copy, Debug, PartialEq, Eq, Structural)]
pub struct MyRandomState {
    pub k0: u64,
    pub k1: u64,
}

impl MyRandomState {
    /// The low half of `ran` becomes `k0` and the high half `k1`.
    pub fn from_random(ran: u128) -> (r: MyRandomState)
        ensures
            r.k0 == ran % 0x1_0000_0000_0000_0000,
            r.k1 == ran / 0x1_0000_0000_0000_0000,
    {
        let low = ran % 0x1_0000_0000_0000_0000;
        let high = ran / 0x1_0000_0000_0000_0000;
        MyRandomState { k0: low as u64, k1: high as u64 }
    }

    /// Keys from a fresh draw of the generator whose state is `seed`.
    pub fn new(seed: &mut u32, now_millis: u32) -> (r: MyRandomState)
        ensures
            *final(seed) == lehmer_iter(seeded(*old(seed), now_millis), 4),
            r.k0 == random_of(seeded(*old(seed), now_millis)) % 0x1_0000_0000_0000_0000,
            r.k1 == random_of(seeded(*old(seed), now_millis)) / 0x1_0000_0000_0000_0000,
    {
        let ran = random(seed, now_millis);
        MyRandomState::from_random(ran)
    }
}

} // verus!
