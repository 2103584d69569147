//! Pseudorandom generator for network protocol fields needing random values.
//!
//! This random value generator is based around the xoshiro128++ PRNG by David
//! Blackman and Sebastiano Vigna (public domain reference implementation at
//! https://prng.di.unimi.it/xoshiro128plusplus.c). Like the reference, all
//! additions wrap modulo 2^32.
use vstd::prelude::*;

verus! {

/// 32-bit rotate left by `k` (0 < k < 32).
pub open spec fn rotl(x: u32, k: u32) -> u32 {
    (x << k) | (x >> (32 - k) as u32)
}

/// 32-bit wrapping addition.
pub open spec fn wadd(a: u32, b: u32) -> u32 {
    ((a + b) % 0x1_0000_0000) as u32
}

/// The value xoshiro128++ outputs from state `s`.
pub open spec fn xoshiro_output(s: Seq<u32>) -> u32 {
    wadd(rotl(wadd(s[0], s[3]), 7), s[0])
}

/// The state xoshiro128++ moves to from state `s`.
pub open spec fn xoshiro_step(s: Seq<u32>) -> Seq<u32> {
    let t = s[1] << 9u32;
    let s2 = s[2] ^ s[0];
    let s3 = s[3] ^ s[1];
    let s1 = s[1] ^ s2;
    let s0 = s[0] ^ s3;
    seq![s0, s1, s2 ^ t, rotl(s3, 11)]
}

/// The state after `n` steps from `s`.
pub open spec fn xoshiro_steps(s: Seq<u32>, n: nat) -> Seq<u32>
    decreases n,
{
    if n == 0 {
        s
    } else {
        xoshiro_steps(xoshiro_step(s), (n - 1) as nat)
    }
}

/// The generator state that a 16-bit seed produces: consecutive seed pairs are
/// packed high half first.
pub open spec fn seed_state(seed: Seq<u16>) -> Seq<u32> {
    seq![
        (seed[0] * 0x1_0000 + seed[1]) as u32,
        (seed[2] * 0x1_0000 + seed[3]) as u32,
        (seed[4] * 0x1_0000 + seed[5]) as u32,
        (seed[6] * 0x1_0000 + seed[7]) as u32,
    ]
}

/// Number of warm-up steps the generator takes before its first outputs after a (re)seed.
pub open spec fn mix_min() -> nat {
    5
}

/// Warm-up steps that the generator takes before handing out a value, given the steps
/// taken since the last (re)seed: `mix_min()` right after a (re)seed
pub open spec fn warm_steps(count: int) -> nat {
    if count < mix_min() { mix_min() } else { 0 }
}

/// The value handed out by a generator in state `words` that took `count` steps
pub open spec fn step_output(words: Seq<u32>, count: int) -> u32 {
    xoshiro_output(xoshiro_steps(words, warm_steps(count)))
}

/// State words after handing out one value
pub open spec fn step_words(words: Seq<u32>, count: int) -> Seq<u32> {
    xoshiro_steps(words, warm_steps(count) + 1)
}

/// Step count after handing out one value (saturating)
pub open spec fn step_count(count: int) -> int {
    if count + warm_steps(count) + 1 > usize::MAX {
        usize::MAX as int
    } else {
        count + warm_steps(count) + 1
    }
}

/// The next `n` values handed out by a generator in state `words` that took `count` steps
pub open spec fn outputs_from(words: Seq<u32>, count: int, n: nat) -> Seq<u32>
    decreases n,
{
    if n == 0 {
        Seq::empty()
    } else {
        seq![step_output(words, count)] + outputs_from(
            step_words(words, count),
            step_count(count),
            (n - 1) as nat,
        )
    }
}

/// State words after handing out `n` values
pub open spec fn words_after(words: Seq<u32>, count: int, n: nat) -> Seq<u32>
    decreases n,
{
    if n == 0 {
        words
    } else {
        words_after(step_words(words, count), step_count(count), (n - 1) as nat)
    }
}

/// Step count after handing out `n` values
pub open spec fn count_after(count: int, n: nat) -> int
    decreases n,
{
    if n == 0 {
        count
    } else {
        count_after(step_count(count), (n - 1) as nat)
    }
}

/// Generate randomized network protocol values based on xoshiro128++ PRNG
#[derive(Copy, Clone)]
pub struct NetPrng {
    /// Number of generator steps taken since the last (re)seed, saturating
    pub count: usize,
    /// xoshiro128++ state words
    pub s: [u32; 4],
}

impl NetPrng {
    /// Initialize from a random seed
    pub fn new_from(seed: &[u16; 8]) -> (r: Self)
        ensures
            r.count == 0,
            r.s@ == seed_state(seed@),
    {
        let s0: u32 = (seed[0] as u32) * 0x1_0000 + seed[1] as u32;
        let s1: u32 = (seed[2] as u32) * 0x1_0000 + seed[3] as u32;
        let s2: u32 = (seed[4] as u32) * 0x1_0000 + seed[5] as u32;
        let s3: u32 = (seed[6] as u32) * 0x1_0000 + seed[7] as u32;
        let r = Self { count: 0, s: [s0, s1, s2, s3] };
        assert(r.s@ =~= seed_state(seed@));
        r
    }

    /// Reseed the PRNG
    pub fn reseed(&mut self, seed: &[u16; 8])
        ensures
            final(self).count == 0,
            final(self).s@ == seed_state(seed@),
    {
        *self = Self::new_from(seed);
    }

    /// The value that `next` hands out
    pub open spec fn next_output(&self) -> u32 {
        step_output(self.s@, self.count as int)
    }

    /// `new` is this generator after one call of `next`
    pub open spec fn advanced_to(&self, new: NetPrng) -> bool {
        &&& new.s@ == step_words(self.s@, self.count as int)
        &&& new.count == step_count(self.count as int)
    }

    /// Advance xoshiro128++ PRNG, first taking extra warm-up steps if the generator was
    /// reseeded less than `mix_min()` steps ago. The warm-up mixes the bits of a low
    /// entropy seed before values are handed out.
    pub fn next(&mut self) -> (r: u32)
        ensures
            r == old(self).next_output(),
            old(self).advanced_to(*final(self)),
    {
        let ghost s0 = self.s@;
        let ghost c0 = self.count;
        if self.count < 5 {
            let mut k: usize = 0;
            while k < 5
                invariant
                    k <= 5,
                    c0 < 5,
                    self.s@ == xoshiro_steps(s0, k as nat),
                    self.count == c0 + k,
                decreases 5 - k,
            {
                let _ = self.next_inner();
                proof {
                    lemma_steps_succ(s0, k as nat);
                }
                k = k + 1;
            }
        }
        let r = self.next_inner();
        proof {
            lemma_steps_succ(s0, warm_steps(c0 as int));
        }
        r
    }

    /// Advance xoshiro128++ PRNG by one step, returning its output.
    fn next_inner(&mut self) -> (r: u32)
        ensures
            r == xoshiro_output(old(self).s@),
            final(self).s@ == xoshiro_step(old(self).s@),
            final(self).count == (if old(self).count == usize::MAX {
                usize::MAX as int
            } else {
                old(self).count + 1
            }),
    {
        self.count = self.count.saturating_add(1);
        let a: u32 = self.s[0].wrapping_add(self.s[3]);
        let rot: u32 = (a << 7u32) | (a >> 25u32);
        let result: u32 = rot.wrapping_add(self.s[0]);
        let t: u32 = self.s[1] << 9u32;
        let n2: u32 = self.s[2] ^ self.s[0];
        let n3: u32 = self.s[3] ^ self.s[1];
        let n1: u32 = self.s[1] ^ n2;
        let n0: u32 = self.s[0] ^ n3;
        let n2b: u32 = n2 ^ t;
        let n3b: u32 = (n3 << 11u32) | (n3 >> 21u32);
        let ghost old_s = self.s@;
        self.s = [n0, n1, n2b, n3b];
        assert(self.s@ =~= xoshiro_step(old_s));
        result
    }
}

/// Taking one more step appends a step at the end of the sequence.
proof fn lemma_steps_succ(s: Seq<u32>, n: nat)
    ensures
        xoshiro_steps(s, n + 1) == xoshiro_step(xoshiro_steps(s, n)),
    decreases n,
{
    if n > 0 {
        lemma_steps_succ(xoshiro_step(s), (n - 1) as nat);
    } else {
        assert(xoshiro_steps(xoshiro_step(s), 0) == xoshiro_step(s));
    }
}

/// Steps compose: `a` steps and then `b` more are `a + b` steps.
proof fn lemma_steps_add(s: Seq<u32>, a: nat, b: nat)
    ensures
        xoshiro_steps(xoshiro_steps(s, a), b) == xoshiro_steps(s, a + b),
    decreases a,
{
    if a > 0 {
        lemma_steps_add(xoshiro_step(s), (a - 1) as nat, b);
    }
}

/// Once warmed up, the generator hands out the reference outputs one after another.
proof fn lemma_warm_outputs(w: Seq<u32>, c: int, n: nat)
    requires
        c >= mix_min(),
    ensures
        outputs_from(w, c, n).len() == n,
        forall|j: int| 0 <= j < n ==> #[trigger] outputs_from(w, c, n)[j] == xoshiro_output(xoshiro_steps(w, j as nat)),
    decreases n,
{
    if n > 0 {
        assert(step_words(w, c) == xoshiro_step(w)) by {
            assert(xoshiro_steps(xoshiro_step(w), 0) == xoshiro_step(w));
        }
        lemma_warm_outputs(xoshiro_step(w), step_count(c), (n - 1) as nat);
        assert forall|j: int| 0 <= j < n implies #[trigger] outputs_from(w, c, n)[j] == xoshiro_output(
            xoshiro_steps(w, j as nat),
        ) by {
            if j > 0 {
                assert(outputs_from(w, c, n)[j] == outputs_from(xoshiro_step(w), step_count(c), (n - 1) as nat)[j - 1]);
                assert(xoshiro_steps(w, j as nat) == xoshiro_steps(xoshiro_step(w), (j - 1) as nat));
            }
        }
    }
}

/// After a (re)seed with `seed`, the values that `next` hands out are those of the
/// reference xoshiro128++ generator started from `seed_state(seed)` (wrapping 32-bit
/// arithmetic), with the first `mix_min()` outputs skipped to mix a low-entropy seed:
/// call `j + 1` returns the reference output after `mix_min() + j` steps, for every `j`.
pub proof fn lemma_outputs_after_seed(seed: Seq<u16>, n: nat)
    ensures
        outputs_from(seed_state(seed), 0, n).len() == n,
        forall|j: int|
            0 <= j < n ==> #[trigger] outputs_from(seed_state(seed), 0, n)[j] == xoshiro_output(
                xoshiro_steps(seed_state(seed), mix_min() + j as nat),
            ),
{
    let s0 = seed_state(seed);
    if n > 0 {
        let w1 = step_words(s0, 0);
        assert(w1 == xoshiro_steps(s0, 6));
        lemma_warm_outputs(w1, step_count(0), (n - 1) as nat);
        assert forall|j: int| 0 <= j < n implies #[trigger] outputs_from(s0, 0, n)[j] == xoshiro_output(
            xoshiro_steps(s0, mix_min() + j as nat),
        ) by {
            if j > 0 {
                assert(outputs_from(s0, 0, n)[j] == outputs_from(w1, step_count(0), (n - 1) as nat)[j - 1]);
                lemma_steps_add(s0, 6, (j - 1) as nat);
            }
        }
    }
}

} // verus!
