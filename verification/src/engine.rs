//! The mutation engine.
//!
//! `mutate` transforms a byte buffer over a number of iterations.  Each
//! iteration walks the buffer in index order; for every byte it flips a
//! weighted coin and, on success, replaces the byte with a freshly
//! drawn one.  After every `GROW_INTERVAL`-th iteration the buffer
//! grows by `GROW_AMOUNT` freshly drawn bytes.  The whole run is
//! pinned, draw by draw, to the spec-level model `spec_run`, so the
//! result is a pure function of the initial buffer, the seed and the
//! iteration count.

use vstd::prelude::*;
use vstd::arithmetic::div_mod::lemma_fundamental_div_mod;
use vstd::arithmetic::div_mod::lemma_fundamental_div_mod_converse;
use crate::prng::Prng;
use crate::prng::byte_at;
use crate::prng::coin_at;

verus! {

/// Weight of the per-byte mutation coin: a byte is replaced with
/// probability `MUT_NUM` in `MUT_DEN`.
pub const MUT_NUM: u32 = 13;

/// Denominator of the per-byte mutation coin.
pub const MUT_DEN: u32 = 100;

/// Every `GROW_INTERVAL`-th iteration ends with a growth step.
pub const GROW_INTERVAL: usize = 500;

/// Number of bytes a growth step appends.
pub const GROW_AMOUNT: usize = 10;

/// One position of the per-byte pass: the coin is flipped at history
/// `h`; on success a replacement byte for position `j` is drawn next.
pub open spec fn spec_byte_step(seed: u64, buf: Seq<u8>, h: Seq<bool>, j: int) -> (Seq<u8>, Seq<bool>) {
    let h1 = h.push(true);
    if coin_at(seed, h, MUT_NUM, MUT_DEN) {
        (buf.update(j, byte_at(seed, h1)), h1.push(false))
    } else {
        (buf, h1)
    }
}

/// The per-byte pass over positions `0 .. j` of the buffer, in index
/// order.
pub open spec fn spec_pass(seed: u64, buf: Seq<u8>, h: Seq<bool>, j: nat) -> (Seq<u8>, Seq<bool>)
    decreases j,
{
    if j == 0 {
        (buf, h)
    } else {
        let prev = spec_pass(seed, buf, h, (j - 1) as nat);
        spec_byte_step(seed, prev.0, prev.1, j - 1)
    }
}

/// The growth step: `m` bytes drawn and appended in order.
pub open spec fn spec_grow(seed: u64, buf: Seq<u8>, h: Seq<bool>, m: nat) -> (Seq<u8>, Seq<bool>)
    decreases m,
{
    if m == 0 {
        (buf, h)
    } else {
        let prev = spec_grow(seed, buf, h, (m - 1) as nat);
        (prev.0.push(byte_at(seed, prev.1)), prev.1.push(false))
    }
}

/// One whole iteration with 0-based index `i`: the per-byte pass over
/// the current buffer, then, when `i + 1` is a multiple of
/// `GROW_INTERVAL`, the growth step.
pub open spec fn spec_iter(seed: u64, buf: Seq<u8>, h: Seq<bool>, i: nat) -> (Seq<u8>, Seq<bool>) {
    let passed = spec_pass(seed, buf, h, buf.len());
    if (i + 1) % (GROW_INTERVAL as nat) == 0 {
        spec_grow(seed, passed.0, passed.1, GROW_AMOUNT as nat)
    } else {
        passed
    }
}

/// The engine's state after the first `n` iterations: the buffer and
/// the history of draws made so far.
pub open spec fn spec_run(initial: Seq<u8>, seed: u64, n: nat) -> (Seq<u8>, Seq<bool>)
    decreases n,
{
    if n == 0 {
        (initial, Seq::<bool>::empty())
    } else {
        let prev = spec_run(initial, seed, (n - 1) as nat);
        spec_iter(seed, prev.0, prev.1, (n - 1) as nat)
    }
}

/// The buffer `mutate` returns: the engine's buffer after `n`
/// iterations.
pub open spec fn mutate_spec(initial: Seq<u8>, seed: u64, n: nat) -> Seq<u8> {
    spec_run(initial, seed, n).0
}

/// Deterministically mutates `initial` for `iterations` rounds with a
/// generator seeded from `seed`, growing the buffer by `GROW_AMOUNT`
/// bytes after every `GROW_INTERVAL`-th round.
pub fn mutate(initial: Vec<u8>, seed: u64, iterations: usize) -> (r: Vec<u8>)
    ensures
        r@ == mutate_spec(initial@, seed, iterations as nat),
{
    let ghost init: Seq<u8> = initial@;
    let mut buf = initial;
    let mut p = Prng::new(seed);
    let mut i: usize = 0;
    while i < iterations
        invariant
            i <= iterations,
            p.seed() == seed,
            (buf@, p.history()) == spec_run(init, seed, i as nat),
        decreases iterations - i,
    {
        let ghost buf0 = buf@;
        let ghost h0 = p.history();
        let len = buf.len();
        let mut j: usize = 0;
        while j < len
            invariant
                j <= len,
                len == buf0.len(),
                p.seed() == seed,
                (buf@, p.history()) == spec_pass(seed, buf0, h0, j as nat),
                buf@.len() == len,
            decreases len - j,
        {
            if p.coin(MUT_NUM, MUT_DEN) {
                let v = p.byte();
                buf[j] = v;
            }
            j = j + 1;
        }
        if (i + 1) % GROW_INTERVAL == 0 {
            let ghost bufp = buf@;
            let ghost hp = p.history();
            let mut m: usize = 0;
            while m < GROW_AMOUNT
                invariant
                    m <= GROW_AMOUNT,
                    p.seed() == seed,
                    (buf@, p.history()) == spec_grow(seed, bufp, hp, m as nat),
                decreases GROW_AMOUNT - m,
            {
                let v = p.byte();
                buf.push(v);
                m = m + 1;
            }
        }
        i = i + 1;
    }
    buf
}

/// The per-byte pass never changes the buffer's length.
pub proof fn lemma_pass_len(seed: u64, buf: Seq<u8>, h: Seq<bool>, j: nat)
    requires
        j <= buf.len(),
    ensures
        spec_pass(seed, buf, h, j).0.len() == buf.len(),
    decreases j,
{
    if j != 0 {
        lemma_pass_len(seed, buf, h, (j - 1) as nat);
    }
}

/// The growth step appends exactly `m` bytes.
pub proof fn lemma_grow_len(seed: u64, buf: Seq<u8>, h: Seq<bool>, m: nat)
    ensures
        spec_grow(seed, buf, h, m).0.len() == buf.len() + m,
    decreases m,
{
    if m != 0 {
        lemma_grow_len(seed, buf, h, (m - 1) as nat);
    }
}

/// Growth law: after `n` iterations the buffer's length is the initial
/// length plus `GROW_AMOUNT` for every completed block of
/// `GROW_INTERVAL` iterations.
pub proof fn lemma_growth_law(initial: Seq<u8>, seed: u64, n: nat)
    ensures
        mutate_spec(initial, seed, n).len()
            == initial.len() + (GROW_AMOUNT as nat) * (n / (GROW_INTERVAL as nat)),
    decreases n,
{
    let d = GROW_INTERVAL as int;
    if n == 0 {
        assert(0int / d == 0) by {
            lemma_fundamental_div_mod_converse(0, d, 0, 0);
        }
    } else {
        lemma_growth_law(initial, seed, (n - 1) as nat);
        let prev = spec_run(initial, seed, (n - 1) as nat);
        lemma_pass_len(seed, prev.0, prev.1, prev.0.len());
        let passed = spec_pass(seed, prev.0, prev.1, prev.0.len());
        lemma_fundamental_div_mod(n as int, d);
        if (n as int) % d == 0 {
            lemma_grow_len(seed, passed.0, passed.1, GROW_AMOUNT as nat);
            assert((n - 1) / d == n as int / d - 1) by {
                lemma_fundamental_div_mod_converse(n - 1, d, n as int / d - 1, d - 1);
            }
        } else {
            assert((n - 1) / d == n as int / d) by {
                lemma_fundamental_div_mod_converse(n - 1, d, n as int / d, (n as int) % d - 1);
            }
        }
    }
}

/// Zero-iteration identity: a run of no iterations returns the initial
/// buffer unchanged.
pub proof fn lemma_zero_iterations(initial: Seq<u8>, seed: u64)
    ensures
        mutate_spec(initial, seed, 0) == initial,
{
}

/// Determinism: two runs on identical inputs yield identical buffers.
pub proof fn lemma_deterministic(
    initial1: Seq<u8>,
    seed1: u64,
    n1: nat,
    initial2: Seq<u8>,
    seed2: u64,
    n2: nat,
)
    requires
        initial1 == initial2,
        seed1 == seed2,
        n1 == n2,
    ensures
        mutate_spec(initial1, seed1, n1) == mutate_spec(initial2, seed2, n2),
{
}

} // verus!
