//! Tick arithmetic on the host's 64-bit tick counter, which wraps around.

use vstd::prelude::*;

verus! {

/// Number of distinct tick values: the counter runs modulo this range.
pub open spec fn tick_range() -> int {
    0x1_0000_0000_0000_0000
}

/// The forward distance from tick `last` to tick `now`, going round the
/// counter's range when `now` is behind `last`.
pub open spec fn tick_distance(now: u64, last: u64) -> int {
    if now >= last {
        now - last
    } else {
        (tick_range() - last) + now
    }
}

/// Whether tick `a` is at or after tick `b`, under the usual convention for
/// wrapping counters: `a` lies less than half the range ahead of `b`.
pub open spec fn is_after_eq(a: u64, b: u64) -> bool {
    tick_distance(a, b) < tick_range() / 2
}

/// Ticks elapsed from `last` to `now`, with wraparound: when the plain
/// subtraction underflows, the counter's full range is added back.
pub fn elapsed(now: u64, last: u64) -> (r: u64)
    ensures
        r == tick_distance(now, last),
{
    if now >= last {
        now - last
    } else {
        let r: u64 = (u64::MAX - last) + now + 1;
        r
    }
}

/// The tick `d` ticks after `now`, going round the counter's range.
pub open spec fn tick_add(now: u64, d: u64) -> int {
    (now + d) % tick_range()
}

/// The tick `d` ticks after `now`, with wraparound.
pub fn advance(now: u64, d: u64) -> (r: u64)
    ensures
        r == tick_add(now, d),
{
    if d <= u64::MAX - now {
        proof {
            vstd::arithmetic::div_mod::lemma_small_mod((now + d) as nat, tick_range() as nat);
        }
        now + d
    } else {
        let r: u64 = d - (u64::MAX - now) - 1;
        proof {
            let s: int = now + d;
            vstd::arithmetic::div_mod::lemma_mod_sub_multiples_vanish(s, tick_range());
            vstd::arithmetic::div_mod::lemma_small_mod((s - tick_range()) as nat, tick_range() as nat);
        }
        r
    }
}

/// Whether tick `a` is at or after tick `b` on the wrapping counter.
pub fn time_after_eq(a: u64, b: u64) -> (r: bool)
    ensures
        r == is_after_eq(a, b),
{
    elapsed(a, b) < 0x8000_0000_0000_0000
}

/// The elapsed count is the true modular distance, in both branches: it lies
/// in the counter's range and differs from `now - last` by a whole number of
/// ranges.
pub proof fn lemma_elapsed_is_modular_distance(now: u64, last: u64)
    ensures
        0 <= tick_distance(now, last) < tick_range(),
        tick_distance(now, last) == (now - last) % tick_range(),
        now < last ==> tick_distance(now, last) == (tick_range() - last) + now,
        now >= last ==> tick_distance(now, last) == now - last,
{
    let d = now - last;
    if now >= last {
        vstd::arithmetic::div_mod::lemma_small_mod(d as nat, tick_range() as nat);
    } else {
        vstd::arithmetic::div_mod::lemma_mod_add_multiples_vanish(d, tick_range());
        vstd::arithmetic::div_mod::lemma_small_mod((d + tick_range()) as nat, tick_range() as nat);
    }
}

} // verus!
