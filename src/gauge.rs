//! Proportional bar gauge: how many of a fixed number of slots a
//! `current / total` ratio fills.

use vstd::prelude::*;

verus! {

/// Smallest integer `q` with `q * b >= a`, for `a >= 0` and `b > 0`.
pub open spec fn ceil_div(a: int, b: int) -> int {
    (a + b - 1) / b
}

/// Filled slots of a gauge: `ceil(current * slots / total)`, clamped.
///
/// A non-positive width, total or current value fills nothing, and a current
/// value at or beyond the total fills every slot.
pub open spec fn filled_slots(slots: int, total: int, current: int) -> int {
    if slots <= 0 || total <= 0 || current <= 0 {
        0
    } else if current >= total {
        slots
    } else {
        ceil_div(current * slots, total)
    }
}

/// The pair `(filled, empty)` of a gauge `slots` wide.
pub open spec fn bar_slots_spec(slots: int, total: int, current: int) -> (int, int) {
    (filled_slots(slots, total, current), slots - filled_slots(slots, total, current))
}

/// Strictly between zero and the total, the ceiling lies in `1..=slots`.
proof fn lemma_ceil_within(slots: int, total: int, current: int)
    requires
        slots > 0,
        0 < current < total,
    ensures
        1 <= ceil_div(current * slots, total) <= slots,
{
    let x = current * slots + total - 1;
    let q = x / total;
    assert(current * slots <= (total - 1) * slots) by (nonlinear_arith)
        requires
            0 < current < total,
            slots > 0,
    ;
    assert(current * slots >= 1) by (nonlinear_arith)
        requires
            current >= 1,
            slots >= 1,
    ;
    vstd::arithmetic::div_mod::lemma_fundamental_div_mod(x, total);
    assert(q * total == total * q) by (nonlinear_arith);
    assert((total - 1) * slots == total * slots - slots) by (nonlinear_arith);
    assert((slots + 1) * total == total * slots + total) by (nonlinear_arith);
    assert((q + 1) * total == q * total + total) by (nonlinear_arith);
    assert(q <= slots) by (nonlinear_arith)
        requires
            q * total <= x,
            x < (slots + 1) * total,
            total > 0,
    ;
    assert(q >= 1) by (nonlinear_arith)
        requires
            x >= total,
            x < (q + 1) * total,
            total > 0,
    ;
}

/// The ceiling does not decrease as its numerator grows.
proof fn lemma_ceil_ordered(slots: int, total: int, c1: int, c2: int)
    requires
        slots > 0,
        total > 0,
        0 <= c1 <= c2,
    ensures
        ceil_div(c1 * slots, total) <= ceil_div(c2 * slots, total),
{
    assert(c1 * slots <= c2 * slots) by (nonlinear_arith)
        requires
            0 <= c1 <= c2,
            slots > 0,
    ;
    vstd::arithmetic::div_mod::lemma_div_is_ordered(
        c1 * slots + total - 1,
        c2 * slots + total - 1,
        total,
    );
}

/// For a positive width and total and `0 <= c1 <= c2 <= total`: the filled
/// part lies within the width, the two parts add up to the width, and the
/// filled part never decreases as the current value grows.
pub proof fn lemma_bar_slots_bounded_monotone(slots: int, total: int, c1: int, c2: int)
    requires
        slots > 0,
        total > 0,
        0 <= c1 <= c2 <= total,
    ensures
        bar_slots_spec(slots, total, c1).0 + bar_slots_spec(slots, total, c1).1 == slots,
        0 <= bar_slots_spec(slots, total, c1).0,
        bar_slots_spec(slots, total, c1).0 <= bar_slots_spec(slots, total, c2).0,
        bar_slots_spec(slots, total, c2).0 <= slots,
{
    if 0 < c1 && c1 < total {
        lemma_ceil_within(slots, total, c1);
    }
    if 0 < c2 && c2 < total {
        lemma_ceil_within(slots, total, c2);
    }
    if 0 < c1 && c2 < total {
        lemma_ceil_ordered(slots, total, c1, c2);
    }
}

/// When the gauge is as wide as the total, each point fills exactly one
/// slot: `(current, slots - current)` for `0 <= current <= slots`.
pub proof fn lemma_bar_slots_one_to_one(slots: int, current: int)
    requires
        slots > 0,
        0 <= current <= slots,
    ensures
        bar_slots_spec(slots, slots, current) == (current, slots - current),
{
    if 0 < current && current < slots {
        let x = current * slots + slots - 1;
        let q = x / slots;
        vstd::arithmetic::div_mod::lemma_fundamental_div_mod(x, slots);
        assert(q * slots == slots * q) by (nonlinear_arith);
        assert((q + 1) * slots == q * slots + slots) by (nonlinear_arith);
        assert((current + 1) * slots == current * slots + slots) by (nonlinear_arith);
        assert(q == current) by (nonlinear_arith)
            requires
                q * slots <= x,
                x < (q + 1) * slots,
                x == current * slots + slots - 1,
                slots > 0,
        ;
    }
}

/// Splits a gauge `slots` wide into `(filled, empty)` for `current` out of
/// `total`, rounding the filled part up: any positive `current` shows at
/// least one filled slot, and `current >= total` fills them all. A total of
/// zero or less shows an empty gauge.
pub fn bar_slots(slots: i32, total: i32, current: i32) -> (r: (i32, i32))
    ensures
        r.0 == bar_slots_spec(slots as int, total as int, current as int).0,
        r.1 == bar_slots_spec(slots as int, total as int, current as int).1,
        slots >= 0 ==> 0 <= r.0 <= slots,
{
    let filled: i32 = if slots <= 0 || total <= 0 || current <= 0 {
        0
    } else if current >= total {
        slots
    } else {
        proof {
            lemma_ceil_within(slots as int, total as int, current as int);
            assert(current * slots <= i32::MAX * i32::MAX) by (nonlinear_arith)
                requires
                    0 < current <= i32::MAX,
                    0 < slots <= i32::MAX,
            ;
        }
        let num: i64 = current as i64 * slots as i64 + total as i64 - 1;
        (num / total as i64) as i32
    };
    (filled, slots - filled)
}

} // verus!
