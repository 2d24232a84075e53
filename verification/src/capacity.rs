//! The amortized capacity-growth policy.
//!
//! When an update needs more room than the current device allocation
//! provides, the next capacity is found by doubling: starting from the
//! current capacity (or from 2 when the vector is empty), the candidate is
//! doubled until it reaches the required element count.  Doubling amortizes
//! the cost of device reallocation over a growing sequence of updates.

use vstd::arithmetic::power2::pow2;
use vstd::prelude::*;

verus! {

/// The seed of the doubling sequence: the current capacity, or 2 when the
/// vector has no allocation worth keeping.
pub open spec fn growth_start(current: nat) -> nat {
    if current == 0 {
        2
    } else {
        current
    }
}

/// The first value reached from `cap` by repeated doubling that is at least
/// `required`.
pub open spec fn doubled_until(cap: nat, required: nat) -> nat
    decreases (if cap < required {
        required - cap
    } else {
        0
    }) when 1 <= cap
{
    if cap >= required {
        cap
    } else {
        doubled_until(2 * cap, required)
    }
}

/// The capacity an update must grow to, or `None` when the current
/// allocation is already large enough and is reused as-is.
pub open spec fn planned_capacity(current: nat, required: nat) -> Option<nat> {
    if current >= required {
        None
    } else {
        Some(doubled_until(growth_start(current), required))
    }
}

/// The capacity held after an update against a `current`-sized allocation
/// that must store `required` elements: the planned capacity when growth is
/// needed, the unchanged current capacity otherwise.
pub open spec fn capacity_after_update(current: nat, required: nat) -> nat {
    match planned_capacity(current, required) {
        Some(grown) => grown,
        None => current,
    }
}

/// Computes the next buffer capacity for a buffer that currently holds
/// `current_capacity` elements and must hold `required_capacity` elements,
/// or `None` when no growth is needed.
pub fn new_capacity_amortized(current_capacity: usize, required_capacity: usize) -> (planned:
    Option<usize>)
    requires
        current_capacity >= required_capacity || required_capacity <= usize::MAX / 2 + 1,
    ensures
        (planned is None) <==> current_capacity >= required_capacity,
        (match planned {
            Some(c) => planned_capacity(current_capacity as nat, required_capacity as nat) == Some(
                c as nat,
            ),
            None => planned_capacity(current_capacity as nat, required_capacity as nat) is None,
        }),
{
    if current_capacity < required_capacity {
        let mut new_capacity: usize = current_capacity;

        if new_capacity == 0 {
            new_capacity = 2;
        }

        while new_capacity < required_capacity
            invariant
                1 <= new_capacity,
                required_capacity <= usize::MAX / 2 + 1,
                doubled_until(new_capacity as nat, required_capacity as nat) == doubled_until(
                    growth_start(current_capacity as nat),
                    required_capacity as nat,
                ),
            decreases (if new_capacity < required_capacity {
                required_capacity - new_capacity
            } else {
                0
            }),
        {
            new_capacity = new_capacity * 2;
        }

        Some(new_capacity)
    } else {
        None
    }
}

/// The grown capacity is sufficient for the required element count and
/// never smaller than the capacity the doubling started from.
pub proof fn lemma_doubled_until_bounds(cap: nat, required: nat)
    requires
        1 <= cap,
    ensures
        doubled_until(cap, required) >= required,
        doubled_until(cap, required) >= cap,
    decreases (if cap < required {
        required - cap
    } else {
        0
    }),
{
    if cap < required {
        lemma_doubled_until_bounds(2 * cap, required);
    }
}

/// The grown capacity is an element of the doubling sequence seeded at
/// `cap`: it equals `cap` times a power of two.
pub proof fn lemma_doubled_until_is_doubling(cap: nat, required: nat)
    requires
        1 <= cap,
    ensures
        exists|k: nat| doubled_until(cap, required) == cap * pow2(k),
    decreases (if cap < required {
        required - cap
    } else {
        0
    }),
{
    if cap >= required {
        assert(pow2(0) == 1) by {
            vstd::arithmetic::power2::lemma2_to64();
        }
        assert(doubled_until(cap, required) == cap * pow2(0));
    } else {
        lemma_doubled_until_is_doubling(2 * cap, required);
        let k = choose|k: nat| doubled_until(2 * cap, required) == (2 * cap) * pow2(k);
        assert(pow2(k + 1) == 2 * pow2(k)) by {
            vstd::arithmetic::power2::lemma_pow2_unfold(k + 1);
        }
        assert((2 * cap) * pow2(k) == cap * (2 * pow2(k))) by (nonlinear_arith);
        assert(doubled_until(cap, required) == cap * pow2(k + 1));
    }
}

/// Minimality of the grown capacity: no smaller element of the doubling
/// sequence seeded at `cap` already reaches `required`.
pub proof fn lemma_doubled_until_minimal(cap: nat, required: nat, k: nat)
    requires
        1 <= cap,
        cap * pow2(k) >= required,
    ensures
        doubled_until(cap, required) <= cap * pow2(k),
    decreases (if cap < required {
        required - cap
    } else {
        0
    }),
{
    if cap >= required {
        assert(pow2(k) >= 1) by {
            vstd::arithmetic::power2::lemma_pow2_pos(k);
        }
        assert(cap * pow2(k) >= cap * 1) by (nonlinear_arith)
            requires
                pow2(k) >= 1,
                cap >= 1,
        ;
    } else {
        if k == 0 {
            assert(pow2(0) == 1) by {
                vstd::arithmetic::power2::lemma2_to64();
            }
            assert(false);
        } else {
            assert(pow2(k) == 2 * pow2((k - 1) as nat)) by {
                vstd::arithmetic::power2::lemma_pow2_unfold(k);
            }
            assert(cap * pow2(k) == (2 * cap) * pow2((k - 1) as nat)) by (nonlinear_arith)
                requires
                    pow2(k) == 2 * pow2((k - 1) as nat),
            ;
            lemma_doubled_until_minimal(2 * cap, required, (k - 1) as nat);
        }
    }
}

/// The growth policy in one statement: when growth is needed, the planned
/// capacity is the smallest element of the doubling sequence seeded at the
/// growth start that reaches the required count.
pub proof fn lemma_planned_capacity_properties(current: nat, required: nat)
    requires
        current < required,
    ensures
        planned_capacity(current, required) == Some(
            doubled_until(growth_start(current), required),
        ),
        doubled_until(growth_start(current), required) >= required,
        exists|k: nat| doubled_until(growth_start(current), required) == growth_start(current)
            * pow2(k),
        forall|k: nat|
            growth_start(current) * pow2(k) >= required ==> doubled_until(
                growth_start(current),
                required,
            ) <= growth_start(current) * pow2(k),
{
    lemma_doubled_until_bounds(growth_start(current), required);
    lemma_doubled_until_is_doubling(growth_start(current), required);
    assert forall|k: nat| growth_start(current) * pow2(k) >= required implies doubled_until(
        growth_start(current),
        required,
    ) <= growth_start(current) * pow2(k) by {
        lemma_doubled_until_minimal(growth_start(current), required, k);
    }
}

/// Updating twice with data of one length is idempotent for capacity: the
/// capacity chosen by the first update is already sufficient, so the second
/// update plans no growth and the capacity stays fixed.
pub proof fn lemma_update_idempotent(current: nat, required: nat)
    ensures
        capacity_after_update(current, required) >= required,
        planned_capacity(capacity_after_update(current, required), required) is None,
        capacity_after_update(capacity_after_update(current, required), required)
            == capacity_after_update(current, required),
{
    if current < required {
        lemma_doubled_until_bounds(growth_start(current), required);
    }
}

/// Capacity never shrinks: an update keeps the current capacity or grows it.
pub proof fn lemma_capacity_never_shrinks(current: nat, required: nat)
    ensures
        capacity_after_update(current, required) >= current,
{
    if current < required {
        lemma_doubled_until_bounds(growth_start(current), required);
    }
}

} // verus!
