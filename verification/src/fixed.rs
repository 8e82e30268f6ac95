//! Fixed-point blending: moving a value part of the way to a goal.

use vstd::prelude::*;

verus! {

/// How far a value `distance` away from its goal moves under a blend of
/// `numer / denom`: that share of the distance, rounded down, and never past
/// the goal.
pub open spec fn blend_step(distance: nat, numer: nat, denom: nat) -> nat
    recommends
        denom > 0,
{
    let share = distance * numer / denom;
    if share > distance {
        distance
    } else {
        share
    }
}

/// Where `current` stands after moving toward `goal` under a blend of
/// `numer / denom`.
pub open spec fn approached(current: int, goal: int, numer: nat, denom: nat) -> int
    recommends
        denom > 0,
{
    if goal >= current {
        current + blend_step((goal - current) as nat, numer, denom)
    } else {
        current - blend_step((current - goal) as nat, numer, denom)
    }
}

/// A blend of one or more reaches the goal, a blend below one stays short of
/// passing it, and no blend moves away from it.
pub proof fn lemma_blend_step_bounds(distance: nat, numer: nat, denom: nat)
    requires
        denom > 0,
    ensures
        blend_step(distance, numer, denom) <= distance,
        numer >= denom ==> blend_step(distance, numer, denom) == distance,
        numer <= denom ==> blend_step(distance, numer, denom) == distance * numer / denom,
{
    let d = denom as int;
    if numer >= denom {
        assert(distance * numer >= distance * denom) by (nonlinear_arith)
            requires
                numer >= denom,
        ;
        vstd::arithmetic::div_mod::lemma_div_is_ordered(
            (distance * denom) as int,
            (distance * numer) as int,
            d,
        );
        vstd::arithmetic::div_mod::lemma_div_multiples_vanish(distance as int, d);
        assert(distance * denom == d * distance) by (nonlinear_arith)
            requires
                d == denom,
        ;
    }
    if numer <= denom {
        assert(distance * numer <= distance * denom) by (nonlinear_arith)
            requires
                numer <= denom,
        ;
        vstd::arithmetic::div_mod::lemma_div_is_ordered(
            (distance * numer) as int,
            (distance * denom) as int,
            d,
        );
        vstd::arithmetic::div_mod::lemma_div_multiples_vanish(distance as int, d);
        assert(distance * denom == d * distance) by (nonlinear_arith)
            requires
                d == denom,
        ;
    }
}

/// Computes [`blend_step`].
pub fn blend(distance: u64, numer: u64, denom: u64) -> (r: u64)
    requires
        denom > 0,
    ensures
        r == blend_step(distance as nat, numer as nat, denom as nat),
        r <= distance,
    no_unwind
{
    proof {
        lemma_blend_step_bounds(distance as nat, numer as nat, denom as nat);
    }
    if numer >= denom {
        distance
    } else {
        assert(0 <= distance * numer <= 0xffff_ffff_ffff_ffff * 0xffff_ffff_ffff_ffff)
            by (nonlinear_arith)
            requires
                0 <= distance <= 0xffff_ffff_ffff_ffff,
                0 <= numer <= 0xffff_ffff_ffff_ffff,
        ;
        let share: u128 = (distance as u128) * (numer as u128) / (denom as u128);
        share as u64
    }
}

/// Moves `current` toward `goal` under a blend of `numer / denom`.
pub fn approach(current: i64, goal: i64, numer: u64, denom: u64) -> (r: i64)
    requires
        denom > 0,
    ensures
        r == approached(current as int, goal as int, numer as nat, denom as nat),
        current <= goal ==> current <= r <= goal,
        goal <= current ==> goal <= r <= current,
    no_unwind
{
    if goal >= current {
        let distance: u64 = (goal as i128 - current as i128) as u64;
        let step: u64 = blend(distance, numer, denom);
        (current as i128 + step as i128) as i64
    } else {
        let distance: u64 = (current as i128 - goal as i128) as u64;
        let step: u64 = blend(distance, numer, denom);
        (current as i128 - step as i128) as i64
    }
}

} // verus!
