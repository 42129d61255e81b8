//! Fuel needed to launch a module of a given mass, with or without the fuel
//! that the fuel itself needs.

use vstd::prelude::*;

verus! {

/// A third of `mass`, rounded toward zero.
pub open spec fn third(mass: int) -> int {
    if mass >= 0 {
        mass / 3
    } else {
        -((-mass) / 3)
    }
}

/// The fuel for a module of mass `mass`: a third of the mass, less two.
pub open spec fn fuel_of(mass: int) -> int {
    third(mass) - 2
}

/// The fuel for a module of mass `mass` together with the fuel for that fuel,
/// and so on for as long as the additional amount is positive.
pub open spec fn total_fuel(mass: int) -> int
    decreases mass,
{
    let extra = fuel_of(mass);
    if extra > 0 {
        extra + total_fuel(extra)
    } else {
        0
    }
}

/// How many positive amounts `total_fuel(mass)` adds up.
pub open spec fn fuel_rounds(mass: int) -> nat
    decreases mass,
{
    let extra = fuel_of(mass);
    if extra > 0 {
        1 + fuel_rounds(extra)
    } else {
        0
    }
}

/// Three to the power `n`.
pub open spec fn pow3(n: nat) -> nat
    decreases n,
{
    if n == 0 {
        1
    } else {
        3 * pow3((n - 1) as nat)
    }
}

/// The total fuel is never negative, and for a mass that is not negative it
/// is at most half the mass.
pub proof fn lemma_total_fuel_bounds(mass: int)
    ensures
        0 <= total_fuel(mass),
        mass >= 0 ==> total_fuel(mass) <= mass / 2,
        mass < 9 ==> total_fuel(mass) == 0,
    decreases mass,
{
    let extra = fuel_of(mass);
    if extra > 0 {
        lemma_total_fuel_bounds(extra);
    }
}

/// The number of positive amounts that make up the total fuel is at most
/// the logarithm of the mass to base three: three to the power of that
/// number does not exceed the mass. Below a mass of nine there is none.
pub proof fn lemma_fuel_rounds_logarithmic(mass: int)
    ensures
        mass >= 1 ==> pow3(fuel_rounds(mass)) <= mass,
        mass < 9 ==> fuel_rounds(mass) == 0,
    decreases mass,
{
    let extra = fuel_of(mass);
    if extra > 0 {
        lemma_fuel_rounds_logarithmic(extra);
    }
}

/// Fuel for a module of mass `w`.
pub fn fuel(w: i64) -> (amount: i64)
    ensures
        amount == fuel_of(w as int),
{
    w / 3 - 2
}

/// Fuel for a module of mass `w` and for all the fuel that this fuel needs.
pub fn with_fuel(w: i64) -> (total: i64)
    ensures
        total == total_fuel(w as int),
        total >= 0,
{
    let mut total: i64 = 0;
    let mut extra: i64 = fuel(w);
    proof {
        lemma_total_fuel_bounds(w as int);
    }
    while extra > 0
        invariant
            0 <= total,
            total_fuel(w as int) <= i64::MAX,
            extra > 0 ==> total + extra + total_fuel(extra as int) == total_fuel(w as int),
            extra <= 0 ==> total == total_fuel(w as int),
        decreases extra + 2,
    {
        proof {
            lemma_total_fuel_bounds(extra as int);
        }
        total += extra;
        extra = fuel(extra);
    }
    total
}

} // verus!
