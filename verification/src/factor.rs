//! Unroll factors fixed at compile time, as zero-sized types.

use vstd::prelude::*;
use crate::action::{Action, SlotAction};
use crate::unroll::{full_indices, partial_pairs};

verus! {

/// A compile-time trip count: a zero-sized type standing for one
/// non-negative integer, the unroll factor.
///
/// The two provided methods run the unrollers of [`crate::unroll`] with
/// that factor, so a call site fixes the factor by naming a type, as in
/// `U4::full_unroll(&mut action)`.
pub trait Loop: Sized {
    /// The factor this type stands for.
    spec fn count() -> nat;

    /// The factor as a runtime value.
    fn to_usize() -> (n: usize)
        ensures
            n as nat == Self::count(),
    ;

    /// Invoke `action` once for every index in `0..Self::count()`, each
    /// exactly once, in ascending order.
    fn full_unroll<A: Action>(action: &mut A)
        requires
            forall|j: int| 0 <= j < Self::count() ==> old(action).accepts(j),
        ensures
            final(action).history() == old(action).history() + full_indices(Self::count()),
            forall|j: int| old(action).accepts(j) ==> final(action).accepts(j),
    {
        crate::unroll::full_unroll(Self::to_usize(), action);
    }

    /// Invoke `action` once for every index in `0..k`, each exactly once,
    /// in ascending order, pairing index `i` with slot `i % Self::count()`.
    ///
    /// The factor must be positive: it divides the count.
    fn partial_unroll<A: SlotAction>(k: usize, action: &mut A)
        requires
            Self::count() > 0,
            forall|i: int, s: int| 0 <= i < k && s == i % (Self::count() as int)
                ==> old(action).accepts(i, s),
        ensures
            final(action).history() == old(action).history()
                + partial_pairs(k as nat, Self::count()),
            forall|i: int, s: int| old(action).accepts(i, s) ==> final(action).accepts(i, s),
    {
        crate::unroll::partial_unroll(Self::to_usize(), k, action);
    }
}

/// The factor 0.
pub struct U0;

/// The factor 1.
pub struct U1;

/// The factor 2.
pub struct U2;

/// The factor 3.
pub struct U3;

/// The factor 4.
pub struct U4;

/// The factor 5.
pub struct U5;

/// The factor 6.
pub struct U6;

/// The factor 7.
pub struct U7;

/// The factor 8.
pub struct U8;

impl Loop for U0 {
    open spec fn count() -> nat {
        0
    }

    fn to_usize() -> (n: usize) {
        0
    }
}

impl Loop for U1 {
    open spec fn count() -> nat {
        1
    }

    fn to_usize() -> (n: usize) {
        1
    }
}

impl Loop for U2 {
    open spec fn count() -> nat {
        2
    }

    fn to_usize() -> (n: usize) {
        2
    }
}

impl Loop for U3 {
    open spec fn count() -> nat {
        3
    }

    fn to_usize() -> (n: usize) {
        3
    }
}

impl Loop for U4 {
    open spec fn count() -> nat {
        4
    }

    fn to_usize() -> (n: usize) {
        4
    }
}

impl Loop for U5 {
    open spec fn count() -> nat {
        5
    }

    fn to_usize() -> (n: usize) {
        5
    }
}

impl Loop for U6 {
    open spec fn count() -> nat {
        6
    }

    fn to_usize() -> (n: usize) {
        6
    }
}

impl Loop for U7 {
    open spec fn count() -> nat {
        7
    }

    fn to_usize() -> (n: usize) {
        7
    }
}

impl Loop for U8 {
    open spec fn count() -> nat {
        8
    }

    fn to_usize() -> (n: usize) {
        8
    }
}

} // verus!
