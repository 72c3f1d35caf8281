//! The unroll engine and the partial unroller.

use vstd::prelude::*;
use vstd::arithmetic::div_mod::{
    lemma_fundamental_div_mod, lemma_mod_multiples_vanish, lemma_small_mod,
};
use crate::action::{Action, SlotAction};

verus! {

broadcast use vstd::arithmetic::mul::lemma_mul_is_commutative;

/// The indices a full unroll of trip count `n` delivers: `0, 1, ..., n - 1`.
pub open spec fn full_indices(n: nat) -> Seq<int> {
    Seq::new(n, |i: int| i)
}

/// The `(index, slot)` pairs a partial unroll of count `k` by factor `n`
/// delivers: `(i, i % n)` for `i` in `0..k`, ascending.
pub open spec fn partial_pairs(k: nat, n: nat) -> Seq<(int, int)> {
    Seq::new(k, |i: int| (i, i % (n as int)))
}

/// Invoke `action` once for every index in `0..n`, each exactly once, in
/// ascending order.
///
/// The engine recurses on the trip count: it first handles `0..n - 1`, then
/// issues the one remaining call for index `n - 1`, so the calls arrive as
/// `0, 1, ..., n - 1`. A trip count of zero is a legal no-op.
pub fn full_unroll<A: Action>(n: usize, action: &mut A)
    requires
        forall|j: int| 0 <= j < n ==> old(action).accepts(j),
    ensures
        final(action).history() == old(action).history() + full_indices(n as nat),
        forall|j: int| old(action).accepts(j) ==> final(action).accepts(j),
    decreases n,
{
    if n > 0 {
        full_unroll(n - 1, action);
        action.call(n - 1);
        proof {
            assert(action.history() =~= old(action).history() + full_indices(n as nat));
        }
    } else {
        proof {
            assert(old(action).history() + full_indices(0) =~= old(action).history());
        }
    }
}

/// The `(index, slot)` pairs one unroll block delivers: `(base + j, j)` for
/// `j` in `0..m`, ascending.
spec fn block_pairs(base: int, m: nat) -> Seq<(int, int)> {
    Seq::new(m, |j: int| (base + j, j))
}

/// One block of a partial unroll: invoke `action` with `(base + j, j)` for
/// every `j` in `0..m`, ascending, by the same recursion as [`full_unroll`].
fn unroll_block<A: SlotAction>(base: usize, m: usize, action: &mut A)
    requires
        base + m <= usize::MAX,
        forall|i: int, s: int| 0 <= s < m && i == base + s ==> old(action).accepts(i, s),
    ensures
        final(action).history() == old(action).history() + block_pairs(base as int, m as nat),
        forall|i: int, s: int| old(action).accepts(i, s) ==> final(action).accepts(i, s),
    decreases m,
{
    if m > 0 {
        unroll_block(base, m - 1, action);
        action.call(base + (m - 1), m - 1);
        proof {
            assert(action.history()
                =~= old(action).history() + block_pairs(base as int, m as nat));
        }
    } else {
        proof {
            assert(old(action).history() + block_pairs(base as int, 0)
                =~= old(action).history());
        }
    }
}

/// Invoke `action` once for every index in `0..k`, each exactly once, in
/// ascending order, pairing index `i` with its unroll slot `i % n`.
///
/// The first `k / n` blocks of `n` indices go through the unroll engine; an
/// ordinary edge loop finishes the `k % n` remainder, where the slot is the
/// offset past the last whole block. The factor `n` must be positive: it
/// divides the count. A count of zero is a legal no-op.
pub fn partial_unroll<A: SlotAction>(n: usize, k: usize, action: &mut A)
    requires
        n > 0,
        forall|i: int, s: int| 0 <= i < k && s == i % (n as int) ==> old(action).accepts(i, s),
    ensures
        final(action).history() == old(action).history() + partial_pairs(k as nat, n as nat),
        forall|i: int, s: int| old(action).accepts(i, s) ==> final(action).accepts(i, s),
{
    let blocks: usize = k / n;
    proof {
        lemma_fundamental_div_mod(k as int, n as int);
        assert(old(action).history() + partial_pairs(0, n as nat) =~= old(action).history());
    }
    let mut b: usize = 0;
    while b < blocks
        invariant
            0 < n,
            blocks == k as int / n as int,
            blocks * n <= k,
            b <= blocks,
            forall|i: int, s: int| 0 <= i < k && s == i % (n as int)
                ==> old(action).accepts(i, s),
            forall|i: int, s: int| old(action).accepts(i, s) ==> action.accepts(i, s),
            action.history() == old(action).history()
                + partial_pairs((b * n) as nat, n as nat),
        decreases blocks - b,
    {
        proof {
            assert(b * n + n <= blocks * n) by (nonlinear_arith)
                requires
                    b < blocks,
                    0 < n,
            ;
        }
        let base: usize = b * n;
        proof {
            assert forall|i: int, s: int| 0 <= s < n && i == base + s implies
                action.accepts(i, s) by {
                lemma_mod_multiples_vanish(b as int, s, n as int);
                lemma_small_mod(s as nat, n as nat);
                assert(i % (n as int) == s);
                assert(old(action).accepts(i, s));
            }
        }
        unroll_block(base, n, action);
        proof {
            let pre = old(action).history();
            let grown = pre + partial_pairs((b * n) as nat, n as nat)
                + block_pairs(base as int, n as nat);
            let goal = pre + partial_pairs(((b + 1) * n) as nat, n as nat);
            assert((b + 1) * n == b * n + n) by (nonlinear_arith);
            assert forall|t: int| 0 <= t < goal.len() implies grown[t] == goal[t] by {
                if t >= pre.len() + b * n {
                    let j = t - pre.len() - b * n;
                    lemma_mod_multiples_vanish(b as int, j, n as int);
                    lemma_small_mod(j as nat, n as nat);
                }
            }
            assert(grown =~= goal);
        }
        b = b + 1;
    }
    let base: usize = blocks * n;
    let mut i: usize = base;
    let mut r: usize = 0;
    proof {
        lemma_fundamental_div_mod(k as int, n as int);
    }
    while i < k
        invariant
            0 < n,
            base == blocks * n,
            base <= i <= k,
            i == base + r,
            k as int == n as int * (blocks as int) + k as int % (n as int),
            (k as int % (n as int)) < n,
            forall|t: int, s: int| 0 <= t < k && s == t % (n as int)
                ==> old(action).accepts(t, s),
            forall|t: int, s: int| old(action).accepts(t, s) ==> action.accepts(t, s),
            action.history() == old(action).history() + partial_pairs(i as nat, n as nat),
        decreases k - i,
    {
        proof {
            assert(r < n);
            lemma_mod_multiples_vanish(blocks as int, r as int, n as int);
            lemma_small_mod(r as nat, n as nat);
            assert(i as int % (n as int) == r as int);
        }
        action.call(i, r);
        proof {
            let pre = old(action).history();
            let grown = (pre + partial_pairs(i as nat, n as nat)).push((i as int, r as int));
            let goal = pre + partial_pairs((i + 1) as nat, n as nat);
            assert(grown =~= goal);
        }
        i = i + 1;
        r = r + 1;
    }
}

/// Composition law: a full unroll of factor `n` and a partial unroll with
/// factor `n` and count `n` are observationally equivalent. The partial
/// form delivers exactly the full form's index sequence, in the same order,
/// and pairs every index with a slot equal to that index.
pub proof fn lemma_full_unroll_matches_partial_unroll(n: nat)
    requires
        n > 0,
    ensures
        partial_pairs(n, n) == full_indices(n).map_values(|i: int| (i, i)),
{
    let paired = full_indices(n).map_values(|i: int| (i, i));
    assert forall|i: int| 0 <= i < n implies #[trigger] partial_pairs(n, n)[i] == paired[i] by {
        lemma_small_mod(i as nat, n);
    }
    assert(partial_pairs(n, n) =~= paired);
}

} // verus!
