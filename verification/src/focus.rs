//! Focus cycling.
//!
//! The panels stand in the order of their identifiers, 1, 2, and so on. The
//! focus cycles to the next panel that can take it, from the last panel on to
//! the first. Which panels can take the focus is a sequence of booleans here:
//! the entry at index `i` speaks of the panel with the identifier `i + 1`.

use vstd::prelude::*;

verus! {

/// The least index from `lo` up to `hi` whose panel can take the focus, or
/// `hi` where there is none.
pub open spec fn first_ok(ok: Seq<bool>, lo: int, hi: int) -> int
    decreases hi - lo,
{
    if lo >= hi {
        hi
    } else if ok[lo] {
        lo
    } else {
        first_ok(ok, lo + 1, hi)
    }
}

/// The index of the panel that gets the focus after the one at index `i`: the
/// next one behind it that can take the focus, or else the first one of all.
/// Where no panel can take the focus, the number of panels.
pub open spec fn next_index(ok: Seq<bool>, i: int) -> int {
    let behind = first_ok(ok, i + 1, ok.len() as int);
    if behind < ok.len() {
        behind
    } else {
        first_ok(ok, 0, ok.len() as int)
    }
}

/// The identifier that gets the focus when it cycles on from `focus`.
pub open spec fn next_focus(ok: Seq<bool>, focus: int) -> int {
    next_index(ok, focus % (ok.len() as int) - 1) + 1
}

/// The identifier that has the focus after it has cycled on `steps` times.
pub open spec fn focus_after(ok: Seq<bool>, focus: int, steps: nat) -> int
    decreases steps,
{
    if steps == 0 {
        focus
    } else {
        next_focus(ok, focus_after(ok, focus, (steps - 1) as nat))
    }
}

/// The number of panels among the first `upto` that can take the focus.
pub open spec fn count_ok(ok: Seq<bool>, upto: int) -> int
    decreases upto,
{
    if upto <= 0 {
        0
    } else {
        count_ok(ok, upto - 1) + if ok[upto - 1] {
            1int
        } else {
            0int
        }
    }
}

/// What `first_ok` finds lies in the range, can take the focus, and nothing
/// before it in the range can.
pub proof fn lemma_first_ok(ok: Seq<bool>, lo: int, hi: int)
    requires
        0 <= lo <= hi <= ok.len(),
    ensures
        lo <= first_ok(ok, lo, hi) <= hi,
        first_ok(ok, lo, hi) < hi ==> ok[first_ok(ok, lo, hi)],
        forall|j: int| lo <= j < first_ok(ok, lo, hi) ==> !ok[j],
        count_ok(ok, first_ok(ok, lo, hi)) == count_ok(ok, lo),
    decreases hi - lo,
{
    if lo < hi && !ok[lo] {
        lemma_first_ok(ok, lo + 1, hi);
    }
}

/// Where a panel in a range can take the focus and none before it in the
/// range can, `first_ok` finds it.
pub proof fn lemma_first_ok_found(ok: Seq<bool>, lo: int, hi: int, at: int)
    requires
        0 <= lo <= at < hi <= ok.len(),
        ok[at],
        forall|j: int| lo <= j < at ==> !ok[j],
    ensures
        first_ok(ok, lo, hi) == at,
    decreases at - lo,
{
    if lo < at {
        lemma_first_ok_found(ok, lo + 1, hi, at);
    }
}

/// Where no panel in a range can take the focus, `first_ok` finds none.
pub proof fn lemma_first_ok_none(ok: Seq<bool>, lo: int, hi: int)
    requires
        0 <= lo <= hi <= ok.len(),
        forall|j: int| lo <= j < hi ==> !ok[j],
    ensures
        first_ok(ok, lo, hi) == hi,
    decreases hi - lo,
{
    if lo < hi {
        lemma_first_ok_none(ok, lo + 1, hi);
    }
}

/// The count grows with the range, by at least one over a panel that can
/// take the focus.
pub proof fn lemma_count_grows(ok: Seq<bool>, lo: int, hi: int)
    requires
        0 <= lo <= hi <= ok.len(),
    ensures
        0 <= count_ok(ok, lo) <= count_ok(ok, hi),
        count_ok(ok, hi) <= count_ok(ok, lo) + (hi - lo),
        forall|j: int| lo <= j < hi && ok[j] ==> count_ok(ok, j) < count_ok(ok, hi),
        (forall|j: int| lo <= j < hi ==> !ok[j]) ==> count_ok(ok, hi) == count_ok(ok, lo),
    decreases hi - lo,
{
    if lo < hi {
        lemma_count_grows(ok, lo, hi - 1);
    } else {
        lemma_count_nonneg(ok, lo);
    }
}

/// A count is not negative.
pub proof fn lemma_count_nonneg(ok: Seq<bool>, upto: int)
    ensures
        0 <= count_ok(ok, upto),
    decreases upto,
{
    if upto > 0 {
        lemma_count_nonneg(ok, upto - 1);
    }
}

/// Two panels that can take the focus and have as many such panels before
/// them are one panel.
pub proof fn lemma_rank_injective(ok: Seq<bool>, i: int, j: int)
    requires
        0 <= i < ok.len(),
        0 <= j < ok.len(),
        ok[i],
        ok[j],
        count_ok(ok, i) == count_ok(ok, j),
    ensures
        i == j,
{
    if i < j {
        lemma_count_grows(ok, i, j);
    } else if j < i {
        lemma_count_grows(ok, j, i);
    }
}

/// Cycling on from any panel, in a place where some panel can take the
/// focus, lands on a panel that can; and the panels that can are visited in
/// their order, going round.
pub proof fn lemma_next_index(ok: Seq<bool>, i: int)
    requires
        -1 <= i < ok.len(),
        exists|j: int| 0 <= j < ok.len() && ok[j],
    ensures
        0 <= next_index(ok, i) < ok.len(),
        ok[next_index(ok, i)],
        0 < count_ok(ok, ok.len() as int),
        0 <= i && ok[i] ==> count_ok(ok, next_index(ok, i)) == (count_ok(ok, i) + 1) % count_ok(
            ok,
            ok.len() as int,
        ),
{
    let n = ok.len() as int;
    let total = count_ok(ok, n);
    let witness = choose|j: int| 0 <= j < ok.len() && ok[j];
    lemma_count_grows(ok, 0, n);
    lemma_count_grows(ok, witness, n);
    lemma_count_nonneg(ok, witness);
    lemma_first_ok(ok, i + 1, n);
    lemma_first_ok(ok, 0, n);
    let behind = first_ok(ok, i + 1, n);
    if behind < n {
        if 0 <= i && ok[i] {
            lemma_count_grows(ok, behind, n);
            lemma_count_nonneg(ok, i);
            vstd::arithmetic::div_mod::lemma_small_mod((count_ok(ok, i) + 1) as nat, total as nat);
        }
    } else {
        if 0 <= i && ok[i] {
            vstd::arithmetic::div_mod::lemma_mod_self_0(total);
        }
    }
}

/// The focus never cycles onto a panel that is hidden or silent: from any
/// identifier whatever, the next focus is the identifier of a panel that can
/// take it.
pub proof fn lemma_next_focus(ok: Seq<bool>, focus: int)
    requires
        0 <= focus,
        exists|j: int| 0 <= j < ok.len() && ok[j],
    ensures
        1 <= next_focus(ok, focus) <= ok.len(),
        ok[next_focus(ok, focus) - 1],
{
    let n = ok.len() as int;
    vstd::arithmetic::div_mod::lemma_mod_bound(focus, n);
    lemma_next_index(ok, focus % n - 1);
}

/// From a panel that can take the focus, each step of the cycle goes to the
/// panel of the next rank, where the rank of a panel is the number of panels
/// before it that can take the focus, and the ranks go round.
pub proof fn lemma_rank_after(ok: Seq<bool>, focus: int, steps: nat)
    requires
        1 <= focus <= ok.len(),
        ok[focus - 1],
    ensures
        1 <= focus_after(ok, focus, steps) <= ok.len(),
        ok[focus_after(ok, focus, steps) - 1],
        0 < count_ok(ok, ok.len() as int),
        count_ok(ok, focus_after(ok, focus, steps) - 1) == (count_ok(ok, focus - 1) + steps)
            % count_ok(ok, ok.len() as int),
    decreases steps,
{
    let n = ok.len() as int;
    let total = count_ok(ok, n);
    lemma_count_grows(ok, focus - 1, n);
    lemma_count_nonneg(ok, focus - 1);
    if steps == 0 {
        vstd::arithmetic::div_mod::lemma_small_mod(count_ok(ok, focus - 1) as nat, total as nat);
    } else {
        lemma_rank_after(ok, focus, (steps - 1) as nat);
        let before = focus_after(ok, focus, (steps - 1) as nat);
        let i = before - 1;
        if before == n {
            vstd::arithmetic::div_mod::lemma_mod_self_0(n);
        } else {
            vstd::arithmetic::div_mod::lemma_small_mod(before as nat, n as nat);
        }
        lemma_next_index(ok, i);
        let rank = count_ok(ok, focus - 1);
        vstd::arithmetic::div_mod::lemma_add_mod_noop(rank + steps - 1, 1, total);
        vstd::arithmetic::div_mod::lemma_mod_twice(rank + steps - 1, total);
        vstd::arithmetic::div_mod::lemma_add_mod_noop((rank + steps - 1) % total, 1, total);
    }
}

/// One full rotation. Let `count` panels be able to take the focus, one of
/// them having it. Cycling on `count` times never puts the focus on another
/// kind of panel, puts it on `count` different panels, reaches every panel
/// that can take it, and ends where it began.
pub proof fn lemma_full_rotation(ok: Seq<bool>, focus: int)
    requires
        1 <= focus <= ok.len(),
        ok[focus - 1],
    ensures
        1 <= count_ok(ok, ok.len() as int),
        focus_after(ok, focus, count_ok(ok, ok.len() as int) as nat) == focus,
        forall|steps: nat|
            1 <= #[trigger] focus_after(ok, focus, steps) <= ok.len() && ok[focus_after(
                ok,
                focus,
                steps,
            ) - 1],
        forall|a: nat, b: nat|
            1 <= a < b <= count_ok(ok, ok.len() as int) ==> #[trigger] focus_after(ok, focus, a)
                != #[trigger] focus_after(ok, focus, b),
        forall|panel: int|
            1 <= panel <= ok.len() && #[trigger] ok[panel - 1] ==> exists|steps: nat|
                1 <= steps <= count_ok(ok, ok.len() as int) && focus_after(ok, focus, steps)
                    == panel,
{
    let n = ok.len() as int;
    let total = count_ok(ok, n);
    let rank = count_ok(ok, focus - 1);
    lemma_count_grows(ok, focus - 1, n);
    lemma_count_nonneg(ok, focus - 1);
    assert forall|steps: nat|
        1 <= #[trigger] focus_after(ok, focus, steps) <= ok.len() && ok[focus_after(
            ok,
            focus,
            steps,
        ) - 1] by {
        lemma_rank_after(ok, focus, steps);
    }
    assert(focus_after(ok, focus, total as nat) == focus) by {
        lemma_rank_after(ok, focus, total as nat);
        vstd::arithmetic::div_mod::lemma_mod_add_multiples_vanish(rank, total);
        vstd::arithmetic::div_mod::lemma_small_mod(rank as nat, total as nat);
        lemma_rank_injective(ok, focus_after(ok, focus, total as nat) - 1, focus - 1);
    }
    assert forall|a: nat, b: nat| 1 <= a < b <= total implies #[trigger] focus_after(ok, focus, a)
        != #[trigger] focus_after(ok, focus, b) by {
        lemma_rank_after(ok, focus, a);
        lemma_rank_after(ok, focus, b);
        lemma_mod_differs(rank + a, rank + b, total);
    }
    assert forall|panel: int| 1 <= panel <= ok.len() && #[trigger] ok[panel - 1] implies exists|
        steps: nat,
    |
        1 <= steps <= total && focus_after(ok, focus, steps) == panel by {
        let want = count_ok(ok, panel - 1);
        lemma_count_grows(ok, panel - 1, n);
        lemma_count_nonneg(ok, panel - 1);
        let steps: nat = if want > rank {
            (want - rank) as nat
        } else {
            (want - rank + total) as nat
        };
        lemma_rank_after(ok, focus, steps);
        if want > rank {
            vstd::arithmetic::div_mod::lemma_small_mod(want as nat, total as nat);
        } else {
            vstd::arithmetic::div_mod::lemma_mod_add_multiples_vanish(want, total);
            vstd::arithmetic::div_mod::lemma_small_mod(want as nat, total as nat);
        }
        lemma_rank_injective(ok, focus_after(ok, focus, steps) - 1, panel - 1);
    }
}

/// Two numbers less than a modulus apart have different remainders.
pub proof fn lemma_mod_differs(a: int, b: int, m: int)
    requires
        0 < m,
        a < b < a + m,
    ensures
        a % m != b % m,
{
    if a % m == b % m {
        vstd::arithmetic::div_mod::lemma_fundamental_div_mod(a, m);
        vstd::arithmetic::div_mod::lemma_fundamental_div_mod(b, m);
        let qa = a / m;
        let qb = b / m;
        assert(m * qb - m * qa == m * (qb - qa)) by (nonlinear_arith);
        let d = qb - qa;
        assert(false) by (nonlinear_arith)
            requires
                0 < m,
                0 < m * d < m,
        ;
    }
}

} // verus!
