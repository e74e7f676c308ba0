//! Circular cursor movement shared by the menu navigator and the checkbox list.
use vstd::prelude::*;
use vstd::arithmetic::div_mod::{
    lemma_add_mod_noop,
    lemma_fundamental_div_mod,
    lemma_mod_twice,
    lemma_mod_multiples_vanish,
    lemma_small_mod,
};

verus! {

/// Where a cursor over `n` entries lands after moving by `delta`: the sum taken
/// modulo `n`, so that it wraps around in both directions. Over an empty list
/// the cursor does not move.
pub open spec fn wrapped(cursor: int, delta: int, n: int) -> int {
    if n <= 0 {
        cursor
    } else {
        (cursor + delta) % n
    }
}

/// A cursor is valid over `n` entries when it points at one of them, or is `0`
/// when there are none.
pub open spec fn cursor_valid(cursor: int, n: int) -> bool {
    if n == 0 {
        cursor == 0
    } else {
        0 <= cursor < n
    }
}

/// Moves `cursor` by `delta` over a non-empty list of `n` entries, wrapping
/// around at both ends.
pub fn wrap_cursor(cursor: usize, delta: isize, n: usize) -> (r: usize)
    requires
        n > 0,
    ensures
        r == wrapped(cursor as int, delta as int, n as int),
        r < n,
{
    let c: usize = cursor % n;
    let d: usize;
    if delta >= 0 {
        d = (delta as usize) % n;
        proof {
            lemma_add_mod_noop(cursor as int, delta as int, n as int);
        }
    } else {
        let a: usize = (-(delta + 1)) as usize;
        d = n - 1 - a % n;
        proof {
            let k: int = 1 + (a as int) / (n as int);
            lemma_fundamental_div_mod(a as int, n as int);
            assert(d as int == (n as int) * k + delta) by (nonlinear_arith)
                requires
                    a as int == (n as int) * ((a as int) / (n as int)) + (a as int) % (n as int),
                    d as int == n as int - 1 - (a as int) % (n as int),
                    a as int == -(delta as int + 1),
                    k == 1 + (a as int) / (n as int),
            ;
            lemma_mod_multiples_vanish(k, cursor as int + delta as int, n as int);
            assert(cursor as int + d as int == (n as int) * k + (cursor as int + delta as int));
            lemma_small_mod(d as nat, n as nat);
            lemma_add_mod_noop(cursor as int, d as int, n as int);
        }
    }
    assert(((c as int) + (d as int)) % (n as int) == wrapped(cursor as int, delta as int, n as int));
    if c >= n - d {
        proof {
            lemma_small_mod((c + d - n) as nat, n as nat);
            lemma_mod_multiples_vanish(1, (c + d - n) as int, n as int);
        }
        c - (n - d)
    } else {
        proof {
            lemma_small_mod((c + d) as nat, n as nat);
        }
        c + d
    }
}

/// The cursor after `k` moves by `delta` each over `n` entries.
pub open spec fn stepped(cursor: int, delta: int, n: int, k: nat) -> int
    decreases k,
{
    if k == 0 {
        cursor
    } else {
        wrapped(stepped(cursor, delta, n, (k - 1) as nat), delta, n)
    }
}

/// After `k` moves by `delta` from a valid cursor over a non-empty list, the
/// cursor stands `k * delta` places further on, modulo the length.
pub proof fn lemma_stepped_offset(cursor: int, delta: int, n: int, k: nat)
    requires
        n > 0,
        0 <= cursor < n,
    ensures
        stepped(cursor, delta, n, k) == (cursor + k * delta) % n,
        0 <= stepped(cursor, delta, n, k) < n,
    decreases k,
{
    if k == 0 {
        lemma_small_mod(cursor as nat, n as nat);
    } else {
        let x = cursor + (k - 1) * delta;
        lemma_stepped_offset(cursor, delta, n, (k - 1) as nat);
        assert(x + delta == cursor + k * delta) by (nonlinear_arith)
            requires
                x == cursor + (k - 1) * delta,
        ;
        lemma_add_mod_noop(x, delta, n);
        lemma_add_mod_noop(x % n, delta, n);
        lemma_mod_twice(x, n);
    }
}

/// Moving a valid cursor by the same step as many times as there are entries
/// brings it back to where it started.
pub proof fn lemma_full_turn(cursor: int, delta: int, n: nat)
    requires
        cursor_valid(cursor, n as int),
    ensures
        stepped(cursor, delta, n as int, n) == cursor,
{
    if n > 0 {
        lemma_stepped_offset(cursor, delta, n as int, n);
        assert(cursor + n * delta == (n as int) * delta + cursor) by (nonlinear_arith);
        lemma_mod_multiples_vanish(delta, cursor, n as int);
        lemma_small_mod(cursor as nat, n);
    }
}

} // verus!
