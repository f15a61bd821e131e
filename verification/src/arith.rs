//! Small division/remainder lemmas shared by the grid proofs.

use vstd::prelude::*;

verus! {

use vstd::arithmetic::div_mod::{
    lemma_fundamental_div_mod,
    lemma_fundamental_div_mod_converse,
    lemma_mod_bound,
};

/// Appending a digit `t` below `k` to `h` and splitting it off again.
pub proof fn lemma_digit_split(h: int, t: int, k: int)
    requires
        k > 0,
        0 <= t < k,
    ensures
        (h * k + t) / k == h,
        (h * k + t) % k == t,
{
    lemma_fundamental_div_mod_converse(h * k + t, k, h, t);
}

/// Relates the cell index `x / d` of a fine grid to the index and digit of
/// the coarser grid whose cells are `m` times larger.
pub proof fn lemma_index_split(x: int, d: int, m: int)
    requires
        x >= 0,
        d > 0,
        m > 0,
    ensures
        x / (d * m) == (x / d) / m,
        (x % (d * m)) / d == (x / d) % m,
        x % (d * m) == d * ((x / d) % m) + x % d,
        x / d == m * (x / (d * m)) + (x / d) % m,
{
    let q = x / d;
    let r = x % d;
    lemma_fundamental_div_mod(x, d);
    lemma_mod_bound(x, d);
    lemma_fundamental_div_mod(q, m);
    lemma_mod_bound(q, m);
    assert(x == (d * m) * (q / m) + (d * (q % m) + r)) by (nonlinear_arith)
        requires
            x == d * q + r,
            q == m * (q / m) + q % m,
    ;
    assert(0 <= d * (q % m) + r < d * m) by (nonlinear_arith)
        requires
            0 <= q % m < m,
            0 <= r < d,
            d > 0,
            m > 0,
    ;
    lemma_fundamental_div_mod_converse(x, d * m, q / m, d * (q % m) + r);
    lemma_fundamental_div_mod_converse(d * (q % m) + r, d, q % m, r);
}

/// Bounds on a quotient from bounds on the dividend.
pub proof fn lemma_div_range(x: int, d: int, lo: int, hi: int)
    requires
        d > 0,
        lo * d <= x,
        x < hi * d,
    ensures
        lo <= x / d < hi,
{
    lemma_fundamental_div_mod(x, d);
    lemma_mod_bound(x, d);
    assert(lo <= x / d) by (nonlinear_arith)
        requires
            lo * d <= x,
            x == d * (x / d) + x % d,
            0 <= x % d < d,
            d > 0,
    ;
    assert(x / d < hi) by (nonlinear_arith)
        requires
            x < hi * d,
            x == d * (x / d) + x % d,
            0 <= x % d < d,
            d > 0,
    ;
}

/// A point lies within the cell whose index it determines.
pub proof fn lemma_cell_contains(x: int, d: int)
    requires
        d > 0,
    ensures
        (x / d) * d <= x < (x / d) * d + d,
        x % d == x - (x / d) * d,
{
    lemma_fundamental_div_mod(x, d);
    lemma_mod_bound(x, d);
    assert((x / d) * d == d * (x / d)) by (nonlinear_arith);
}

/// Adding an offset smaller than one cell to a cell corner keeps the cell
/// index, and the offset becomes the remainder.
pub proof fn lemma_multiple_plus_small_div(q: int, d: int, off: int)
    requires
        d > 0,
        0 <= off < d,
    ensures
        (q * d + off) / d == q,
        (q * d + off) % d == off,
{
    lemma_fundamental_div_mod_converse(q * d + off, d, q, off);
}

} // verus!
