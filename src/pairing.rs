use vstd::prelude::*;

verus! {

/// Szudzik's pairing of two naturals into one.
pub open spec fn pair_of(x: int, y: int) -> int {
    if x >= y {
        x * x + x + y
    } else {
        y * y + x
    }
}

/// Every pair lies in the shell between the square of its larger component and
/// the next square.
proof fn lemma_pair_shell(x: int, y: int)
    requires
        x >= 0,
        y >= 0,
    ensures
        ({
            let m = if x >= y { x } else { y };
            m * m <= pair_of(x, y) < (m + 1) * (m + 1)
        }),
{
    let m = if x >= y { x } else { y };
    assert((m + 1) * (m + 1) == m * m + 2 * m + 1) by (nonlinear_arith);
}

/// `m` is the only natural whose square lies at most `z` with the next square above it.
proof fn lemma_root_unique(m: int, n: int, z: int)
    requires
        m >= 0,
        n >= 0,
        m * m <= z < (m + 1) * (m + 1),
        n * n <= z < (n + 1) * (n + 1),
    ensures
        m == n,
{
    if m < n {
        assert((m + 1) * (m + 1) <= n * n) by (nonlinear_arith)
            requires
                m + 1 <= n,
                m >= 0,
        ;
    } else if n < m {
        assert((n + 1) * (n + 1) <= m * m) by (nonlinear_arith)
            requires
                n + 1 <= m,
                n >= 0,
        ;
    }
}

/// Pairing is injective: distinct pairs of naturals give distinct numbers.
pub proof fn lemma_pair_injective(a: int, b: int, c: int, d: int)
    requires
        a >= 0,
        b >= 0,
        c >= 0,
        d >= 0,
        pair_of(a, b) == pair_of(c, d),
    ensures
        a == c,
        b == d,
{
    lemma_pair_shell(a, b);
    lemma_pair_shell(c, d);
    let m = if a >= b { a } else { b };
    let n = if c >= d { c } else { d };
    lemma_root_unique(m, n, pair_of(a, b));
}

/// Combines two indices into one, such that `unpairing_function` recovers them.
pub fn pairing_function(x: usize, y: usize) -> (r: usize)
    requires
        pair_of(x as int, y as int) <= usize::MAX,
    ensures
        r as int == pair_of(x as int, y as int),
{
    if x >= y {
        proof {
            assert(x * x <= x * x + x + y);
            assert(0 <= x * x) by (nonlinear_arith);
        }
        x * x + x + y
    } else {
        proof {
            assert(0 <= y * y) by (nonlinear_arith);
        }
        y * y + x
    }
}

/// The largest natural whose square is at most `z`.
fn integer_sqrt(z: u64) -> (r: u64)
    ensures
        (r as int) * (r as int) <= z as int,
        (z as int) < (r as int + 1) * (r as int + 1),
{
    let mut lo: u64 = 0;
    let mut hi: u64 = 0x1_0000_0000;
    assert((hi as int) * (hi as int) == 0x1_0000_0000_0000_0000) by (nonlinear_arith)
        requires
            hi == 0x1_0000_0000u64,
    ;
    while hi - lo > 1
        invariant
            lo < hi <= 0x1_0000_0000,
            (lo as int) * (lo as int) <= z as int,
            (z as int) < (hi as int) * (hi as int),
        decreases hi - lo,
    {
        let mid: u64 = lo + (hi - lo) / 2;
        assert((mid as int) * (mid as int) <= 0x1_0000_0000_0000_0000) by (nonlinear_arith)
            requires
                mid < 0x1_0000_0000int,
                mid >= 0,
        ;
        let sq: u128 = (mid as u128) * (mid as u128);
        if sq <= z as u128 {
            lo = mid;
        } else {
            hi = mid;
        }
    }
    lo
}

/// Recovers the two indices combined by `pairing_function`.
pub fn unpairing_function(z: usize) -> (r: (usize, usize))
    ensures
        pair_of(r.0 as int, r.1 as int) == z as int,
{
    let s = integer_sqrt(z as u64);
    let ghost sz = s as int;
    assert(sz <= z) by (nonlinear_arith)
        requires
            sz * sz <= z,
            sz >= 0,
    ;
    let sq = (s * s) as usize;
    let s = s as usize;
    assert((sz + 1) * (sz + 1) == sz * sz + 2 * sz + 1) by (nonlinear_arith);
    if z - sq >= s {
        (s, z - sq - s)
    } else {
        (z - sq, s)
    }
}

/// Unpairing a paired index gives back both components.
pub proof fn lemma_unpair_pair(x: int, y: int, r: (usize, usize))
    requires
        x >= 0,
        y >= 0,
        pair_of(r.0 as int, r.1 as int) == pair_of(x, y),
    ensures
        r.0 as int == x,
        r.1 as int == y,
{
    lemma_pair_injective(r.0 as int, r.1 as int, x, y);
}

} // verus!
