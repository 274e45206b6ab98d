use vstd::prelude::*;

verus! {

/// First nonce of partition `i` when `[0, total)` is split `n` ways.
pub open spec fn part_start(total: nat, n: nat, i: nat) -> nat {
    i * (total / n)
}

/// One past the last nonce of partition `i`; the last partition absorbs the remainder.
pub open spec fn part_end(total: nat, n: nat, i: nat) -> nat {
    if i + 1 == n {
        total
    } else {
        (i + 1) * (total / n)
    }
}

/// Whether nonce `x` belongs to partition `i`.
pub open spec fn in_part(total: nat, n: nat, i: nat, x: nat) -> bool {
    part_start(total, n, i) <= x < part_end(total, n, i)
}

/// The partition that nonce `x` falls in.
pub open spec fn owner_of(total: nat, n: nat, x: nat) -> nat {
    let q = total / n;
    if q == 0 || x / q >= n - 1 {
        (n - 1) as nat
    } else {
        x / q
    }
}

proof fn lemma_start_le_end(total: nat, n: nat, i: nat)
    requires
        n > 0,
        i < n,
    ensures
        part_start(total, n, i) <= part_end(total, n, i),
        part_end(total, n, i) <= total,
{
    let q = total / n;
    assert(q * n <= total) by (nonlinear_arith) requires q == total / n, n > 0;
    assert(i * q <= (i + 1) * q) by (nonlinear_arith);
    if i + 1 == n {
        assert(i * q <= n * q) by (nonlinear_arith) requires i < n;
        assert(q * n == n * q) by (nonlinear_arith);
    } else {
        assert((i + 1) * q <= n * q) by (nonlinear_arith) requires i + 1 <= n;
        assert(q * n == n * q) by (nonlinear_arith);
    }
}

/// The partitions of `[0, total)` for `n` workers cover the whole space, each
/// nonce lies in exactly one of them, and none reaches past `total`.
pub proof fn lemma_partition_complete(total: nat, n: nat)
    requires
        n > 0,
    ensures
        forall|i: nat| #![auto] i < n ==> part_end(total, n, i) <= total,
        forall|x: nat|
            x < total ==> #[trigger] owner_of(total, n, x) < n && in_part(total, n, owner_of(total, n, x), x),
        forall|i: nat, j: nat, x: nat|
            i < n && j < n && #[trigger] in_part(total, n, i, x) && #[trigger] in_part(total, n, j, x)
                ==> i == j,
{
    let q = total / n;
    assert forall|i: nat| #![auto] i < n implies part_end(total, n, i) <= total by {
        lemma_start_le_end(total, n, i);
    }
    assert forall|x: nat|
        x < total implies #[trigger] owner_of(total, n, x) < n && in_part(total, n, owner_of(total, n, x), x) by {
        let k = owner_of(total, n, x);
        if q == 0 {
            assert(k * q == 0) by (nonlinear_arith) requires q == 0;
        } else if x / q < n - 1 {
            assert(k * q <= x && x < (k + 1) * q) by (nonlinear_arith) requires k == x / q, q > 0;
        } else {
            assert(k * q <= x) by (nonlinear_arith) requires k <= x / q, q > 0;
        }
        assert(in_part(total, n, k, x));
    }
    assert forall|i: nat, j: nat, x: nat|
        i < n && j < n && #[trigger] in_part(total, n, i, x) && #[trigger] in_part(total, n, j, x)
        implies i == j by {
        if i < j {
            assert(part_end(total, n, i) <= part_start(total, n, j)) by {
                assert((i + 1) * q <= j * q) by (nonlinear_arith) requires i + 1 <= j;
            }
        } else if j < i {
            assert(part_end(total, n, j) <= part_start(total, n, i)) by {
                assert((j + 1) * q <= i * q) by (nonlinear_arith) requires j + 1 <= i;
            }
        }
    }
}

/// The nonce range `[start, end)` that worker `i` of `n` scans in `[0, total)`.
pub fn partition_range(total: u64, n: u64, i: u64) -> (r: (u64, u64))
    requires
        n > 0,
        i < n,
    ensures
        r.0 == part_start(total as nat, n as nat, i as nat),
        r.1 == part_end(total as nat, n as nat, i as nat),
        r.0 <= r.1 <= total,
{
    proof {
        lemma_start_le_end(total as nat, n as nat, i as nat);
    }
    let q = total / n;
    assert(i * q <= total) by (nonlinear_arith)
        requires q == total / n, i < n, n > 0;
    let start = i * q;
    if i + 1 == n {
        (start, total)
    } else {
        assert((i + 1) * q <= total) by (nonlinear_arith)
            requires q == total / n, i + 1 < n, n > 0;
        (start, (i + 1) * q)
    }
}

} // verus!
