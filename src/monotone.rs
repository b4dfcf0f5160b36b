use vstd::prelude::*;

verus! {

// The tangent decisions of monotone cubic Hermite interpolation over one
// color channel. Knot positions are strictly increasing, so the slope of the
// interval from knot `k` to knot `k + 1` has the sign of
// `values[k + 1] - values[k]`, and every decision below is made on the
// channel values alone.

/// The interval from knot `k` to knot `k + 1` is flat: its slope is zero.
pub open spec fn flat(values: Seq<u8>, k: int) -> bool {
    values[k] == values[k + 1]
}

/// Knot `k` is interior and a local extremum: its two intervals have slopes of
/// opposite sign.
pub open spec fn extremum(values: Seq<u8>, k: int) -> bool {
    0 < k < values.len() - 1 && ((values[k - 1] < values[k] && values[k] > values[k + 1]) || (
    values[k - 1] > values[k] && values[k] < values[k + 1]))
}

/// The tangent at knot `k` is pinned to zero: the knot is a local extremum,
/// or it ends a flat interval.
pub open spec fn pinned(values: Seq<u8>, k: int) -> bool {
    extremum(values, k) || (k > 0 && flat(values, k - 1)) || (k + 1 < values.len() && flat(
        values,
        k,
    ))
}

/// `limited` lists, in increasing order, exactly the intervals of `values`
/// that are not flat.
pub open spec fn sloped_intervals(values: Seq<u8>, limited: Seq<usize>) -> bool {
    &&& forall|i: int| 0 <= i < limited.len() ==> #[trigger] limited[i] + 1 < values.len() && !flat(
        values,
        limited[i] as int,
    )
    &&& forall|i: int, j: int| 0 <= i < j < limited.len() ==> limited[i] < limited[j]
    &&& forall|k: int| 0 <= k < values.len() - 1 && !#[trigger] flat(values, k) ==> exists|i: int|
        0 <= i < limited.len() && limited[i] == k
}

/// Which tangents the palette builder pins to zero, and on which intervals it
/// then limits the tangents to the circle of radius 3.
pub struct TangentPlan {
    /// `pinned[k]`: the tangent at knot `k` is zero.
    pub pinned: Vec<bool>,
    /// The intervals that are not flat, in increasing order: each gets the
    /// overshoot check; flat ones are already safe.
    pub limited: Vec<usize>,
}

fn is_pinned(values: &[u8], k: usize) -> (r: bool)
    requires
        k < values@.len(),
    ensures
        r == pinned(values@, k as int),
{
    let n = values.len();
    let after_flat = k > 0 && values[k - 1] == values[k];
    let before_flat = k + 1 < n && values[k] == values[k + 1];
    let turn = k > 0 && k + 1 < n && ((values[k - 1] < values[k] && values[k] > values[k + 1]) || (
    values[k - 1] > values[k] && values[k] < values[k + 1]));
    turn || after_flat || before_flat
}

/// Plans the tangents of one channel whose knot values are `values`. Gives
/// `None` for fewer than two knots, which leave nothing to interpolate.
pub fn plan_tangents(values: &[u8]) -> (r: Option<TangentPlan>)
    ensures
        r is None <==> values@.len() < 2,
        r matches Some(plan) ==> {
            &&& plan.pinned@.len() == values@.len()
            &&& forall|k: int| 0 <= k < values@.len() ==> #[trigger] plan.pinned@[k] == pinned(values@, k)
            &&& sloped_intervals(values@, plan.limited@)
        },
{
    let n = values.len();
    if n < 2 {
        return None;
    }
    let mut pinned_knots: Vec<bool> = Vec::with_capacity(n);
    let mut k: usize = 0;
    while k < n
        invariant
            n == values@.len(),
            k <= n,
            pinned_knots@.len() == k,
            forall|j: int| 0 <= j < k ==> #[trigger] pinned_knots@[j] == pinned(values@, j),
        decreases n - k,
    {
        pinned_knots.push(is_pinned(values, k));
        k = k + 1;
    }
    let mut limited: Vec<usize> = Vec::new();
    let mut k: usize = 0;
    while k + 1 < n
        invariant
            n == values@.len(),
            n >= 2,
            k + 1 <= n,
            pinned_knots@.len() == n,
            forall|j: int| 0 <= j < n ==> #[trigger] pinned_knots@[j] == pinned(values@, j),
            forall|i: int| 0 <= i < limited@.len() ==> #[trigger] limited@[i] < k && !flat(
                values@,
                limited@[i] as int,
            ),
            forall|i: int, j: int| 0 <= i < j < limited@.len() ==> limited@[i] < limited@[j],
            forall|m: int| 0 <= m < k && !#[trigger] flat(values@, m) ==> exists|i: int|
                0 <= i < limited@.len() && limited@[i] == m,
        decreases n - k,
    {
        let ghost before = limited@;
        if values[k] != values[k + 1] {
            limited.push(k);
        }
        proof {
            assert forall|m: int| 0 <= m < k + 1 && !#[trigger] flat(values@, m) implies exists|i: int|
                0 <= i < limited@.len() && limited@[i] == m by {
                if m < k {
                    let i = choose|i: int| 0 <= i < before.len() && before[i] == m;
                    assert(limited@[i] == m);
                } else {
                    assert(limited@[limited@.len() - 1] == m);
                }
            }
        }
        k = k + 1;
    }
    assert(sloped_intervals(values@, limited@));
    let plan = TangentPlan { pinned: pinned_knots, limited };
    Some(plan)
}

/// For a channel whose knot values strictly rise, or strictly fall, no
/// tangent is pinned and no interval is flat, so every interval gets the
/// overshoot check.
pub proof fn lemma_strictly_monotone_plan(values: Seq<u8>)
    requires
        (forall|k: int| 0 <= k < values.len() - 1 ==> #[trigger] values[k] < values[k + 1]) || (
        forall|k: int| 0 <= k < values.len() - 1 ==> #[trigger] values[k] > values[k + 1]),
    ensures
        forall|k: int| 0 <= k < values.len() ==> !#[trigger] pinned(values, k),
        forall|k: int| 0 <= k < values.len() - 1 ==> !#[trigger] flat(values, k),
{
    assert forall|k: int| 0 <= k < values.len() implies !#[trigger] pinned(values, k) by {
        if k > 0 {
            assert(!flat(values, k - 1));
        }
        if k + 1 < values.len() {
            assert(!flat(values, k));
        }
    }
}

} // verus!
