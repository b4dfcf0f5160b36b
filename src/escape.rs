use vstd::prelude::*;

verus! {

/// The iteration limit of every escape-time kernel.
pub const ITERATION_LIMIT: usize = 255;

/// What an escape-time kernel does after the escape test of one iteration.
#[derive(Clone, Copy, Debug, PartialEq, Eq, Structural)]
pub enum EscapeStep {
    /// The test held at this iteration: the orbit diverged here.
    Diverged(usize),
    /// The limit is reached without the test holding: the point is taken as
    /// a member of the set.
    Bounded,
    /// Apply the recurrence once and test again at this iteration.
    Continue(usize),
}

/// The decision after the escape test of iteration `iteration`.
pub open spec fn step_spec(iteration: nat, limit: nat, escaped: bool) -> EscapeStep {
    if escaped {
        EscapeStep::Diverged(iteration as usize)
    } else if iteration + 1 >= limit {
        EscapeStep::Bounded
    } else {
        EscapeStep::Continue((iteration + 1) as usize)
    }
}

/// The result of a kernel whose escape test gives `tests[i]` at iteration
/// `i`, driven by `escape_step` from `iteration` on.
pub open spec fn drive(tests: Seq<bool>, limit: nat, iteration: nat) -> Option<nat>
    decreases limit - iteration,
{
    if iteration >= limit || iteration >= tests.len() {
        None
    } else {
        match step_spec(iteration, limit, tests[iteration as int]) {
            EscapeStep::Diverged(i) => Some(i as nat),
            EscapeStep::Bounded => None,
            EscapeStep::Continue(_) => drive(tests, limit, iteration + 1),
        }
    }
}

/// The iteration-limit logic shared by every kernel: given the outcome of the
/// escape test at `iteration`, says whether the orbit diverged there, whether
/// the limit is reached, or which iteration to test next.
pub fn escape_step(iteration: usize, limit: usize, escaped: bool) -> (r: EscapeStep)
    requires
        iteration < limit,
    ensures
        r == step_spec(iteration as nat, limit as nat, escaped),
{
    if escaped {
        EscapeStep::Diverged(iteration)
    } else if iteration + 1 >= limit {
        EscapeStep::Bounded
    } else {
        EscapeStep::Continue(iteration + 1)
    }
}

/// Driving `escape_step` from iteration 0 reports divergence at `i` exactly
/// when `i` is the first iteration below the limit at which the escape test
/// held, and no divergence exactly when the test held at none of them.
pub proof fn lemma_escape_time(tests: Seq<bool>, limit: usize)
    requires
        tests.len() >= limit,
    ensures
        forall|i: nat| #[trigger] drive(tests, limit as nat, 0) == Some(i) <==> (i < limit
            && tests[i as int] && forall|j: int| 0 <= j < i ==> !tests[j]),
        drive(tests, limit as nat, 0) is None <==> forall|j: int| 0 <= j < limit ==> !tests[j],
{
    lemma_drive_from(tests, limit, 0);
}

proof fn lemma_drive_from(tests: Seq<bool>, limit: usize, start: nat)
    requires
        tests.len() >= limit,
    ensures
        forall|i: nat| #[trigger] drive(tests, limit as nat, start) == Some(i) <==> (start <= i
            < limit && tests[i as int] && forall|j: int| start <= j < i ==> !tests[j]),
        drive(tests, limit as nat, start) is None <==> forall|j: int| start <= j < limit ==> !tests[j],
    decreases limit - start,
{
    if start < limit {
        lemma_drive_from(tests, limit, start + 1);
        if tests[start as int] {
            assert(drive(tests, limit as nat, start) == Some(start));
            assert forall|i: nat| #[trigger] drive(tests, limit as nat, start) == Some(i) <==> (
            start <= i < limit && tests[i as int] && forall|j: int| start <= j < i ==> !tests[j]) by {
                if i > start && forall|j: int| start <= j < i ==> !tests[j] {
                    assert(!tests[start as int]);
                }
            }
        } else {
            assert(drive(tests, limit as nat, start) == drive(tests, limit as nat, start + 1));
            assert forall|i: nat| #[trigger] drive(tests, limit as nat, start) == Some(i) <==> (
            start <= i < limit && tests[i as int] && forall|j: int| start <= j < i ==> !tests[j]) by {
                assert(drive(tests, limit as nat, start + 1) == Some(i) <==> (start + 1 <= i < limit
                    && tests[i as int] && forall|j: int| start + 1 <= j < i ==> !tests[j]));
            }
        }
    }
}

} // verus!
