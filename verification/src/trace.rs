use crate::http::{next_step, HttpState, SocketStatus};
use vstd::prelude::*;

verus! {

/// How far a state is along the way from `Connect` to `Done`.
pub open spec fn rank(state: HttpState) -> int {
    match state {
        HttpState::Connect => 0,
        HttpState::Request => 1,
        HttpState::Response => 2,
        HttpState::Done => 3,
    }
}

/// The states that a fetch goes through: the start, and one more state for
/// each report of the socket, in the order of the reports.
pub open spec fn run(start: HttpState, reports: Seq<SocketStatus>) -> Seq<HttpState>
    decreases reports.len(),
{
    if reports.len() == 0 {
        seq![start]
    } else {
        let before = run(start, reports.drop_last());
        before.push(next_step(before.last(), reports.last()).next)
    }
}

/// The state at position `k + 1` is the one that the table gives for the
/// state at position `k` and the report number `k`.
pub open spec fn follows(states: Seq<HttpState>, reports: Seq<SocketStatus>, k: int) -> bool {
    states[k + 1] == next_step(states[k], reports[k]).next
}

/// From position `k` to the next the state stays or moves on by one.
pub open spec fn moves_on(states: Seq<HttpState>, k: int) -> bool {
    rank(states[k]) <= rank(states[k + 1]) <= rank(states[k]) + 1
}

/// The sequence is `Connect` before `a`, `Request` from `a` to before `b`,
/// `Response` from `b` to before `c`, and `Done` from `c` on; each of the
/// four stretches holds at least one state.
pub open spec fn has_shape(states: Seq<HttpState>, a: int, b: int, c: int) -> bool {
    &&& 0 < a < b < c < states.len()
    &&& forall|k: int| 0 <= k < a ==> states[k] == HttpState::Connect
    &&& forall|k: int| a <= k < b ==> states[k] == HttpState::Request
    &&& forall|k: int| b <= k < c ==> states[k] == HttpState::Response
    &&& forall|k: int| c <= k < states.len() ==> states[k] == HttpState::Done
}

/// The number of states of a rank below `bound`.
spec fn count_below(states: Seq<HttpState>, bound: int) -> int
    decreases states.len(),
{
    if states.len() == 0 {
        0
    } else {
        count_below(states.drop_last(), bound) + if rank(states.last()) < bound {
            1int
        } else {
            0int
        }
    }
}

/// A transition never goes back and never skips a state; `Done` is final.
pub proof fn lemma_step_moves_on(state: HttpState, status: SocketStatus)
    ensures
        rank(state) <= rank(next_step(state, status).next) <= rank(state) + 1,
        state == HttpState::Done ==> next_step(state, status).next == HttpState::Done,
{
}

/// A run has one state more than there are reports, begins with the start,
/// and each of its states follows from the one before by the table.
pub proof fn lemma_run_unfolds(start: HttpState, reports: Seq<SocketStatus>)
    ensures
        run(start, reports).len() == reports.len() + 1,
        run(start, reports)[0] == start,
        forall|k: int|
            0 <= k < reports.len() ==> #[trigger] follows(run(start, reports), reports, k),
        forall|k: int| 0 <= k < reports.len() ==> #[trigger] moves_on(run(start, reports), k),
    decreases reports.len(),
{
    if reports.len() > 0 {
        let shorter = reports.drop_last();
        let before = run(start, shorter);
        let states = run(start, reports);
        lemma_run_unfolds(start, shorter);
        assert forall|k: int| 0 <= k < reports.len() implies #[trigger] follows(
            states,
            reports,
            k,
        ) by {
            if k < reports.len() - 1 {
                assert(follows(before, shorter, k));
                assert(states[k] == before[k]);
                assert(states[k + 1] == before[k + 1]);
                assert(shorter[k] == reports[k]);
            }
        }
        assert forall|k: int| 0 <= k < reports.len() implies #[trigger] moves_on(states, k) by {
            assert(follows(states, reports, k));
            lemma_step_moves_on(states[k], reports[k]);
        }
    }
}

/// In a sequence that only stays or moves on from each position to the
/// next, no later state has a lower rank than an earlier one.
proof fn lemma_never_backward(states: Seq<HttpState>, i: int, j: int)
    requires
        forall|k: int| 0 <= k < states.len() - 1 ==> #[trigger] moves_on(states, k),
        0 <= i <= j < states.len(),
    ensures
        rank(states[i]) <= rank(states[j]),
    decreases j - i,
{
    if i < j {
        lemma_never_backward(states, i, j - 1);
        assert(moves_on(states, j - 1));
    }
}

/// In a sequence whose ranks never fall, the states of a rank below `bound`
/// are exactly those at the positions before `count_below`.
proof fn lemma_count_below(states: Seq<HttpState>, bound: int)
    requires
        forall|i: int, j: int|
            0 <= i <= j < states.len() ==> rank(#[trigger] states[i]) <= rank(#[trigger] states[j]),
    ensures
        0 <= count_below(states, bound) <= states.len(),
        forall|k: int|
            0 <= k < states.len() ==> (k < count_below(states, bound) <==> rank(
                #[trigger] states[k],
            ) < bound),
    decreases states.len(),
{
    if states.len() > 0 {
        let init = states.drop_last();
        let last = states.len() - 1;
        assert forall|i: int, j: int| 0 <= i <= j < init.len() implies rank(
            #[trigger] init[i],
        ) <= rank(#[trigger] init[j]) by {
            assert(init[i] == states[i]);
            assert(init[j] == states[j]);
        }
        lemma_count_below(init, bound);
        assert forall|k: int| 0 <= k < states.len() implies (k < count_below(states, bound) <==> rank(
            #[trigger] states[k],
        ) < bound) by {
            if k < last {
                assert(init[k] == states[k]);
                assert(rank(states[k]) <= rank(states[last]));
            } else if rank(states[last]) < bound && last > 0 {
                assert(init[last - 1] == states[last - 1]);
                assert(rank(states[last - 1]) <= rank(states[last]));
            }
        }
    }
}

/// The states of a run never go back: a later state is the same as an
/// earlier one or further along.
pub proof fn lemma_run_never_backward(
    start: HttpState,
    reports: Seq<SocketStatus>,
    i: int,
    j: int,
)
    requires
        0 <= i <= j <= reports.len(),
    ensures
        rank(run(start, reports)[i]) <= rank(run(start, reports)[j]),
{
    lemma_run_unfolds(start, reports);
    lemma_never_backward(run(start, reports), i, j);
}

/// A fetch that reaches `Done` has gone through exactly `Connect`, then
/// `Request`, then `Response` once or more, then `Done`, in this order and
/// with nothing in between.
pub proof fn lemma_successful_run(reports: Seq<SocketStatus>)
    requires
        run(HttpState::Connect, reports).last() == HttpState::Done,
    ensures
        exists|a: int, b: int, c: int| has_shape(run(HttpState::Connect, reports), a, b, c),
{
    let states = run(HttpState::Connect, reports);
    lemma_run_unfolds(HttpState::Connect, reports);
    assert forall|i: int, j: int| 0 <= i <= j < states.len() implies rank(#[trigger] states[i])
        <= rank(#[trigger] states[j]) by {
        lemma_never_backward(states, i, j);
    }
    let a = count_below(states, 1);
    let b = count_below(states, 2);
    let c = count_below(states, 3);
    lemma_count_below(states, 1);
    lemma_count_below(states, 2);
    lemma_count_below(states, 3);
    let last = states.len() - 1;
    assert(rank(states[last]) == 3);
    assert(rank(states[0]) == 0);
    assert(0 < a <= last);
    assert(moves_on(states, a - 1));
    assert(rank(states[a - 1]) < 1);
    assert(rank(states[a]) == 1);
    assert(a < b <= last);
    assert(moves_on(states, b - 1));
    assert(rank(states[b - 1]) < 2);
    assert(rank(states[b]) == 2);
    assert(b < c <= last);
    assert forall|k: int| 0 <= k < states.len() implies (k < a ==> states[k] == HttpState::Connect)
        && (a <= k < b ==> states[k] == HttpState::Request) && (b <= k < c ==> states[k]
        == HttpState::Response) && (c <= k ==> states[k] == HttpState::Done) by {
        let r = rank(states[k]);
        assert(0 <= r <= 3);
    }
    assert(has_shape(states, a, b, c));
}

} // verus!
