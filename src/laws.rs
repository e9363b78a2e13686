//! Properties of the pacemaker that relate several calls or several inputs.
use vstd::prelude::*;
use crate::pacemaker::{
    actions_match, advances, backoff, commit_baseline, leader_of, must_propose,
    next_view, pow, query_all_deadline, round_deadline, round_duration, timed_out,
    update_allowed, PacemakerUpdateActions, PacemakerView,
};
use crate::record_store::RecordStore;
use crate::types::{Author, EpochId, NodeTime, Round, TIME_MAX};

verus! {

/// An update never moves a node back: its epoch does not decrease, and within
/// an epoch its round does not decrease.
pub proof fn lemma_update_monotone<S: RecordStore>(
    v: PacemakerView,
    epoch_id: EpochId,
    store: S,
    clock: NodeTime,
)
    requires
        update_allowed(v.epoch, v.round, epoch_id, store),
    ensures
        next_view(v, epoch_id, store, clock).epoch.0 >= v.epoch.0,
        next_view(v, epoch_id, store, clock).epoch == v.epoch ==> next_view(
            v,
            epoch_id,
            store,
            clock,
        ).round.0 >= v.round.0,
{
}

/// A second update with the same epoch and records leaves the belief as the
/// first one left it, whatever the clock.
pub proof fn lemma_update_settles<S: RecordStore>(
    v: PacemakerView,
    epoch_id: EpochId,
    store: S,
    clock: NodeTime,
    later: NodeTime,
)
    requires
        update_allowed(v.epoch, v.round, epoch_id, store),
    ensures
        !advances(next_view(v, epoch_id, store, clock), epoch_id, store),
        next_view(next_view(v, epoch_id, store, clock), epoch_id, store, later) == next_view(
            v,
            epoch_id,
            store,
            clock,
        ),
{
}

/// The leader of a round depends only on the round and the store's selection
/// policy: two stores that pick alike elect the same leader.
pub proof fn lemma_leader_deterministic<S: RecordStore, T: RecordStore>(
    s: S,
    t: T,
    round: Round,
)
    requires
        forall|d: u64| #[trigger] s.spec_pick_author(d) == t.spec_pick_author(d),
    ensures
        leader_of(s, round) == leader_of(t, round),
{
    let d = crate::pacemaker::round_digest(round);
    assert(s.spec_pick_author(d) == t.spec_pick_author(d));
}

proof fn lemma_pow_monotone(a: nat, b: nat, e: nat)
    requires
        a <= b,
    ensures
        pow(a, e) <= pow(b, e),
    decreases e,
{
    if e > 0 {
        lemma_pow_monotone(a, b, (e - 1) as nat);
        let pa = pow(a, (e - 1) as nat);
        let pb = pow(b, (e - 1) as nat);
        assert(a * pa <= b * pb) by (nonlinear_arith)
            requires
                a <= b,
                pa <= pb,
        ;
    }
}

proof fn lemma_pow_strict(a: nat, b: nat, e: nat)
    requires
        1 <= a < b,
        e >= 1,
    ensures
        pow(a, e) < pow(b, e),
    decreases e,
{
    lemma_pow_monotone(a, b, (e - 1) as nat);
    let pa = pow(a, (e - 1) as nat);
    let pb = pow(b, (e - 1) as nat);
    crate::pacemaker::lemma_pow_positive(a, (e - 1) as nat);
    assert(a * pa < b * pb) by (nonlinear_arith)
        requires
            a < b,
            1 <= pa <= pb,
    ;
}

proof fn lemma_backoff_strict(delta: int, gamma: nat, n: nat, m: nat)
    requires
        delta > 0,
        gamma >= 1,
        1 <= n < m,
        delta * pow(m, gamma) <= TIME_MAX,
    ensures
        backoff(delta, gamma, n) < backoff(delta, gamma, m),
{
    lemma_pow_strict(n, m, gamma);
    let pn = pow(n, gamma);
    let pm = pow(m, gamma);
    assert(delta * pn < delta * pm) by (nonlinear_arith)
        requires
            delta > 0,
            pn < pm,
    ;
}

proof fn lemma_backoff_monotone(delta: int, gamma: nat, n: nat, m: nat)
    requires
        delta >= 0,
        n <= m,
    ensures
        backoff(delta, gamma, n) <= backoff(delta, gamma, m),
{
    lemma_pow_monotone(n, m, gamma);
    let pn = pow(n, gamma);
    let pm = pow(m, gamma);
    assert(delta * pn <= delta * pm) by (nonlinear_arith)
        requires
            delta >= 0,
            pn <= pm,
    ;
}

/// Round durations grow with the round: they never shrink as the round rises
/// over a fixed commit baseline, they grow strictly for an exponent above one
/// until they reach the largest duration, and the first round past the
/// baseline lasts exactly `delta`.
pub proof fn lemma_backoff_growth(delta: int, gamma: nat, committed: Round, r: Round, s: Round)
    requires
        0 <= delta <= TIME_MAX,
        commit_baseline(committed) < r.0 < s.0,
    ensures
        round_duration(delta, gamma, committed, r) <= round_duration(delta, gamma, committed, s),
        gamma > 1 && delta > 0 && delta * pow(
            (s.0 - commit_baseline(committed)) as nat,
            gamma,
        ) <= TIME_MAX ==> round_duration(delta, gamma, committed, r) < round_duration(
            delta,
            gamma,
            committed,
            s,
        ),
        r.0 == commit_baseline(committed) + 1 ==> round_duration(delta, gamma, committed, r)
            == delta,
{
    let n = (r.0 - commit_baseline(committed)) as nat;
    let m = (s.0 - commit_baseline(committed)) as nat;
    lemma_backoff_monotone(delta, gamma, n, m);
    if gamma > 1 && delta > 0 && delta * pow(m, gamma) <= TIME_MAX {
        lemma_backoff_strict(delta, gamma, n, m);
    }
    lemma_pow_one(gamma);
}

proof fn lemma_pow_one(e: nat)
    ensures
        pow(1, e) == 1,
    decreases e,
{
    if e > 0 {
        lemma_pow_one((e - 1) as nat);
    }
}

/// A commit that raises the baseline shortens the duration of a later round:
/// never longer than against the old baseline, and strictly shorter for a
/// positive `delta` and exponent while the old duration is below the cap.
pub proof fn lemma_reset_on_commit(
    delta: int,
    gamma: nat,
    before: Round,
    after: Round,
    round: Round,
)
    requires
        0 <= delta <= TIME_MAX,
        commit_baseline(before) < commit_baseline(after) < round.0,
    ensures
        round_duration(delta, gamma, after, round) <= round_duration(delta, gamma, before, round),
        gamma >= 1 && delta > 0 && delta * pow((round.0 - commit_baseline(before)) as nat, gamma)
            <= TIME_MAX ==> round_duration(delta, gamma, after, round) < round_duration(
            delta,
            gamma,
            before,
            round,
        ),
{
    let n = (round.0 - commit_baseline(after)) as nat;
    let m = (round.0 - commit_baseline(before)) as nat;
    lemma_backoff_monotone(delta, gamma, n, m);
    if gamma >= 1 && delta > 0 && delta * pow(m, gamma) <= TIME_MAX {
        lemma_backoff_strict(delta, gamma, n, m);
    }
}

/// A leader proposes when the store knows no block of its round, and once the
/// store knows one, a later update in the same round proposes no more.
pub proof fn lemma_propose_once<S: RecordStore>(
    v: PacemakerView,
    local_author: Author,
    epoch_id: EpochId,
    store: S,
    latest: NodeTime,
    clock: NodeTime,
    actions: PacemakerUpdateActions,
)
    requires
        actions_match(
            actions,
            next_view(v, epoch_id, store, clock),
            advances(v, epoch_id, store),
            local_author,
            store,
            latest,
            clock,
        ),
    ensures
        next_view(v, epoch_id, store, clock).leader == Some(local_author) && store.spec_proposed_block(
            next_view(v, epoch_id, store, clock).epoch,
            next_view(v, epoch_id, store, clock).round,
        ).is_none() ==> actions.should_propose_block == Some(
            store.spec_highest_quorum_certificate_hash(),
        ),
        !advances(v, epoch_id, store) && store.spec_proposed_block(v.epoch, v.round).is_some()
            ==> actions.should_propose_block.is_none(),
{
}

/// Once the store holds the node's timeout for its round, a later update in the
/// same round creates none.
pub proof fn lemma_timeout_once<S: RecordStore>(
    v: PacemakerView,
    local_author: Author,
    epoch_id: EpochId,
    store: S,
    latest: NodeTime,
    clock: NodeTime,
    actions: PacemakerUpdateActions,
)
    requires
        actions_match(
            actions,
            next_view(v, epoch_id, store, clock),
            advances(v, epoch_id, store),
            local_author,
            store,
            latest,
            clock,
        ),
    ensures
        !advances(v, epoch_id, store) && store.spec_has_timeout(local_author, v.round)
            ==> actions.should_create_timeout.is_none(),
{
}

/// No wake-up is missed: the next update is scheduled no later than the pending
/// deadline (of the round while no timeout was sent, else of the next
/// query-all), and an update at that time with the same records carries out
/// the pending timeout or query-all.
pub proof fn lemma_schedule_sound<S: RecordStore>(
    v: PacemakerView,
    local_author: Author,
    epoch_id: EpochId,
    store: S,
    latest: NodeTime,
    clock: NodeTime,
    actions: PacemakerUpdateActions,
    later: NodeTime,
    again: PacemakerUpdateActions,
)
    requires
        update_allowed(v.epoch, v.round, epoch_id, store),
        actions_match(
            actions,
            next_view(v, epoch_id, store, clock),
            advances(v, epoch_id, store),
            local_author,
            store,
            latest,
            clock,
        ),
        later == actions.next_scheduled_update,
        actions_match(
            again,
            next_view(next_view(v, epoch_id, store, clock), epoch_id, store, later),
            advances(next_view(v, epoch_id, store, clock), epoch_id, store),
            local_author,
            store,
            latest,
            later,
        ),
    ensures
        ({
            let n = next_view(v, epoch_id, store, clock);
            &&& !timed_out(n, local_author, store) && clock.0 < round_deadline(n)
                ==> actions.next_scheduled_update.0 <= round_deadline(n)
            &&& timed_out(n, local_author, store) && clock.0 < query_all_deadline(n, latest)
                ==> actions.next_scheduled_update.0 <= query_all_deadline(n, latest)
            &&& !must_propose(n, local_author, store) && !timed_out(n, local_author, store)
                && clock.0 < round_deadline(n) ==> again.should_create_timeout == Some(n.round)
            &&& !must_propose(n, local_author, store) && timed_out(n, local_author, store)
                && clock.0 < query_all_deadline(n, latest) ==> again.should_query_all
        }),
{
    lemma_update_settles(v, epoch_id, store, clock, later);
}

} // verus!
