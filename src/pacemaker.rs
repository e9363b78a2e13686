//! The pacemaker state machine: round advancement, leader election, timeout
//! backoff, and the actions handed back to the driver.
use vstd::prelude::*;
use vstd::std_specs::hash::DefaultHasherAdditionalSpecFns;
use std::collections::hash_map::DefaultHasher;
use std::hash::Hasher;
use crate::record_store::RecordStore;
use crate::types::{time_after, Author, Duration, EpochId, NodeTime, QuorumCertificateHash, Ratio, Round, TIME_MAX};

verus! {

/// The eight bytes of `r`, least significant first.
pub open spec fn round_bytes(r: u64) -> Seq<u8> {
    seq![
        (r % 0x100) as u8,
        (r / 0x100 % 0x100) as u8,
        (r / 0x1_0000 % 0x100) as u8,
        (r / 0x100_0000 % 0x100) as u8,
        (r / 0x1_0000_0000 % 0x100) as u8,
        (r / 0x100_0000_0000 % 0x100) as u8,
        (r / 0x1_0000_0000_0000 % 0x100) as u8,
        (r / 0x100_0000_0000_0000 % 0x100) as u8,
    ]
}

/// The digest of a round: std's `DefaultHasher` fed the round's bytes once.
pub open spec fn round_digest(r: Round) -> u64 {
    DefaultHasher::spec_finish(seq![round_bytes(r.0)])
}

/// The leader of `round` under the store's selection policy.
pub open spec fn leader_of<S: RecordStore>(store: S, round: Round) -> Author {
    store.spec_pick_author(round_digest(round))
}

pub open spec fn pow(base: nat, exp: nat) -> nat
    decreases exp,
{
    if exp == 0 {
        1
    } else {
        base * pow(base, (exp - 1) as nat)
    }
}

/// A non-negative amount held at the largest duration.
pub open spec fn saturate(x: int) -> int {
    if x > TIME_MAX {
        TIME_MAX as int
    } else {
        x
    }
}

/// The round below which the commit rule's own certificates cover progress:
/// two past the highest committed round, or zero when nothing is committed.
pub open spec fn commit_baseline(committed: Round) -> int {
    if committed.0 > 0 {
        committed.0 + 2
    } else {
        0
    }
}

/// `floor(delta * n^gamma)`, held at the largest duration.
pub open spec fn backoff(delta: int, gamma: nat, n: nat) -> int {
    saturate(delta * pow(n, gamma))
}

/// Maximal duration of `round` given the store's highest committed round.
pub open spec fn round_duration(delta: int, gamma: nat, committed: Round, round: Round) -> int {
    backoff(delta, gamma, (round.0 - commit_baseline(committed)) as nat)
}

/// `floor(lambda * d)`, held at the largest duration.
pub open spec fn scaled(lambda: Ratio, d: int) -> int {
    saturate(d * lambda.numerator / (lambda.denominator as int))
}

pub(crate) proof fn lemma_pow_positive(base: nat, exp: nat)
    requires
        base >= 1,
    ensures
        pow(base, exp) >= 1,
    decreases exp,
{
    if exp > 0 {
        lemma_pow_positive(base, (exp - 1) as nat);
        assert(base * pow(base, (exp - 1) as nat) >= 1) by (nonlinear_arith)
            requires
                base >= 1,
                pow(base, (exp - 1) as nat) >= 1,
        ;
    }
}

/// One step of the saturated product: capping before or after a factor `n >= 1`
/// gives the same value.
proof fn lemma_saturate_step(delta: int, p: nat, n: nat)
    requires
        delta >= 0,
        n >= 1,
    ensures
        saturate(saturate(delta * p) * n) == saturate(delta * (p * n)),
{
    assert(delta * (p * n) == (delta * p) * n) by (nonlinear_arith);
    if delta * p > TIME_MAX {
        assert((delta * p) * n >= delta * p) by (nonlinear_arith)
            requires
                n >= 1,
                delta * p > TIME_MAX,
        ;
        assert(TIME_MAX * n >= TIME_MAX) by (nonlinear_arith)
            requires
                n >= 1,
        ;
    }
}

} // verus!

verus! {

/// The actions that one update asks the driver to carry out.
#[derive(Debug)]
pub struct PacemakerUpdateActions {
    /// Whether to propose a block and on top of which QC hash.
    pub should_propose_block: Option<QuorumCertificateHash>,
    /// Whether we should create a timeout object for the given round.
    pub should_create_timeout: Option<Round>,
    /// Whether we need to send our records to a subset of nodes.
    pub should_send: Vec<Author>,
    /// Whether we need to broadcast data to all other nodes.
    pub should_broadcast: bool,
    /// Whether we need to request data from all other nodes.
    pub should_query_all: bool,
    /// Time at which to call `update_pacemaker` again, at the latest.
    pub next_scheduled_update: NodeTime,
}

impl PacemakerUpdateActions {
    /// No action, and no wake-up needed.
    pub fn new() -> (r: Self)
        ensures
            r.should_propose_block.is_none(),
            r.should_create_timeout.is_none(),
            r.should_send@.len() == 0,
            !r.should_broadcast,
            !r.should_query_all,
            r.next_scheduled_update.is_never(),
    {
        PacemakerUpdateActions {
            next_scheduled_update: NodeTime::never(),
            should_create_timeout: None,
            should_send: Vec::new(),
            should_broadcast: false,
            should_query_all: false,
            should_propose_block: None,
        }
    }
}

/// What a node believes of the active epoch and round, and its tuning.
pub struct PacemakerView {
    pub epoch: EpochId,
    pub round: Round,
    pub leader: Option<Author>,
    pub start_time: NodeTime,
    pub duration: int,
    pub delta: int,
    pub gamma: nat,
    pub lambda: Ratio,
}

/// The belief of one node about the active epoch, round and leader.
#[derive(Debug)]
pub struct PacemakerState {
    /// Active epoch.
    active_epoch: EpochId,
    /// Active round.
    active_round: Round,
    /// Leader of the active round.
    active_leader: Option<Author>,
    /// Time at which we entered the round.
    active_round_start_time: NodeTime,
    /// Maximal duration of the current round.
    active_round_duration: Duration,
    /// Maximal duration of the first round after a commit rule.
    delta: Duration,
    /// Exponent to increase round durations.
    gamma: u32,
    /// Coefficient to control the frequency of query-all actions.
    lambda: Ratio,
}

impl View for PacemakerState {
    type V = PacemakerView;

    closed spec fn view(&self) -> PacemakerView {
        PacemakerView {
            epoch: self.active_epoch,
            round: self.active_round,
            leader: self.active_leader,
            start_time: self.active_round_start_time,
            duration: self.active_round_duration as int,
            delta: self.delta as int,
            gamma: self.gamma as nat,
            lambda: self.lambda,
        }
    }
}

impl PacemakerView {
    /// Durations are never negative, and the query-all coefficient is a fraction.
    pub open spec fn wf(self) -> bool {
        &&& 0 <= self.duration <= TIME_MAX
        &&& 0 <= self.delta <= TIME_MAX
        &&& self.lambda.denominator > 0
    }
}

impl PacemakerState {
    /// A node at round zero of `epoch_id`, its round started at `node_time`.
    pub fn new(epoch_id: EpochId, node_time: NodeTime, delta: Duration, gamma: u32, lambda: Ratio) -> (r: PacemakerState)
        requires
            delta >= 0,
            lambda.denominator > 0,
        ensures
            r@ == (PacemakerView {
                epoch: epoch_id,
                round: Round(0),
                leader: None,
                start_time: node_time,
                duration: 0,
                delta: delta as int,
                gamma: gamma as nat,
                lambda,
            }),
            r@.wf(),
    {
        PacemakerState {
            active_epoch: epoch_id,
            active_round: Round(0),
            active_leader: None,
            active_round_start_time: node_time,
            active_round_duration: 0,
            delta,
            gamma,
            lambda,
        }
    }

    /// The leader of `round`: the store's pick for the round's digest.
    pub fn leader<S: RecordStore>(record_store: &S, round: Round) -> (r: Author)
        ensures
            r == leader_of(*record_store, round),
    {
        let x = round.0;
        let bytes: [u8; 8] = [
            (x % 0x100) as u8,
            (x / 0x100 % 0x100) as u8,
            (x / 0x1_0000 % 0x100) as u8,
            (x / 0x100_0000 % 0x100) as u8,
            (x / 0x1_0000_0000 % 0x100) as u8,
            (x / 0x100_0000_0000 % 0x100) as u8,
            (x / 0x1_0000_0000_0000 % 0x100) as u8,
            (x / 0x100_0000_0000_0000 % 0x100) as u8,
        ];
        assert(bytes@ =~= round_bytes(x));
        let mut hasher = DefaultHasher::new();
        hasher.write(&bytes);
        assert(hasher@ =~= seq![round_bytes(x)]);
        let digest = hasher.finish();
        record_store.pick_author(digest)
    }

    /// Maximal duration of `round`: `floor(delta * n^gamma)` with `n` the
    /// distance of `round` past the commit baseline.
    fn duration<S: RecordStore>(&self, record_store: &S, round: Round) -> (d: Duration)
        requires
            self@.wf(),
            round.0 > commit_baseline(record_store.spec_highest_committed_round()),
        ensures
            d == round_duration(self@.delta, self@.gamma, record_store.spec_highest_committed_round(), round),
            0 <= d,
    {
        let committed = record_store.highest_committed_round();
        let baseline: u64 = if committed.0 > 0 {
            committed.0 + 2
        } else {
            0
        };
        let n: u64 = round.0 - baseline;
        let ghost delta = self.delta as int;
        let mut acc: u128 = self.delta as u128;
        let mut i: u32 = 0;
        assert(pow(n as nat, 0) == 1);
        while i < self.gamma
            invariant
                0 <= delta <= TIME_MAX,
                n >= 1,
                i <= self.gamma,
                acc == saturate(delta * pow(n as nat, i as nat)),
                0 <= acc <= TIME_MAX,
            decreases self.gamma - i,
        {
            proof {
                lemma_pow_positive(n as nat, i as nat);
                lemma_saturate_step(delta, pow(n as nat, i as nat), n as nat);
                assert(pow(n as nat, (i + 1) as nat) == n * pow(n as nat, i as nat));
                assert(n * pow(n as nat, i as nat) == pow(n as nat, i as nat) * n) by (nonlinear_arith);
                assert(acc * n <= TIME_MAX * 0x1_0000_0000_0000_0000) by (nonlinear_arith)
                    requires
                        acc <= TIME_MAX,
                        n < 0x1_0000_0000_0000_0000,
                ;
            }
            acc = acc * (n as u128);
            if acc > TIME_MAX as u128 {
                acc = TIME_MAX as u128;
            }
            i = i + 1;
        }
        acc as i64
    }
}

} // verus!

verus! {

/// The round that the store's certificates point to: one past the highest
/// quorum or timeout certificate.
pub open spec fn certified_round<S: RecordStore>(store: S) -> int {
    let qc = store.spec_highest_quorum_certificate_round().0;
    let tc = store.spec_highest_timeout_certificate_round().0;
    if qc >= tc {
        qc + 1
    } else {
        tc + 1
    }
}

/// Whether an update moves to a new round: the epoch is newer, or the same
/// epoch's certificates point past the active round.
pub open spec fn advances<S: RecordStore>(v: PacemakerView, epoch_id: EpochId, store: S) -> bool {
    advances_from(v.epoch, v.round, epoch_id, store)
}

pub open spec fn advances_from<S: RecordStore>(
    epoch: EpochId,
    round: Round,
    epoch_id: EpochId,
    store: S,
) -> bool {
    epoch_id.0 > epoch.0 || (epoch_id == epoch && certified_round(store) > round.0)
}

/// What an update may ask of the store: certificate rounds below the largest
/// round, and a new active round beyond the commit baseline.
pub open spec fn update_allowed<S: RecordStore>(
    epoch: EpochId,
    round: Round,
    epoch_id: EpochId,
    store: S,
) -> bool {
    &&& store.spec_highest_quorum_certificate_round().0 < u64::MAX
    &&& store.spec_highest_timeout_certificate_round().0 < u64::MAX
    &&& advances_from(epoch, round, epoch_id, store) ==> certified_round(store) > commit_baseline(
        store.spec_highest_committed_round(),
    )
}

/// The belief after an update: on a new round, the epoch and round adopted, the
/// round started now, its leader and duration computed; otherwise unchanged.
pub open spec fn next_view<S: RecordStore>(
    v: PacemakerView,
    epoch_id: EpochId,
    store: S,
    clock: NodeTime,
) -> PacemakerView {
    if advances(v, epoch_id, store) {
        let round = Round(certified_round(store) as u64);
        PacemakerView {
            epoch: epoch_id,
            round,
            leader: Some(leader_of(store, round)),
            start_time: clock,
            duration: round_duration(v.delta, v.gamma, store.spec_highest_committed_round(), round),
            ..v
        }
    } else {
        v
    }
}

/// Whether the node, leader of its active round, still has to propose.
pub open spec fn must_propose<S: RecordStore>(v: PacemakerView, local_author: Author, store: S) -> bool {
    v.leader == Some(local_author) && store.spec_proposed_block(v.epoch, v.round).is_none()
}

/// Whether the node has already sent its timeout for the active round.
pub open spec fn timed_out<S: RecordStore>(v: PacemakerView, local_author: Author, store: S) -> bool {
    store.spec_has_timeout(local_author, v.round)
}

/// When the active round runs out.
pub open spec fn round_deadline(v: PacemakerView) -> int {
    time_after(v.start_time.0 as int, v.duration)
}

/// How often a node stuck in its round asks every peer for records.
pub open spec fn query_all_period(v: PacemakerView) -> int {
    scaled(v.lambda, v.duration)
}

/// When the next query-all is due after the one at `latest`.
pub open spec fn query_all_deadline(v: PacemakerView, latest: NodeTime) -> int {
    time_after(latest.0 as int, query_all_period(v))
}

/// Whether a timeout for the active round is to be created now.
pub open spec fn must_time_out<S: RecordStore>(
    v: PacemakerView,
    local_author: Author,
    store: S,
    clock: NodeTime,
) -> bool {
    !timed_out(v, local_author, store) && clock.0 >= round_deadline(v)
}

/// Whether a query-all is to be made now.
pub open spec fn must_query_all<S: RecordStore>(
    v: PacemakerView,
    local_author: Author,
    store: S,
    latest: NodeTime,
    clock: NodeTime,
) -> bool {
    timed_out(v, local_author, store) && clock.0 >= query_all_deadline(v, latest)
}

pub open spec fn min_time(a: int, b: int) -> int {
    if a <= b {
        a
    } else {
        b
    }
}

/// The latest time for the next update: now if a proposal is due, the round's
/// deadline while no timeout was sent, else the next query-all.
pub open spec fn next_update<S: RecordStore>(
    v: PacemakerView,
    local_author: Author,
    store: S,
    latest: NodeTime,
    clock: NodeTime,
) -> int {
    let after_proposal = if must_propose(v, local_author, store) {
        clock.0 as int
    } else {
        TIME_MAX as int
    };
    if !timed_out(v, local_author, store) {
        if clock.0 >= round_deadline(v) {
            after_proposal
        } else {
            min_time(after_proposal, round_deadline(v))
        }
    } else if clock.0 >= query_all_deadline(v, latest) {
        min_time(after_proposal, time_after(clock.0 as int, query_all_period(v)))
    } else {
        min_time(after_proposal, query_all_deadline(v, latest))
    }
}

/// The actions of an update that left the node with belief `v`, where
/// `advanced` says whether it moved to a new round.
pub open spec fn actions_match<S: RecordStore>(
    a: PacemakerUpdateActions,
    v: PacemakerView,
    advanced: bool,
    local_author: Author,
    store: S,
    latest: NodeTime,
    clock: NodeTime,
) -> bool {
    &&& a.should_send@ == (if advanced && v.leader != Some(local_author) {
        seq![v.leader.unwrap()]
    } else {
        Seq::<Author>::empty()
    })
    &&& a.should_propose_block == (if must_propose(v, local_author, store) {
        Some(store.spec_highest_quorum_certificate_hash())
    } else {
        None
    })
    &&& a.should_create_timeout == (if must_time_out(v, local_author, store, clock) {
        Some(v.round)
    } else {
        None
    })
    &&& a.should_broadcast == (must_propose(v, local_author, store) || must_time_out(
        v,
        local_author,
        store,
        clock,
    ))
    &&& a.should_query_all == must_query_all(v, local_author, store, latest, clock)
    &&& a.next_scheduled_update.0 == next_update(v, local_author, store, latest, clock)
}

/// The round-synchronization capability that a consensus node drives.
pub trait Pacemaker {
    spec fn spec_active_epoch(&self) -> EpochId;

    spec fn spec_active_round(&self) -> Round;

    spec fn spec_active_leader(&self) -> Option<Author>;

    /// The pacemaker's own invariant.
    spec fn spec_wf(&self) -> bool;

    /// Update our state from the given data and return some action items.
    /// The pair (epoch, round) never goes back, and within an epoch the round
    /// never decreases.
    fn update_pacemaker<S: RecordStore>(
        &mut self,
        local_author: Author,
        epoch_id: EpochId,
        record_store: &S,
        latest_query_all: NodeTime,
        clock: NodeTime,
    ) -> (actions: PacemakerUpdateActions)
        requires
            old(self).spec_wf(),
            update_allowed(
                old(self).spec_active_epoch(),
                old(self).spec_active_round(),
                epoch_id,
                *record_store,
            ),
        ensures
            final(self).spec_wf(),
            final(self).spec_active_epoch().0 >= old(self).spec_active_epoch().0,
            final(self).spec_active_epoch() == old(self).spec_active_epoch()
                ==> final(self).spec_active_round().0 >= old(self).spec_active_round().0,
    ;

    /// Current active epoch.
    fn active_epoch(&self) -> (r: EpochId)
        ensures
            r == self.spec_active_epoch(),
    ;

    /// Current active round.
    fn active_round(&self) -> (r: Round)
        ensures
            r == self.spec_active_round(),
    ;

    /// Leader of the current active round, once known.
    fn active_leader(&self) -> (r: Option<Author>)
        ensures
            r == self.spec_active_leader(),
    ;
}

impl Pacemaker for PacemakerState {
    open spec fn spec_active_epoch(&self) -> EpochId {
        self@.epoch
    }

    open spec fn spec_active_round(&self) -> Round {
        self@.round
    }

    open spec fn spec_active_leader(&self) -> Option<Author> {
        self@.leader
    }

    open spec fn spec_wf(&self) -> bool {
        self@.wf()
    }

    fn update_pacemaker<S: RecordStore>(
        &mut self,
        local_author: Author,
        epoch_id: EpochId,
        record_store: &S,
        latest_query_all_time: NodeTime,
        clock: NodeTime,
    ) -> (actions: PacemakerUpdateActions)
        ensures
            final(self)@ == next_view(old(self)@, epoch_id, *record_store, clock),
            actions_match(
                actions,
                final(self)@,
                advances(old(self)@, epoch_id, *record_store),
                local_author,
                *record_store,
                latest_query_all_time,
                clock,
            ),
    {
        // Initialize actions with default values.
        let mut actions = PacemakerUpdateActions::new();
        // Compute the active round from the current record store.
        let qc_round = record_store.highest_quorum_certificate_round();
        let tc_round = record_store.highest_timeout_certificate_round();
        let active_round = if qc_round.0 >= tc_round.0 {
            Round(qc_round.0 + 1)
        } else {
            Round(tc_round.0 + 1)
        };
        // If the epoch changed or the active round was just updated..
        if epoch_id.0 > self.active_epoch.0 || (epoch_id == self.active_epoch && active_round.0
            > self.active_round.0) {
            // .. store the new value
            self.active_epoch = epoch_id;
            self.active_round = active_round;
            // .. start a timer
            self.active_round_start_time = clock;
            // .. compute the leader
            let leader = Self::leader(record_store, active_round);
            self.active_leader = Some(leader);
            // .. compute the duration
            self.active_round_duration = self.duration(record_store, active_round);
            // .. synchronize with the leader.
            if leader != local_author {
                actions.should_send.push(leader);
                assert(actions.should_send@ =~= seq![leader]);
            }
        }
        assert(actions.should_send@ =~= (if advances(old(self)@, epoch_id, *record_store)
            && self@.leader != Some(local_author) {
            seq![self@.leader.unwrap()]
        } else {
            Seq::<Author>::empty()
        }));
        let round = self.active_round;
        // If we are the leader and have not proposed yet..
        if self.active_leader == Some(local_author) && record_store.proposed_block(
            self.active_epoch,
            round,
        ).is_none() {
            // .. propose a block on top of the highest QC that we know.
            actions.should_propose_block = Some(record_store.highest_quorum_certificate_hash());
            actions.should_broadcast = true;
            // .. force an immediate update to vote on our own proposal.
            actions.next_scheduled_update = clock;
        }
        if !record_store.has_timeout(local_author, round) {
            let timeout_deadline = self.active_round_start_time.add(self.active_round_duration);
            // If we have not created a timeout yet, check if the round has passed its maximal
            // duration. Then, either broadcast a new timeout now, or schedule an update
            // in the future.
            if clock.0 >= timeout_deadline.0 {
                actions.should_create_timeout = Some(round);
                actions.should_broadcast = true;
            } else {
                actions.next_scheduled_update = actions.next_scheduled_update.earliest(
                    timeout_deadline,
                );
            }
        } else {
            // Otherwise, enforce frequent query-all actions if we stay too long on the same round.
            let period = self.query_all_period();
            let mut query_all_deadline = latest_query_all_time.add(period);
            if clock.0 >= query_all_deadline.0 {
                actions.should_query_all = true;
                query_all_deadline = clock.add(period);
            }
            actions.next_scheduled_update = actions.next_scheduled_update.earliest(
                query_all_deadline,
            );
        }
        // Return all computed actions.
        actions
    }

    fn active_epoch(&self) -> (r: EpochId) {
        self.active_epoch
    }

    fn active_round(&self) -> (r: Round) {
        self.active_round
    }

    fn active_leader(&self) -> (r: Option<Author>) {
        self.active_leader
    }
}

impl PacemakerState {
    /// `floor(lambda * duration)` of the active round, held at the largest duration.
    fn query_all_period(&self) -> (p: Duration)
        requires
            self@.wf(),
        ensures
            p == query_all_period(self@),
            p >= 0,
    {
        let d = self.active_round_duration as u128;
        let num = self.lambda.numerator as u128;
        let den = self.lambda.denominator as u128;
        assert(d * num <= TIME_MAX * 0xffff_ffff_ffff_ffff) by (nonlinear_arith)
            requires
                d <= TIME_MAX,
                num <= 0xffff_ffff_ffff_ffff,
        ;
        let q = d * num / den;
        if q > TIME_MAX as u128 {
            TIME_MAX
        } else {
            q as i64
        }
    }
}

} // verus!
