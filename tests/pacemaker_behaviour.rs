use std::collections::hash_map::DefaultHasher;
use std::hash::{Hash, Hasher};

use librabft_pacemaker::pacemaker::{Pacemaker, PacemakerState, PacemakerUpdateActions};
use librabft_pacemaker::record_store::{RecordStore, SnapshotStore};
use librabft_pacemaker::types::{
    Author, BlockHash, EpochId, NodeTime, QuorumCertificateHash, Ratio, Round,
};

const HALF: Ratio = Ratio { numerator: 1, denominator: 2 };

fn store(qc: u64, tc: u64, committed: u64) -> SnapshotStore {
    SnapshotStore {
        highest_qc_round: Round(qc),
        highest_tc_round: Round(tc),
        highest_committed_round: Round(committed),
        highest_qc_hash: QuorumCertificateHash(77),
        timeouts: Vec::new(),
        proposals: Vec::new(),
        num_authors: 1,
    }
}

fn fresh() -> PacemakerState {
    PacemakerState::new(EpochId(1), NodeTime(0), 1000, 2, HALF)
}

#[test]
fn leader_proposes_in_first_round() {
    let mut pm = fresh();
    let s = store(0, 0, 0);
    let a = pm.update_pacemaker(Author(0), EpochId(1), &s, NodeTime(0), NodeTime(0));
    assert_eq!(pm.active_round(), Round(1));
    assert_eq!(pm.active_epoch(), EpochId(1));
    assert_eq!(pm.active_leader(), Some(Author(0)));
    assert_eq!(a.should_propose_block, Some(QuorumCertificateHash(77)));
    assert!(a.should_broadcast);
    assert!(a.should_send.is_empty());
    assert_eq!(a.should_create_timeout, None);
    assert!(!a.should_query_all);
    assert_eq!(a.next_scheduled_update, NodeTime(0));
}

#[test]
fn follower_syncs_with_leader_and_waits() {
    let mut pm = fresh();
    let s = store(0, 0, 0);
    let a = pm.update_pacemaker(Author(1), EpochId(1), &s, NodeTime(0), NodeTime(0));
    assert_eq!(pm.active_round(), Round(1));
    assert_eq!(a.should_send, vec![Author(0)]);
    assert_eq!(a.should_propose_block, None);
    assert!(!a.should_broadcast);
    assert_eq!(a.should_create_timeout, None);
    assert_eq!(a.next_scheduled_update, NodeTime(1000));
}

#[test]
fn timeout_after_round_deadline() {
    let mut pm = fresh();
    let s = store(0, 0, 0);
    pm.update_pacemaker(Author(1), EpochId(1), &s, NodeTime(0), NodeTime(0));
    let a = pm.update_pacemaker(Author(1), EpochId(1), &s, NodeTime(0), NodeTime(1500));
    assert_eq!(a.should_create_timeout, Some(Round(1)));
    assert!(a.should_broadcast);
    assert!(a.should_send.is_empty());
    assert_eq!(a.next_scheduled_update, NodeTime::never());
}

#[test]
fn wake_up_at_deadline_creates_timeout() {
    let mut pm = fresh();
    let s = store(0, 0, 0);
    let a = pm.update_pacemaker(Author(1), EpochId(1), &s, NodeTime(0), NodeTime(0));
    let b = pm.update_pacemaker(Author(1), EpochId(1), &s, NodeTime(0), a.next_scheduled_update);
    assert_eq!(b.should_create_timeout, Some(Round(1)));
}

#[test]
fn no_second_timeout_then_query_all() {
    let mut pm = fresh();
    let mut s = store(0, 0, 0);
    pm.update_pacemaker(Author(1), EpochId(1), &s, NodeTime(0), NodeTime(0));
    s.timeouts.push((Author(1), Round(1)));
    let a = pm.update_pacemaker(Author(1), EpochId(1), &s, NodeTime(0), NodeTime(2000));
    assert_eq!(a.should_create_timeout, None);
    assert!(!a.should_broadcast);
    assert!(a.should_query_all);
    // period = 1000 / 2
    assert_eq!(a.next_scheduled_update, NodeTime(2500));
}

#[test]
fn query_all_waits_for_its_period() {
    let mut pm = fresh();
    let mut s = store(0, 0, 0);
    pm.update_pacemaker(Author(1), EpochId(1), &s, NodeTime(0), NodeTime(0));
    s.timeouts.push((Author(1), Round(1)));
    let a = pm.update_pacemaker(Author(1), EpochId(1), &s, NodeTime(1800), NodeTime(2000));
    assert!(!a.should_query_all);
    assert_eq!(a.next_scheduled_update, NodeTime(2300));
    let b = pm.update_pacemaker(Author(1), EpochId(1), &s, NodeTime(1800), a.next_scheduled_update);
    assert!(b.should_query_all);
}

#[test]
fn leader_proposes_once() {
    let mut pm = fresh();
    let mut s = store(0, 0, 0);
    let a = pm.update_pacemaker(Author(0), EpochId(1), &s, NodeTime(0), NodeTime(0));
    assert!(a.should_propose_block.is_some());
    s.proposals.push((EpochId(1), Round(1), BlockHash(5)));
    let b = pm.update_pacemaker(Author(0), EpochId(1), &s, NodeTime(0), NodeTime(10));
    assert_eq!(b.should_propose_block, None);
    assert!(!b.should_broadcast);
    assert_eq!(b.next_scheduled_update, NodeTime(1000));
}

#[test]
fn durations_back_off_without_commit() {
    let mut pm = fresh();
    let s = store(3, 0, 0);
    let a = pm.update_pacemaker(Author(1), EpochId(1), &s, NodeTime(0), NodeTime(100));
    assert_eq!(pm.active_round(), Round(4));
    // 1000 * 4^2
    assert_eq!(a.next_scheduled_update, NodeTime(16100));
}

#[test]
fn durations_reset_after_commit() {
    let mut pm = fresh();
    let s = store(7, 0, 5);
    let a = pm.update_pacemaker(Author(1), EpochId(1), &s, NodeTime(0), NodeTime(100));
    assert_eq!(pm.active_round(), Round(8));
    assert_eq!(a.next_scheduled_update, NodeTime(1100));
    let mut old = fresh();
    let b = old.update_pacemaker(Author(1), EpochId(1), &store(7, 0, 0), NodeTime(0), NodeTime(100));
    // 1000 * 8^2 against the baseline of no commit
    assert_eq!(b.next_scheduled_update, NodeTime(64100));
}

#[test]
fn timeout_certificate_advances_round() {
    let mut pm = fresh();
    let a = pm.update_pacemaker(Author(1), EpochId(1), &store(1, 2, 0), NodeTime(0), NodeTime(0));
    assert_eq!(pm.active_round(), Round(3));
    // 1000 * 3^2
    assert_eq!(a.next_scheduled_update, NodeTime(9000));
}

#[test]
fn round_and_epoch_never_go_back() {
    let mut pm = fresh();
    pm.update_pacemaker(Author(1), EpochId(1), &store(4, 0, 0), NodeTime(0), NodeTime(0));
    assert_eq!(pm.active_round(), Round(5));
    let a = pm.update_pacemaker(Author(1), EpochId(1), &store(2, 0, 0), NodeTime(0), NodeTime(10));
    assert_eq!(pm.active_round(), Round(5));
    assert!(a.should_send.is_empty());
    pm.update_pacemaker(Author(1), EpochId(0), &store(9, 0, 0), NodeTime(0), NodeTime(20));
    assert_eq!(pm.active_epoch(), EpochId(1));
    assert_eq!(pm.active_round(), Round(5));
    let b = pm.update_pacemaker(Author(1), EpochId(2), &store(0, 0, 0), NodeTime(0), NodeTime(30));
    assert_eq!(pm.active_epoch(), EpochId(2));
    assert_eq!(pm.active_round(), Round(1));
    assert_eq!(b.should_send, vec![Author(0)]);
    assert_eq!(b.next_scheduled_update, NodeTime(1030));
}

#[test]
fn leader_follows_default_hasher_digest() {
    let mut s = store(0, 0, 0);
    s.num_authors = 1_000_003;
    for r in [0u64, 1, 2, 17, 255, 256, 1 << 40, u64::MAX] {
        let mut h = DefaultHasher::new();
        r.hash(&mut h);
        let expected = Author(h.finish() % 1_000_003);
        assert_eq!(PacemakerState::leader(&s, Round(r)), expected);
        assert_eq!(PacemakerState::leader(&s, Round(r)), PacemakerState::leader(&s, Round(r)));
    }
}

#[test]
fn huge_durations_saturate_to_never() {
    let mut pm = PacemakerState::new(EpochId(1), NodeTime(0), i64::MAX / 2, 2, HALF);
    let a = pm.update_pacemaker(Author(1), EpochId(1), &store(3, 0, 0), NodeTime(0), NodeTime(5));
    assert_eq!(a.next_scheduled_update, NodeTime::never());
    let b = pm.update_pacemaker(Author(1), EpochId(1), &store(3, 0, 0), NodeTime(0), NodeTime(i64::MAX - 1));
    assert_eq!(b.should_create_timeout, None);
}

#[test]
fn zero_exponent_keeps_delta() {
    let mut pm = PacemakerState::new(EpochId(1), NodeTime(0), 1000, 0, HALF);
    let a = pm.update_pacemaker(Author(1), EpochId(1), &store(9, 0, 0), NodeTime(0), NodeTime(0));
    assert_eq!(a.next_scheduled_update, NodeTime(1000));
}

#[test]
fn new_state_and_actions_are_idle() {
    let pm = fresh();
    assert_eq!(pm.active_epoch(), EpochId(1));
    assert_eq!(pm.active_round(), Round(0));
    assert_eq!(pm.active_leader(), None);
    let a = PacemakerUpdateActions::new();
    assert_eq!(a.should_propose_block, None);
    assert_eq!(a.should_create_timeout, None);
    assert!(a.should_send.is_empty());
    assert!(!a.should_broadcast);
    assert!(!a.should_query_all);
    assert_eq!(a.next_scheduled_update, NodeTime(i64::MAX));
}

#[test]
fn time_addition_saturates() {
    assert_eq!(NodeTime(5).add(7), NodeTime(12));
    assert_eq!(NodeTime(i64::MAX - 3).add(10), NodeTime::never());
    assert_eq!(NodeTime(3).earliest(NodeTime(2)), NodeTime(2));
}

#[test]
fn snapshot_store_answers() {
    let mut s = store(4, 6, 2);
    s.timeouts.push((Author(3), Round(5)));
    s.proposals.push((EpochId(1), Round(5), BlockHash(8)));
    s.proposals.push((EpochId(1), Round(5), BlockHash(9)));
    s.num_authors = 4;
    assert_eq!(s.highest_quorum_certificate_round(), Round(4));
    assert_eq!(s.highest_timeout_certificate_round(), Round(6));
    assert_eq!(s.highest_committed_round(), Round(2));
    assert_eq!(s.highest_quorum_certificate_hash(), QuorumCertificateHash(77));
    assert!(s.has_timeout(Author(3), Round(5)));
    assert!(!s.has_timeout(Author(3), Round(6)));
    assert_eq!(s.proposed_block(EpochId(1), Round(5)), Some(BlockHash(8)));
    assert_eq!(s.proposed_block(EpochId(2), Round(5)), None);
    assert_eq!(s.pick_author(10), Author(2));
}
