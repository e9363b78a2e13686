//! The read-only view of known records that the pacemaker consults.
use vstd::prelude::*;
use crate::types::{Author, BlockHash, EpochId, QuorumCertificateHash, Round};

verus! {

/// Queries on the certificates, timeouts and proposals known for the current
/// epoch. Every answer is a function of the store's state: two queries on the
/// same store with the same arguments agree.
pub trait RecordStore {
    spec fn spec_highest_quorum_certificate_round(&self) -> Round;

    spec fn spec_highest_timeout_certificate_round(&self) -> Round;

    spec fn spec_highest_committed_round(&self) -> Round;

    spec fn spec_highest_quorum_certificate_hash(&self) -> QuorumCertificateHash;

    spec fn spec_has_timeout(&self, author: Author, round: Round) -> bool;

    spec fn spec_proposed_block(&self, epoch: EpochId, round: Round) -> Option<BlockHash>;

    spec fn spec_pick_author(&self, digest: u64) -> Author;

    /// Round of the highest quorum certificate known.
    fn highest_quorum_certificate_round(&self) -> (r: Round)
        ensures
            r == self.spec_highest_quorum_certificate_round(),
    ;

    /// Round of the highest timeout certificate known.
    fn highest_timeout_certificate_round(&self) -> (r: Round)
        ensures
            r == self.spec_highest_timeout_certificate_round(),
    ;

    /// Highest committed round (zero when nothing is committed).
    fn highest_committed_round(&self) -> (r: Round)
        ensures
            r == self.spec_highest_committed_round(),
    ;

    /// Hash of the quorum certificate of the highest known round.
    fn highest_quorum_certificate_hash(&self) -> (r: QuorumCertificateHash)
        ensures
            r == self.spec_highest_quorum_certificate_hash(),
    ;

    /// Whether a timeout of `author` for `round` is known.
    fn has_timeout(&self, author: Author, round: Round) -> (r: bool)
        ensures
            r == self.spec_has_timeout(author, round),
    ;

    /// The block proposed in `round` of `epoch`, if any.
    fn proposed_block(&self, epoch: EpochId, round: Round) -> (r: Option<BlockHash>)
        ensures
            r == self.spec_proposed_block(epoch, round),
    ;

    /// The author that the store's selection policy maps `digest` to.
    fn pick_author(&self, digest: u64) -> (r: Author)
        ensures
            r == self.spec_pick_author(digest),
    ;
}

/// A record store held as plain values: the highest rounds, the timeouts and
/// proposals known, and `num_authors` authors `Author(0)` ... picked by digest
/// modulo their number.
#[derive(Debug)]
pub struct SnapshotStore {
    pub highest_qc_round: Round,
    pub highest_tc_round: Round,
    pub highest_committed_round: Round,
    pub highest_qc_hash: QuorumCertificateHash,
    pub timeouts: Vec<(Author, Round)>,
    pub proposals: Vec<(EpochId, Round, BlockHash)>,
    pub num_authors: u64,
}

/// The first proposal recorded for `(epoch, round)`, in the order of `proposals`.
pub open spec fn first_proposal(
    proposals: Seq<(EpochId, Round, BlockHash)>,
    epoch: EpochId,
    round: Round,
) -> Option<BlockHash>
    decreases proposals.len(),
{
    if proposals.len() == 0 {
        None
    } else if proposals[0].0 == epoch && proposals[0].1 == round {
        Some(proposals[0].2)
    } else {
        first_proposal(proposals.drop_first(), epoch, round)
    }
}

impl RecordStore for SnapshotStore {
    open spec fn spec_highest_quorum_certificate_round(&self) -> Round {
        self.highest_qc_round
    }

    open spec fn spec_highest_timeout_certificate_round(&self) -> Round {
        self.highest_tc_round
    }

    open spec fn spec_highest_committed_round(&self) -> Round {
        self.highest_committed_round
    }

    open spec fn spec_highest_quorum_certificate_hash(&self) -> QuorumCertificateHash {
        self.highest_qc_hash
    }

    open spec fn spec_has_timeout(&self, author: Author, round: Round) -> bool {
        self.timeouts@.contains((author, round))
    }

    open spec fn spec_proposed_block(&self, epoch: EpochId, round: Round) -> Option<BlockHash> {
        first_proposal(self.proposals@, epoch, round)
    }

    open spec fn spec_pick_author(&self, digest: u64) -> Author {
        if self.num_authors == 0 {
            Author(0)
        } else {
            Author(digest % self.num_authors)
        }
    }

    fn highest_quorum_certificate_round(&self) -> (r: Round) {
        self.highest_qc_round
    }

    fn highest_timeout_certificate_round(&self) -> (r: Round) {
        self.highest_tc_round
    }

    fn highest_committed_round(&self) -> (r: Round) {
        self.highest_committed_round
    }

    fn highest_quorum_certificate_hash(&self) -> (r: QuorumCertificateHash) {
        self.highest_qc_hash
    }

    fn has_timeout(&self, author: Author, round: Round) -> (r: bool) {
        let mut i: usize = 0;
        while i < self.timeouts.len()
            invariant
                i <= self.timeouts@.len(),
                forall|j: int| 0 <= j < i ==> self.timeouts@[j] != (author, round),
            decreases self.timeouts@.len() - i,
        {
            let (a, r) = self.timeouts[i];
            if a == author && r == round {
                return true;
            }
            i = i + 1;
        }
        proof {
            assert(!self.timeouts@.contains((author, round)));
        }
        false
    }

    fn proposed_block(&self, epoch: EpochId, round: Round) -> (r: Option<BlockHash>) {
        let mut i: usize = 0;
        proof {
            assert(self.proposals@.subrange(0, self.proposals@.len() as int) =~= self.proposals@);
        }
        while i < self.proposals.len()
            invariant
                i <= self.proposals@.len(),
                first_proposal(self.proposals@, epoch, round) == first_proposal(
                    self.proposals@.subrange(i as int, self.proposals@.len() as int),
                    epoch,
                    round,
                ),
            decreases self.proposals@.len() - i,
        {
            let (e, r, b) = self.proposals[i];
            proof {
                let rest = self.proposals@.subrange(i as int, self.proposals@.len() as int);
                assert(rest.drop_first() =~= self.proposals@.subrange(
                    i + 1,
                    self.proposals@.len() as int,
                ));
            }
            if e == epoch && r == round {
                return Some(b);
            }
            i = i + 1;
        }
        proof {
            assert(self.proposals@.subrange(i as int, self.proposals@.len() as int).len() == 0);
        }
        None
    }

    fn pick_author(&self, digest: u64) -> (r: Author) {
        if self.num_authors == 0 {
            Author(0)
        } else {
            Author(digest % self.num_authors)
        }
    }
}

} // verus!
