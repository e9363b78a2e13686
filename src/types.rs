//! Scalar types shared by the pacemaker and the record store.
use vstd::prelude::*;

verus! {

/// Largest value of a time or a duration; also the "never" time.
pub const TIME_MAX: i64 = 0x7fff_ffff_ffff_ffff;

/// A non-negative span of node-local time.
pub type Duration = i64;

/// Identifier of a consensus participant.
#[derive(Debug, Clone, Copy, PartialEq, Eq, Structural, Hash)]
pub struct Author(pub u64);

/// Configuration epoch of the validator set.
#[derive(Debug, Clone, Copy, PartialEq, Eq, Structural, Hash, PartialOrd, Ord)]
pub struct EpochId(pub u64);

/// One attempt at agreeing on the next block within an epoch.
#[derive(Debug, Clone, Copy, PartialEq, Eq, Structural, Hash, PartialOrd, Ord)]
pub struct Round(pub u64);

/// Opaque reference to a quorum certificate.
#[derive(Debug, Clone, Copy, PartialEq, Eq, Structural, Hash)]
pub struct QuorumCertificateHash(pub u64);

/// Opaque reference to a block.
#[derive(Debug, Clone, Copy, PartialEq, Eq, Structural, Hash)]
pub struct BlockHash(pub u64);

/// Node-local time. `TIME_MAX` stands for "never": it is above every finite time.
#[derive(Debug, Clone, Copy, PartialEq, Eq, Structural, Hash, PartialOrd, Ord)]
pub struct NodeTime(pub i64);

/// A time plus a non-negative duration, held at "never" rather than overflowing.
pub open spec fn time_after(t: int, d: int) -> int {
    if t + d > TIME_MAX {
        TIME_MAX as int
    } else {
        t + d
    }
}

impl NodeTime {
    /// The time that no clock reaches.
    pub fn never() -> (r: NodeTime)
        ensures
            r.0 == TIME_MAX,
    {
        NodeTime(TIME_MAX)
    }

    pub open spec fn is_never(self) -> bool {
        self.0 == TIME_MAX
    }

    /// This time advanced by `d`; a sum beyond the largest time is "never".
    pub fn add(self, d: Duration) -> (r: NodeTime)
        requires
            d >= 0,
        ensures
            r.0 == time_after(self.0 as int, d as int),
    {
        if self.0 > TIME_MAX - d {
            NodeTime(TIME_MAX)
        } else {
            NodeTime(self.0 + d)
        }
    }

    /// The earlier of two times.
    pub fn earliest(self, other: NodeTime) -> (r: NodeTime)
        ensures
            r.0 == if self.0 <= other.0 { self.0 } else { other.0 },
    {
        if self.0 <= other.0 {
            self
        } else {
            other
        }
    }
}

/// A non-negative rational coefficient `numerator / denominator`.
#[derive(Debug, Clone, Copy, PartialEq, Eq, Structural, Hash)]
pub struct Ratio {
    pub numerator: u64,
    pub denominator: u64,
}

} // verus!
