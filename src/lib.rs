//! Round synchronization ("pacemaker") for a BFT consensus protocol of the
//! HotStuff family: which round and leader are active, when to propose, when to
//! time out, and when to ask peers for missing records.

pub mod types;
pub mod record_store;
pub mod pacemaker;
pub mod laws;
