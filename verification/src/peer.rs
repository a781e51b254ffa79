//! What the routing table keeps for each region.

use vstd::prelude::*;

verus! {

/// The replica of one region on this store, as far as routing reads it. The
/// region and its epoch version are fixed when the replica is registered.
#[derive(Clone, Copy, Debug, PartialEq, Eq)]
pub struct PeerFsm {
    /// The region that the replica belongs to.
    pub region_id: u64,
    /// The version of the region's epoch.
    pub region_version: u64,
    /// The replica's own identifier within the region.
    pub peer_id: u64,
}

/// The component that applies the committed log entries of one replica.
#[derive(Clone, Copy, Debug, PartialEq, Eq)]
pub struct Applier {
    pub region_id: u64,
    pub peer_id: u64,
}

impl Applier {
    /// The applier that belongs to `peer`.
    pub open spec fn spec_new_from_peer(peer: PeerFsm) -> Applier {
        Applier { region_id: peer.region_id, peer_id: peer.peer_id }
    }

    /// Derives the applier of a replica.
    pub fn new_from_peer(peer: &PeerFsm) -> (applier: Applier)
        ensures
            applier == Applier::spec_new_from_peer(*peer),
    {
        Applier { region_id: peer.region_id, peer_id: peer.peer_id }
    }
}

/// The entry of one region in the routing table.
#[derive(Clone, Copy, Debug, PartialEq, Eq)]
pub struct PeerStates {
    pub applier: Applier,
    pub peer_fsm: PeerFsm,
    /// Set once the region is being closed; from then on nothing is
    /// delivered to it.
    pub closed: bool,
}

impl PeerStates {
    /// The entry of a replica that has just been registered: open.
    pub open spec fn spec_new(applier: Applier, peer_fsm: PeerFsm) -> PeerStates {
        PeerStates { applier, peer_fsm, closed: false }
    }

    /// A fresh, open entry.
    pub fn new(applier: Applier, peer_fsm: PeerFsm) -> (states: PeerStates)
        ensures
            states == PeerStates::spec_new(applier, peer_fsm),
    {
        PeerStates { applier, peer_fsm, closed: false }
    }
}

} // verus!
