//! The messages that a router carries.
//!
//! All of them are plain values: a router never looks inside a payload, it
//! only reads the region a message is addressed to and moves the message on.

use vstd::prelude::*;

verus! {

/// A decoded raft message that arrived from another store.
#[derive(Clone, Debug, PartialEq, Eq)]
pub struct RaftMessage {
    /// The region whose replica the message is addressed to.
    pub region_id: u64,
    /// The replica that sent the message.
    pub from_peer: u64,
    /// The replica that is to receive it.
    pub to_peer: u64,
    /// The raft payload, which the router never reads.
    pub payload: Vec<u8>,
}

impl RaftMessage {
    /// The region the message is addressed to.
    pub fn get_region_id(&self) -> (id: u64)
        ensures
            id == self.region_id,
    {
        self.region_id
    }
}

/// A client or administrative request for one region.
#[derive(Clone, Debug, PartialEq, Eq)]
pub struct RaftCmdRequest {
    /// The region named in the request's header.
    pub region_id: u64,
    /// The encoded requests, which the router never reads.
    pub payload: Vec<u8>,
}

impl RaftCmdRequest {
    /// The region named in the request's header.
    pub fn get_region_id(&self) -> (id: u64)
        ensures
            id == self.region_id,
    {
        self.region_id
    }
}

/// The completion callback of a request, held as the token under which the
/// issuer of the request keeps the function to call. The consumer of the
/// request resolves the token exactly once; a router only carries it.
#[derive(Clone, Copy, Debug, PartialEq, Eq)]
pub enum Callback {
    /// Nobody waits for the outcome.
    Empty,
    /// A read is waiting under this token.
    Read(u64),
    /// A write is waiting under this token.
    Write(u64),
}

/// The point in time after which a request need not be served any more, in
/// milliseconds of the store's monotonic clock.
#[derive(Clone, Copy, Debug, PartialEq, Eq)]
pub struct Deadline {
    pub millis: u64,
}

/// The token of a read lease: reads that carry the same token may be served
/// from one snapshot.
#[derive(Clone, Copy, Debug, PartialEq, Eq)]
pub struct ThreadReadId {
    pub sequence: u64,
}

/// A proposal: a request together with its completion callback and, where the
/// issuer set one, its deadline.
#[derive(Clone, Debug, PartialEq, Eq)]
pub struct RaftCommand {
    pub request: RaftCmdRequest,
    pub callback: Callback,
    pub deadline: Option<Deadline>,
}

impl RaftCommand {
    /// A proposal without a deadline.
    pub fn new(request: RaftCmdRequest, callback: Callback) -> (cmd: RaftCommand)
        ensures
            cmd == (RaftCommand { request, callback, deadline: None }),
    {
        RaftCommand { request, callback, deadline: None }
    }
}

/// A best-effort notification for one region. It may be dropped by its
/// consumer without harm.
#[derive(Clone, Copy, Debug, PartialEq, Eq)]
pub enum CasualMessage {
    /// The approximate size of the region, in bytes.
    RegionApproximateSize { size: u64 },
    /// The approximate number of keys in the region.
    RegionApproximateKeys { keys: u64 },
    /// A hint that the region should be split in the middle.
    HalfSplitRegion,
    /// The cached size of the region is stale.
    ClearRegionSize,
}

/// An event that the failure detection of raft depends on. It must reach the
/// region or come back to the sender; it is never dropped in silence.
#[derive(Clone, Copy, Debug, PartialEq, Eq)]
pub enum SignificantMsg {
    /// No replica on the given store can be reached.
    StoreUnreachable { store_id: u64 },
    /// One replica of the region cannot be reached.
    Unreachable { region_id: u64, to_peer_id: u64 },
}

/// What the replica of one region can be handed.
#[derive(Clone, Debug, PartialEq, Eq)]
pub enum PeerMsg {
    /// A raft message from another store.
    RaftMessage(RaftMessage),
    /// A proposal of a client.
    RaftCommand(RaftCommand),
    /// An event that must not be lost.
    SignificantMsg(SignificantMsg),
    /// A notification that may be lost.
    CasualMessage(CasualMessage),
    /// The replica's timer fired.
    Tick,
    /// The replica is to start.
    Start,
}

/// What the store as a whole can be handed.
#[derive(Clone, Debug, PartialEq, Eq)]
pub enum StoreMsg {
    /// A raft message for a region that the store may still have to create.
    RaftMessage(RaftMessage),
    /// No replica on the given store can be reached.
    StoreUnreachable { store_id: u64 },
    /// The store's timer fired.
    Tick,
    /// The store is to start.
    Start,
}

} // verus!
