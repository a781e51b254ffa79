//! The state of a router as a mathematical value, and what each routing call
//! makes of it. The contracts of the routers are stated over these functions.

use vstd::prelude::*;
use crate::errors::{Error, RaftStoreResult};
use crate::msg::{
    Callback, Deadline, PeerMsg, RaftCmdRequest, RaftCommand, SignificantMsg, StoreMsg, ThreadReadId,
};
use crate::peer::{Applier, PeerFsm, PeerStates};
use crate::reader::{read_task, ReadTask};

verus! {

/// What a router holds at one moment.
#[verifier::ext_equal]
pub struct RouterState {
    /// Whether routing is switched off: such a router accepts every message
    /// and delivers none.
    pub black_hole: bool,
    /// The routing table: the entry of each registered region.
    pub regions: Map<u64, PeerStates>,
    /// The messages sent to regions and not yet taken by their consumer,
    /// oldest first, each with the region it is addressed to.
    pub peer_queue: Seq<(u64, PeerMsg)>,
    /// The messages sent to the store and not yet taken, oldest first.
    pub store_queue: Seq<StoreMsg>,
    /// The reads handed to the local reader and not yet taken, oldest first.
    /// A router without a local reader has none.
    pub local_reads: Seq<ReadTask>,
}

/// The entry that registration makes for a replica.
pub open spec fn entry_of(peer: PeerFsm) -> PeerStates {
    PeerStates::spec_new(Applier::spec_new_from_peer(peer), peer)
}

/// The message that tells a region that a store cannot be reached.
pub open spec fn store_unreachable(store_id: u64) -> PeerMsg {
    PeerMsg::SignificantMsg(SignificantMsg::StoreUnreachable { store_id })
}

/// The message that tells the store that a store cannot be reached.
pub open spec fn store_unreachable_event(store_id: u64) -> StoreMsg {
    StoreMsg::StoreUnreachable { store_id }
}

/// The proposal that is made of a request, its callback and its deadline.
pub open spec fn proposal(request: RaftCmdRequest, callback: Callback, deadline: Option<Deadline>) -> RaftCommand {
    RaftCommand { request, callback, deadline }
}

/// One delivery for each region of `order`: the message at the same place
/// in `msgs`.
pub open spec fn deliveries(order: Seq<u64>, msgs: Seq<PeerMsg>) -> Seq<(u64, PeerMsg)> {
    Seq::new(order.len(), |i: int| (order[i], msgs[i]))
}

impl RouterState {
    /// A router with routing switched on, an empty table, the given queues
    /// and no local reader.
    pub open spec fn fresh(peer_queue: Seq<(u64, PeerMsg)>, store_queue: Seq<StoreMsg>) -> RouterState {
        RouterState {
            black_hole: false,
            regions: Map::empty(),
            peer_queue,
            store_queue,
            local_reads: Seq::empty(),
        }
    }

    /// The same router with `reads` waiting for its local reader.
    pub open spec fn with_reads(self, reads: Seq<ReadTask>) -> RouterState {
        RouterState { local_reads: reads, ..self }
    }

    /// The state of a router with routing switched off.
    pub open spec fn disabled() -> RouterState {
        RouterState {
            black_hole: true,
            regions: Map::empty(),
            peer_queue: Seq::empty(),
            store_queue: Seq::empty(),
            local_reads: Seq::empty(),
        }
    }

    /// Every entry is filed under the region of its own replica, and its
    /// applier is the one that belongs to that replica.
    pub open spec fn wf(self) -> bool {
        forall|region_id: u64| #[trigger]
            self.regions.contains_key(region_id) ==> {
                &&& self.regions[region_id].peer_fsm.region_id == region_id
                &&& self.regions[region_id].applier == Applier::spec_new_from_peer(
                    self.regions[region_id].peer_fsm,
                )
            }
    }

    /// Whether the region is registered and has not been marked closed.
    pub open spec fn is_open(self, region_id: u64) -> bool {
        self.regions.contains_key(region_id) && !self.regions[region_id].closed
    }

    /// Whether a message for the region is accepted.
    pub open spec fn accepts(self, region_id: u64) -> bool {
        self.black_hole || self.is_open(region_id)
    }

    /// What a send of `msg` to the region returns: success where the message
    /// is accepted, else the error that hands the message back.
    pub open spec fn send_result(self, region_id: u64, msg: PeerMsg) -> RaftStoreResult<()> {
        if self.accepts(region_id) {
            Ok(())
        } else {
            Err(Error::RegionNotFound(region_id, Some(msg)))
        }
    }

    /// The state after a send of `msg` to the region: where routing is on and
    /// the region is open, the message has joined the queue behind all
    /// earlier ones; in every other case nothing has changed.
    pub open spec fn after_send(self, region_id: u64, msg: PeerMsg) -> RouterState {
        if !self.black_hole && self.is_open(region_id) {
            RouterState { peer_queue: self.peer_queue.push((region_id, msg)), ..self }
        } else {
            self
        }
    }

    /// The state after a send of `msg` to the store.
    pub open spec fn after_send_store(self, msg: StoreMsg) -> RouterState {
        if self.black_hole {
            self
        } else {
            RouterState { store_queue: self.store_queue.push(msg), ..self }
        }
    }

    /// The state after the registration of `peer`: its region has a fresh,
    /// open entry, which replaces an entry that the region had before.
    pub open spec fn after_register(self, peer: PeerFsm) -> RouterState {
        RouterState { regions: self.regions.insert(peer.region_id, entry_of(peer)), ..self }
    }

    /// The state between the two steps of closing a region: its entry, if it
    /// has one, is marked closed and still in the table.
    pub open spec fn after_mark_closed(self, region_id: u64) -> RouterState {
        if self.regions.contains_key(region_id) {
            RouterState {
                regions: self.regions.insert(
                    region_id,
                    PeerStates { closed: true, ..self.regions[region_id] },
                ),
                ..self
            }
        } else {
            self
        }
    }

    /// The state after the region has been closed: it has no entry. What was
    /// queued for it stays queued, for its consumer to discard.
    pub open spec fn after_close(self, region_id: u64) -> RouterState {
        RouterState { regions: self.regions.remove(region_id), ..self }
    }

    /// The oldest message that is queued for a region, if there is one.
    pub open spec fn next_peer_msg(self) -> Option<(u64, PeerMsg)> {
        if self.peer_queue.len() > 0 {
            Some(self.peer_queue.first())
        } else {
            None
        }
    }

    /// The state after the consumer took the oldest message of the region
    /// queue, or found the queue empty.
    pub open spec fn after_recv_peer_msg(self) -> RouterState {
        if self.peer_queue.len() > 0 {
            RouterState { peer_queue: self.peer_queue.drop_first(), ..self }
        } else {
            self
        }
    }

    /// The oldest message that is queued for the store, if there is one.
    pub open spec fn next_store_msg(self) -> Option<StoreMsg> {
        if self.store_queue.len() > 0 {
            Some(self.store_queue.first())
        } else {
            None
        }
    }

    /// The state after the consumer took the oldest message of the store
    /// queue, or found the queue empty.
    pub open spec fn after_recv_store_msg(self) -> RouterState {
        if self.store_queue.len() > 0 {
            RouterState { store_queue: self.store_queue.drop_first(), ..self }
        } else {
            self
        }
    }

    /// The state after a read was handed to the local reader.
    pub open spec fn after_read(self, read_id: Option<ThreadReadId>, req: RaftCmdRequest, cb: Callback) -> RouterState {
        RouterState { local_reads: self.local_reads.push(read_task(read_id, req, cb)), ..self }
    }

    /// The oldest read that waits for the local reader, if there is one.
    pub open spec fn next_read(self) -> Option<ReadTask> {
        if self.local_reads.len() > 0 {
            Some(self.local_reads.first())
        } else {
            None
        }
    }

    /// The state after the local reader took the oldest read, or found none.
    pub open spec fn after_take_read(self) -> RouterState {
        if self.local_reads.len() > 0 {
            RouterState { local_reads: self.local_reads.drop_first(), ..self }
        } else {
            self
        }
    }

    /// Whether `order` names each registered region exactly once.
    pub open spec fn is_round(self, order: Seq<u64>) -> bool {
        order.no_duplicates() && order.to_set() == self.regions.dom()
    }

    /// The state after a broadcast that visited the regions in `order` and
    /// produced `msgs` for them.
    pub open spec fn after_broadcast(self, order: Seq<u64>, msgs: Seq<PeerMsg>) -> RouterState {
        if self.black_hole {
            self
        } else {
            RouterState { peer_queue: self.peer_queue + deliveries(order, msgs), ..self }
        }
    }
}

} // verus!
