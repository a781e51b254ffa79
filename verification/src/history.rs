//! Sequences of calls on a router, for statements about everything that can
//! have happened to it.

use vstd::prelude::*;
use crate::model::RouterState;
use crate::msg::{Callback, PeerMsg, RaftCmdRequest, StoreMsg, ThreadReadId};
use crate::peer::PeerFsm;

verus! {

/// One call on a router, with its arguments.
pub enum Event {
    /// A replica was registered.
    Register(PeerFsm),
    /// The entry of a region was marked closed.
    MarkClosed(u64),
    /// A region was closed.
    Close(u64),
    /// A message was sent to a region.
    Send(u64, PeerMsg),
    /// A message was sent to the store.
    SendStore(StoreMsg),
    /// A broadcast visited the given regions and produced the given messages.
    Broadcast(Seq<u64>, Seq<PeerMsg>),
    /// A read was handed to the local reader.
    Read(Option<ThreadReadId>, RaftCmdRequest, Callback),
    /// The consumer took from the region queue.
    RecvPeerMsg,
    /// The consumer took from the store queue.
    RecvStoreMsg,
    /// The local reader took a read.
    TakeRead,
}

impl Event {
    /// Whether the event registers a replica of the region.
    pub open spec fn registers(self, region_id: u64) -> bool {
        self matches Event::Register(peer) && peer.region_id == region_id
    }
}

impl RouterState {
    /// The state after one call.
    pub open spec fn step(self, event: Event) -> RouterState {
        match event {
            Event::Register(peer) => self.after_register(peer),
            Event::MarkClosed(region_id) => self.after_mark_closed(region_id),
            Event::Close(region_id) => self.after_close(region_id),
            Event::Send(region_id, msg) => self.after_send(region_id, msg),
            Event::SendStore(msg) => self.after_send_store(msg),
            Event::Broadcast(order, msgs) => self.after_broadcast(order, msgs),
            Event::Read(read_id, req, cb) => self.after_read(read_id, req, cb),
            Event::RecvPeerMsg => self.after_recv_peer_msg(),
            Event::RecvStoreMsg => self.after_recv_store_msg(),
            Event::TakeRead => self.after_take_read(),
        }
    }

    /// The state after the calls of `events`, made one after the other.
    pub open spec fn run(self, events: Seq<Event>) -> RouterState
        decreases events.len(),
    {
        if events.len() == 0 {
            self
        } else {
            self.run(events.drop_last()).step(events.last())
        }
    }
}

/// Whether none of the events registers a replica of the region.
pub open spec fn never_registers(events: Seq<Event>, region_id: u64) -> bool {
    forall|i: int| 0 <= i < events.len() ==> !(#[trigger] events[i]).registers(region_id)
}

/// The events of sending each of `sends`, in order.
pub open spec fn send_events(sends: Seq<(u64, PeerMsg)>) -> Seq<Event> {
    Seq::new(sends.len(), |i: int| Event::Send(sends[i].0, sends[i].1))
}

} // verus!
