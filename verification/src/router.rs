//! The router: the routing table together with the queue of the store and
//! the queue of the regions.

use vstd::prelude::*;
use dashmap::DashMap;
use crate::capability::{CasualRouter, ProposalRouter, RaftStoreRouter, Routing, StoreRouter};
use crate::channel::Channel;
use crate::errors::{Error, RaftStoreResult};
use crate::model::{deliveries, RouterState};
use crate::msg::{CasualMessage, PeerMsg, RaftCommand, RaftMessage, SignificantMsg, StoreMsg};
use crate::peer::{Applier, PeerFsm, PeerStates};
use crate::table::{table_entries, table_get, table_insert, table_keys, table_new, table_remove};

verus! {

/// Delivers each message to the queue of the region it is addressed to, as
/// long as that region is registered and open.
pub struct RaftRouter {
    pub(crate) store_sender: Channel<StoreMsg>,
    pub(crate) peers: DashMap<u64, PeerStates>,
    pub(crate) peer_sender: Channel<(u64, PeerMsg)>,
}

impl Routing for RaftRouter {
    closed spec fn state(&self) -> RouterState {
        RouterState {
            black_hole: false,
            regions: table_entries(self.peers),
            peer_queue: self.peer_sender@,
            store_queue: self.store_sender@,
            local_reads: Seq::empty(),
        }
    }
}

impl RaftRouter {
    /// Routing is never switched off in a router of this type, and it has no
    /// local reader.
    pub proof fn lemma_routing_is_on(&self)
        ensures
            !self.state().black_hole,
            self.state().local_reads =~= Seq::empty(),
    {
    }

    /// A router without regions, which sends into the two given channels.
    pub fn new(peer_sender: Channel<(u64, PeerMsg)>, store_sender: Channel<StoreMsg>) -> (router: Self)
        ensures
            router.state() == RouterState::fresh(peer_sender@, store_sender@),
    {
        Self { store_sender, peers: table_new(), peer_sender }
    }

    /// The entry of the region, if it is registered.
    pub fn get(&self, region_id: u64) -> (entry: Option<PeerStates>)
        ensures
            entry == self.state().regions.get(region_id),
    {
        table_get(&self.peers, region_id)
    }

    /// Registers a replica: derives its applier and files a fresh, open
    /// entry under the replica's region.
    pub fn register(&mut self, peer: PeerFsm)
        ensures
            final(self).state() == old(self).state().after_register(peer),
    {
        let id = peer.region_id;
        let applier = Applier::new_from_peer(&peer);
        let new_peer = PeerStates::new(applier, peer);
        table_insert(&mut self.peers, id, new_peer);
    }

    /// The first step of closing a region: marks its entry closed, so that
    /// from here on nothing is delivered to it, and says whether there was an
    /// entry to mark. Without one nothing happens.
    pub fn mark_closed(&mut self, id: u64) -> (found: bool)
        ensures
            found == old(self).state().regions.contains_key(id),
            final(self).state() == old(self).state().after_mark_closed(id),
    {
        if let Some(peer) = table_get(&self.peers, id) {
            let marked = PeerStates { applier: peer.applier, peer_fsm: peer.peer_fsm, closed: true };
            table_insert(&mut self.peers, id, marked);
            true
        } else {
            false
        }
    }

    /// Closes a region: marks its entry closed, then removes it. A region
    /// without an entry is left as it is, and so is every other region.
    pub fn close(&mut self, id: u64)
        ensures
            final(self).state() == old(self).state().after_close(id),
            !old(self).state().regions.contains_key(id) ==> final(self).state() == old(self).state(),
    {
        if self.mark_closed(id) {
            table_remove(&mut self.peers, id);
        }
    }

    /// Sends `msg` to the region `id`: queues it where the region is
    /// registered and open, and returns it inside the error where not.
    pub fn send(&mut self, id: u64, msg: PeerMsg) -> (r: RaftStoreResult<()>)
        ensures
            r == old(self).state().send_result(id, msg),
            final(self).state() == old(self).state().after_send(id, msg),
    {
        if let Some(peer) = table_get(&self.peers, id) {
            if !peer.closed {
                self.peer_sender.send((id, msg));
                return Ok(());
            }
        }
        Err(Error::RegionNotFound(id, Some(msg)))
    }

    /// Sends `msg` to the store.
    pub fn send_store(&mut self, msg: StoreMsg)
        ensures
            final(self).state() == old(self).state().after_send_store(msg),
    {
        self.store_sender.send(msg);
    }

    /// Takes the oldest message that is queued for a region, with the region
    /// it is addressed to. This is the consumer's end of the region queue.
    pub fn recv_peer_msg(&mut self) -> (item: Option<(u64, PeerMsg)>)
        ensures
            item == old(self).state().next_peer_msg(),
            final(self).state() == old(self).state().after_recv_peer_msg(),
    {
        self.peer_sender.try_recv()
    }

    /// Takes the oldest message that is queued for the store. This is the
    /// consumer's end of the store queue.
    pub fn recv_store_msg(&mut self) -> (item: Option<StoreMsg>)
        ensures
            item == old(self).state().next_store_msg(),
            final(self).state() == old(self).state().after_recv_store_msg(),
    {
        self.store_sender.try_recv()
    }
}

impl StoreRouter for RaftRouter {
    fn send(&mut self, msg: StoreMsg) {
        self.send_store(msg)
    }
}

impl ProposalRouter for RaftRouter {
    fn send(&mut self, cmd: RaftCommand) -> (r: RaftStoreResult<()>) {
        let region_id = cmd.request.get_region_id();
        RaftRouter::send(self, region_id, PeerMsg::RaftCommand(cmd))
    }
}

impl CasualRouter for RaftRouter {
    fn send(&mut self, region_id: u64, msg: CasualMessage) -> (r: RaftStoreResult<()>) {
        RaftRouter::send(self, region_id, PeerMsg::CasualMessage(msg))
    }
}

impl RaftStoreRouter for RaftRouter {
    fn send_raft_msg(&mut self, msg: RaftMessage) -> (r: RaftStoreResult<()>) {
        let region_id = msg.get_region_id();
        let raft_msg = PeerMsg::RaftMessage(msg);
        RaftRouter::send(self, region_id, raft_msg)
    }

    fn significant_send(&mut self, region_id: u64, msg: SignificantMsg) -> (r: RaftStoreResult<()>) {
        let msg = PeerMsg::SignificantMsg(msg);
        RaftRouter::send(self, region_id, msg)
    }

    fn broadcast_normal<F: FnMut() -> PeerMsg>(&mut self, mut msg_gen: F) {
        let keys = table_keys(&self.peers);
        let ghost before = self.state();
        let ghost generator = msg_gen;
        let ghost mut msgs: Seq<PeerMsg> = Seq::empty();
        let mut i: usize = 0;
        while i < keys.len()
            invariant
                i <= keys.len(),
                call_requires(msg_gen, ()),
                msg_gen == generator,
                msgs.len() == i,
                forall|j: int| 0 <= j < msgs.len() ==> call_ensures(msg_gen, (), #[trigger] msgs[j]),
                self.state() == (RouterState {
                    peer_queue: before.peer_queue + deliveries(keys@.take(i as int), msgs),
                    ..before
                }),
            decreases keys.len() - i,
        {
            let msg = msg_gen();
            proof {
                assert(deliveries(keys@.take(i as int), msgs).push((keys@[i as int], msg))
                    =~= deliveries(keys@.take(i + 1), msgs.push(msg)));
                msgs = msgs.push(msg);
            }
            self.peer_sender.send((keys[i], msg));
            i += 1;
        }
        proof {
            assert(keys@.take(i as int) =~= keys@);
            assert(self.state() == before.after_broadcast(keys@, msgs));
        }
    }
}

} // verus!
