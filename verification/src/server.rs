//! The router that the server holds: the router proper, and beside it the
//! path on which reads go to the local reader without passing a queue of a
//! region.

use vstd::prelude::*;
use crate::capability::{
    CasualRouter, LocalReadRouter, ProposalRouter, RaftStoreRouter, Routing, StoreRouter,
};
use crate::errors::RaftStoreResult;
use crate::model::RouterState;
use crate::msg::{
    Callback, CasualMessage, PeerMsg, RaftCmdRequest, RaftCommand, RaftMessage, SignificantMsg,
    StoreMsg, ThreadReadId,
};
use crate::reader::{LocalReader, ReadTask};
use crate::router::RaftRouter;

verus! {

/// The router of the server: the router proper and the local reader.
pub struct ServerRaftStoreRouter {
    router: RaftRouter,
    local_reader: LocalReader,
}

impl Routing for ServerRaftStoreRouter {
    closed spec fn state(&self) -> RouterState {
        self.router.state().with_reads(self.local_reader@)
    }
}

impl ServerRaftStoreRouter {
    /// Routing is never switched off in a router of this type.
    pub proof fn lemma_routing_is_on(&self)
        ensures
            !self.state().black_hole,
    {
        self.router.lemma_routing_is_on();
    }

    /// Puts a router and a local reader together.
    pub fn new(router: RaftRouter, reader: LocalReader) -> (server: ServerRaftStoreRouter)
        ensures
            server.state() == router.state().with_reads(reader@),
    {
        ServerRaftStoreRouter { router, local_reader: reader }
    }

    /// The router proper, for the calls that only it has: registering and
    /// closing regions, and looking them up. What is done to it is done to
    /// this router; the reads that wait for the local reader are not
    /// touched.
    pub fn router_mut(&mut self) -> (router: &mut RaftRouter)
        ensures
            old(self).state() == router.state().with_reads(old(self).state().local_reads),
            final(self).state() == final(router).state().with_reads(old(self).state().local_reads),
    {
        &mut self.router
    }

    /// Takes the oldest message that is queued for a region.
    pub fn recv_peer_msg(&mut self) -> (item: Option<(u64, PeerMsg)>)
        ensures
            item == old(self).state().next_peer_msg(),
            final(self).state() == old(self).state().after_recv_peer_msg(),
    {
        self.router.recv_peer_msg()
    }

    /// Takes the oldest message that is queued for the store.
    pub fn recv_store_msg(&mut self) -> (item: Option<StoreMsg>)
        ensures
            item == old(self).state().next_store_msg(),
            final(self).state() == old(self).state().after_recv_store_msg(),
    {
        self.router.recv_store_msg()
    }

    /// Takes the oldest read that waits for the local reader.
    pub fn take_read(&mut self) -> (task: Option<ReadTask>)
        ensures
            task == old(self).state().next_read(),
            final(self).state() == old(self).state().after_take_read(),
    {
        self.local_reader.take()
    }
}

impl StoreRouter for ServerRaftStoreRouter {
    fn send(&mut self, msg: StoreMsg)
    {
        StoreRouter::send(&mut self.router, msg)
    }
}

impl ProposalRouter for ServerRaftStoreRouter {
    fn send(&mut self, cmd: RaftCommand) -> (r: RaftStoreResult<()>)
    {
        ProposalRouter::send(&mut self.router, cmd)
    }
}

impl CasualRouter for ServerRaftStoreRouter {
    fn send(&mut self, region_id: u64, msg: CasualMessage) -> (r: RaftStoreResult<()>)
    {
        CasualRouter::send(&mut self.router, region_id, msg)
    }
}

impl RaftStoreRouter for ServerRaftStoreRouter {
    fn send_raft_msg(&mut self, msg: RaftMessage) -> (r: RaftStoreResult<()>)
    {
        RaftStoreRouter::send_raft_msg(&mut self.router, msg)
    }

    fn significant_send(&mut self, region_id: u64, msg: SignificantMsg) -> (r: RaftStoreResult<()>)
    {
        RaftStoreRouter::significant_send(&mut self.router, region_id, msg)
    }

    fn broadcast_normal<F: FnMut() -> PeerMsg>(&mut self, msg_gen: F) {
        let ghost before = self.router.state();
        self.router.broadcast_normal(msg_gen);
        proof {
            old(self).router.lemma_routing_is_on();
            let (order, msgs) = choose|order: Seq<u64>, msgs: Seq<PeerMsg>|
                {
                    &&& before.is_round(order)
                    &&& msgs.len() == order.len()
                    &&& forall|i: int| 0 <= i < msgs.len() ==> call_ensures(msg_gen, (), #[trigger] msgs[i])
                    &&& self.router.state() == before.after_broadcast(order, msgs)
                };
            assert(old(self).state().is_round(order));
            assert(self.state() == old(self).state().after_broadcast(order, msgs));
        }
    }
}

impl LocalReadRouter for ServerRaftStoreRouter {
    fn read(
        &mut self,
        read_id: Option<ThreadReadId>,
        req: RaftCmdRequest,
        cb: Callback,
    ) -> (r: RaftStoreResult<()>) {
        self.local_reader.read(read_id, req, cb);
        Ok(())
    }
}

} // verus!
