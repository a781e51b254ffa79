//! The capabilities of a router, each a trait of its own: sending to the
//! store, sending a proposal, sending a casual message, and the full surface
//! that the rest of the store depends on.
//!
//! Every method says what it returns and what it makes of the router's state,
//! so code that is generic over a router knows what a call did whichever
//! router it holds.

use vstd::prelude::*;
use crate::errors::RaftStoreResult;
use crate::model::{proposal, store_unreachable, store_unreachable_event, RouterState};
use crate::msg::{
    Callback, CasualMessage, Deadline, PeerMsg, RaftCmdRequest, RaftCommand, RaftMessage,
    SignificantMsg, StoreMsg, ThreadReadId,
};

verus! {

/// A router seen as a value.
pub trait Routing {
    /// What the router holds.
    spec fn state(&self) -> RouterState;
}

/// Sends to the store as a whole.
pub trait StoreRouter: Routing {
    /// Hands `msg` to the store. This cannot fail.
    fn send(&mut self, msg: StoreMsg)
        ensures
            final(self).state() == old(self).state().after_send_store(msg),
    ;
}

/// Sends proposals.
pub trait ProposalRouter: Routing {
    /// Hands `cmd` to the region named in its request, or returns it inside
    /// the error where that region is absent or closed.
    fn send(&mut self, cmd: RaftCommand) -> (r: RaftStoreResult<()>)
        ensures
            r == old(self).state().send_result(cmd.request.region_id, PeerMsg::RaftCommand(cmd)),
            final(self).state() == old(self).state().after_send(
                cmd.request.region_id,
                PeerMsg::RaftCommand(cmd),
            ),
    ;
}

/// Sends casual messages.
pub trait CasualRouter: Routing {
    /// Hands `msg` to the region, or returns it inside the error where the
    /// region is absent or closed.
    fn send(&mut self, region_id: u64, msg: CasualMessage) -> (r: RaftStoreResult<()>)
        ensures
            r == old(self).state().send_result(region_id, PeerMsg::CasualMessage(msg)),
            final(self).state() == old(self).state().after_send(
                region_id,
                PeerMsg::CasualMessage(msg),
            ),
    ;
}

/// Routes messages to the raftstore.
pub trait RaftStoreRouter: StoreRouter + ProposalRouter + CasualRouter + Send {
    /// Sends a raft message to the region it names.
    fn send_raft_msg(&mut self, msg: RaftMessage) -> (r: RaftStoreResult<()>)
        ensures
            r == old(self).state().send_result(msg.region_id, PeerMsg::RaftMessage(msg)),
            final(self).state() == old(self).state().after_send(
                msg.region_id,
                PeerMsg::RaftMessage(msg),
            ),
    ;

    /// Sends a significant message. It is queued for the region or comes
    /// back inside the error: it is never dropped.
    fn significant_send(&mut self, region_id: u64, msg: SignificantMsg) -> (r: RaftStoreResult<()>)
        ensures
            r == old(self).state().send_result(region_id, PeerMsg::SignificantMsg(msg)),
            final(self).state() == old(self).state().after_send(
                region_id,
                PeerMsg::SignificantMsg(msg),
            ),
    ;

    /// Sends a message made by `msg_gen` to every registered region: one call
    /// of `msg_gen` and one delivery for each, in an order that is not
    /// fixed. A router with routing switched off does nothing.
    fn broadcast_normal<F: FnMut() -> PeerMsg>(&mut self, msg_gen: F)
        requires
            call_requires(msg_gen, ()),
        ensures
            old(self).state().black_hole ==> final(self).state() == old(self).state(),
            !old(self).state().black_hole ==> exists|order: Seq<u64>, msgs: Seq<PeerMsg>|
                {
                    &&& old(self).state().is_round(order)
                    &&& msgs.len() == order.len()
                    &&& forall|i: int| 0 <= i < msgs.len() ==> call_ensures(msg_gen, (), #[trigger] msgs[i])
                    &&& final(self).state() == old(self).state().after_broadcast(order, msgs)
                },
    ;

    /// Sends a casual message to the given region.
    fn send_casual_msg(&mut self, region_id: u64, msg: CasualMessage) -> (r: RaftStoreResult<()>)
        ensures
            r == old(self).state().send_result(region_id, PeerMsg::CasualMessage(msg)),
            final(self).state() == old(self).state().after_send(
                region_id,
                PeerMsg::CasualMessage(msg),
            ),
    {
        CasualRouter::send(self, region_id, msg)
    }

    /// Sends a message to the store.
    fn send_store_msg(&mut self, msg: StoreMsg)
        ensures
            final(self).state() == old(self).state().after_send_store(msg),
    {
        StoreRouter::send(self, msg)
    }

    /// Sends a request with its callback to the region named in the request.
    fn send_command(&mut self, req: RaftCmdRequest, cb: Callback) -> (r: RaftStoreResult<()>)
        ensures
            r == old(self).state().send_result(
                req.region_id,
                PeerMsg::RaftCommand(proposal(req, cb, None)),
            ),
            final(self).state() == old(self).state().after_send(
                req.region_id,
                PeerMsg::RaftCommand(proposal(req, cb, None)),
            ),
    {
        send_command_impl(self, req, cb, None)
    }

    /// As `send_command`; the proposal that is forwarded carries `deadline`.
    fn send_command_with_deadline(
        &mut self,
        req: RaftCmdRequest,
        cb: Callback,
        deadline: Deadline,
    ) -> (r: RaftStoreResult<()>)
        ensures
            r == old(self).state().send_result(
                req.region_id,
                PeerMsg::RaftCommand(proposal(req, cb, Some(deadline))),
            ),
            final(self).state() == old(self).state().after_send(
                req.region_id,
                PeerMsg::RaftCommand(proposal(req, cb, Some(deadline))),
            ),
    {
        send_command_impl(self, req, cb, Some(deadline))
    }

    /// Tells every registered region that the store `store_id` cannot be
    /// reached.
    fn report_unreachable(&mut self, store_id: u64) -> (r: RaftStoreResult<()>)
        ensures
            r is Ok,
            old(self).state().black_hole ==> final(self).state() == old(self).state(),
            !old(self).state().black_hole ==> exists|order: Seq<u64>|
                {
                    &&& old(self).state().is_round(order)
                    &&& final(self).state() == old(self).state().after_broadcast(
                        order,
                        Seq::new(order.len(), |i: int| store_unreachable(store_id)),
                    )
                },
    {
        let ghost before = self.state();
        let msg_gen = || -> (msg: PeerMsg)
            ensures
                msg == store_unreachable(store_id)
            { PeerMsg::SignificantMsg(SignificantMsg::StoreUnreachable { store_id }) };
        self.broadcast_normal(msg_gen);
        proof {
            if !before.black_hole {
                let (order, msgs) = choose|order: Seq<u64>, msgs: Seq<PeerMsg>|
                    {
                        &&& before.is_round(order)
                        &&& msgs.len() == order.len()
                        &&& forall|i: int| 0 <= i < msgs.len() ==> #[trigger] msgs[i] == store_unreachable(store_id)
                        &&& self.state() == before.after_broadcast(order, msgs)
                    };
                assert(msgs =~= Seq::new(order.len(), |i: int| store_unreachable(store_id)));
            }
        }
        Ok(())
    }

    /// Tells the store that the store `store_id` cannot be reached.
    fn broadcast_unreachable(&mut self, store_id: u64)
        ensures
            final(self).state() == old(self).state().after_send_store(store_unreachable_event(store_id)),
    {
        self.send_store_msg(StoreMsg::StoreUnreachable { store_id });
    }
}

/// Hands reads to the local reader, past the queues of the regions.
pub trait LocalReadRouter: Routing + Send {
    /// Hands the read to the local reader, which answers through `cb` or
    /// falls back to a proposal. No region is looked up here, and the call
    /// always succeeds.
    fn read(
        &mut self,
        read_id: Option<ThreadReadId>,
        req: RaftCmdRequest,
        cb: Callback,
    ) -> (r: RaftStoreResult<()>)
        ensures
            r is Ok,
            final(self).state() == old(self).state().after_read(read_id, req, cb),
    ;
}

/// Builds the proposal of `req`, `cb` and `deadline` and sends it.
pub fn send_command_impl<R: ProposalRouter + ?Sized>(
    router: &mut R,
    req: RaftCmdRequest,
    cb: Callback,
    deadline: Option<Deadline>,
) -> (r: RaftStoreResult<()>)
    ensures
        r == old(router).state().send_result(
            req.region_id,
            PeerMsg::RaftCommand(proposal(req, cb, deadline)),
        ),
        final(router).state() == old(router).state().after_send(
            req.region_id,
            PeerMsg::RaftCommand(proposal(req, cb, deadline)),
        ),
{
    let mut cmd = RaftCommand::new(req, cb);
    cmd.deadline = deadline;
    router.send(cmd)
}

} // verus!
