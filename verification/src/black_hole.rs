//! The router that routes nothing.

use vstd::prelude::*;
use crate::capability::{CasualRouter, ProposalRouter, RaftStoreRouter, Routing, StoreRouter};
use crate::errors::RaftStoreResult;
use crate::model::RouterState;
use crate::msg::{CasualMessage, PeerMsg, RaftCommand, RaftMessage, SignificantMsg, StoreMsg};

verus! {

/// A router for places that must hold one while routing is switched off:
/// every send succeeds and nothing is delivered.
#[derive(Clone, Copy, Debug)]
pub struct RaftStoreBlackHole;

impl Routing for RaftStoreBlackHole {
    open spec fn state(&self) -> RouterState {
        RouterState::disabled()
    }
}

impl CasualRouter for RaftStoreBlackHole {
    fn send(&mut self, _region_id: u64, _msg: CasualMessage) -> (r: RaftStoreResult<()>) {
        Ok(())
    }
}

impl ProposalRouter for RaftStoreBlackHole {
    fn send(&mut self, _cmd: RaftCommand) -> (r: RaftStoreResult<()>) {
        Ok(())
    }
}

impl StoreRouter for RaftStoreBlackHole {
    fn send(&mut self, _msg: StoreMsg) {
    }
}

impl RaftStoreRouter for RaftStoreBlackHole {
    /// Accepts the message and drops it.
    fn send_raft_msg(&mut self, _msg: RaftMessage) -> (r: RaftStoreResult<()>)
        ensures
            r is Ok,
    {
        Ok(())
    }

    /// Accepts the message and drops it.
    fn significant_send(&mut self, _region_id: u64, _msg: SignificantMsg) -> (r: RaftStoreResult<()>)
        ensures
            r is Ok,
    {
        Ok(())
    }

    /// Does nothing; `_msg_gen` is not called.
    fn broadcast_normal<F: FnMut() -> PeerMsg>(&mut self, _msg_gen: F) {
        // Routing is off, so there is no region to make a message for.
        assert(self.state().black_hole);
    }
}

} // verus!
