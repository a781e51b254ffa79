//! The one failure of routing.

use vstd::prelude::*;
use crate::msg::PeerMsg;

verus! {

/// Why a message was not delivered.
#[derive(Clone, Debug, PartialEq, Eq)]
pub enum Error {
    /// The region is not registered, or it has been closed. The message that
    /// could not be delivered comes back with the error, so that the sender
    /// can redirect it, try again or answer its client.
    RegionNotFound(u64, Option<PeerMsg>),
}

/// The result of a routing call.
pub type RaftStoreResult<T> = Result<T, Error>;

} // verus!
