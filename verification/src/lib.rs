//! Message routing for a store that hosts many Raft-replicated regions.
//!
//! Every raft message, client proposal, significant or casual event is handed
//! to a router, which either places it on the queue of the region it is
//! addressed to or returns it to the sender inside a `RegionNotFound` error.
//!
//! A router is verified as a sequential machine: each call takes the router
//! with exclusive access, and its contract says what the call returns and
//! what it makes of the router's state (`model`). What holds over any
//! sequence of calls is proved in `guarantees`. The routing table is a
//! `dashmap::DashMap`, reached through the functions of `table`, which are
//! the only part that is taken on trust.

pub mod black_hole;
pub mod capability;
pub mod channel;
pub mod errors;
pub mod guarantees;
pub mod history;
pub mod model;
pub mod msg;
pub mod peer;
pub mod reader;
pub mod router;
pub mod server;
pub mod signal_handler;
pub mod table;

pub use black_hole::RaftStoreBlackHole;
pub use capability::{
    send_command_impl, CasualRouter, LocalReadRouter, ProposalRouter, RaftStoreRouter, Routing,
    StoreRouter,
};
pub use channel::Channel;
pub use errors::{Error, RaftStoreResult};
pub use reader::{LocalReader, ReadTask};
pub use router::RaftRouter;
pub use server::ServerRaftStoreRouter;
