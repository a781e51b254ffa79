//! The hand-over to the local reader.

use vstd::prelude::*;
use crate::channel::Channel;
use crate::msg::{Callback, RaftCmdRequest, ThreadReadId};

verus! {

/// A read that was handed to the local reader.
#[derive(Clone, Debug, PartialEq, Eq)]
pub struct ReadTask {
    /// The read lease under which the read may be served, if it has one.
    pub read_id: Option<ThreadReadId>,
    pub request: RaftCmdRequest,
    pub callback: Callback,
}

/// The read made of a lease token, a request and its callback.
pub open spec fn read_task(read_id: Option<ThreadReadId>, request: RaftCmdRequest, callback: Callback) -> ReadTask {
    ReadTask { read_id, request, callback }
}

/// The reads that wait for the local reader, oldest first.
///
/// The reader serves a read from local state while the leader lease is
/// valid, and proposes it where it cannot. That work is not done here: this
/// type only keeps what was handed over, in order, until it is taken.
pub struct LocalReader {
    tasks: Channel<ReadTask>,
}

impl View for LocalReader {
    type V = Seq<ReadTask>;

    closed spec fn view(&self) -> Seq<ReadTask> {
        self.tasks@
    }
}

impl LocalReader {
    /// A reader that has been handed nothing.
    pub fn new() -> (reader: Self)
        ensures
            reader@ =~= Seq::empty(),
    {
        LocalReader { tasks: Channel::new() }
    }

    /// Hands a read over. It joins the reads that wait, behind all of them.
    pub fn read(&mut self, read_id: Option<ThreadReadId>, req: RaftCmdRequest, cb: Callback)
        ensures
            final(self)@ == old(self)@.push(read_task(read_id, req, cb)),
    {
        self.tasks.send(ReadTask { read_id, request: req, callback: cb });
    }

    /// Takes the oldest read that waits, if there is one.
    pub fn take(&mut self) -> (task: Option<ReadTask>)
        ensures
            task == (if old(self)@.len() > 0 { Some(old(self)@.first()) } else { None }),
            final(self)@ == (if old(self)@.len() > 0 { old(self)@.drop_first() } else { old(self)@ }),
    {
        self.tasks.try_recv()
    }
}

} // verus!
