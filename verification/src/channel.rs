//! The queue between a router and the consumer of its messages.

use vstd::prelude::*;
use std::collections::VecDeque;

verus! {

/// An unbounded first-in, first-out queue. The router sends into it; the
/// consumer receives from it in the order of sending.
pub struct Channel<T> {
    queue: VecDeque<T>,
}

impl<T> View for Channel<T> {
    type V = Seq<T>;

    /// What was sent and not yet received, oldest first.
    closed spec fn view(&self) -> Seq<T> {
        self.queue@
    }
}

impl<T> Channel<T> {
    /// An empty channel.
    pub fn new() -> (channel: Self)
        ensures
            channel@ =~= Seq::empty(),
    {
        Channel { queue: VecDeque::new() }
    }

    /// Puts `item` behind everything sent before.
    pub fn send(&mut self, item: T)
        ensures
            final(self)@ == old(self)@.push(item),
    {
        self.queue.push_back(item);
    }

    /// Takes the oldest item, if there is one.
    pub fn try_recv(&mut self) -> (item: Option<T>)
        ensures
            item == (if old(self)@.len() > 0 { Some(old(self)@.first()) } else { None }),
            final(self)@ == (if old(self)@.len() > 0 { old(self)@.drop_first() } else { old(self)@ }),
    {
        self.queue.pop_front()
    }

    /// The number of items waiting.
    pub fn len(&self) -> (n: usize)
        ensures
            n == self@.len(),
    {
        self.queue.len()
    }
}

} // verus!
