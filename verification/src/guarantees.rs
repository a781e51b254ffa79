//! What holds of every router, whatever was done to it.

use vstd::prelude::*;
use crate::errors::Error;
use crate::history::{never_registers, send_events, Event};
use crate::model::{deliveries, RouterState};
use crate::msg::{PeerMsg, StoreMsg};
use crate::peer::PeerFsm;

verus! {

/// A send to a region that has no entry fails with `RegionNotFound`, the
/// error holds the very message that was sent, and the router is left as it
/// was.
pub proof fn lemma_send_to_absent_region_fails(state: RouterState, region_id: u64, msg: PeerMsg)
    requires
        !state.black_hole,
        !state.regions.contains_key(region_id),
    ensures
        state.send_result(region_id, msg) == Err::<(), Error>(Error::RegionNotFound(region_id, Some(msg))),
        state.after_send(region_id, msg) == state,
{
}

/// A region that was never registered has no entry: starting from a new
/// router, whatever calls were made, as long as none of them registered a
/// replica of the region.
pub proof fn lemma_never_registered_is_absent(
    peer_queue: Seq<(u64, PeerMsg)>,
    store_queue: Seq<StoreMsg>,
    events: Seq<Event>,
    region_id: u64,
)
    requires
        never_registers(events, region_id),
    ensures
        !RouterState::fresh(peer_queue, store_queue).run(events).black_hole,
        !RouterState::fresh(peer_queue, store_queue).run(events).regions.contains_key(region_id),
    decreases events.len(),
{
    if events.len() > 0 {
        let earlier = events.drop_last();
        assert(never_registers(earlier, region_id)) by {
            assert forall|i: int| 0 <= i < earlier.len() implies !(#[trigger] earlier[i]).registers(
                region_id,
            ) by {
                assert(earlier[i] == events[i]);
            }
        }
        lemma_never_registered_is_absent(peer_queue, store_queue, earlier, region_id);
        assert(!events.last().registers(region_id));
    }
}

/// Every send to a region that was never registered returns `RegionNotFound`
/// with the message that was sent, unmodified.
pub proof fn lemma_send_to_never_registered_fails(
    peer_queue: Seq<(u64, PeerMsg)>,
    store_queue: Seq<StoreMsg>,
    events: Seq<Event>,
    region_id: u64,
    msg: PeerMsg,
)
    requires
        never_registers(events, region_id),
    ensures
        RouterState::fresh(peer_queue, store_queue).run(events).send_result(region_id, msg)
            == Err::<(), Error>(Error::RegionNotFound(region_id, Some(msg))),
{
    lemma_never_registered_is_absent(peer_queue, store_queue, events, region_id);
}

/// Once a region has been closed it has no entry, and it gets none back
/// unless a replica of it is registered again.
pub proof fn lemma_closed_region_stays_absent(state: RouterState, region_id: u64, events: Seq<Event>)
    requires
        never_registers(events, region_id),
    ensures
        state.after_close(region_id).run(events).black_hole == state.black_hole,
        !state.after_close(region_id).run(events).regions.contains_key(region_id),
    decreases events.len(),
{
    if events.len() > 0 {
        let earlier = events.drop_last();
        assert(never_registers(earlier, region_id)) by {
            assert forall|i: int| 0 <= i < earlier.len() implies !(#[trigger] earlier[i]).registers(
                region_id,
            ) by {
                assert(earlier[i] == events[i]);
            }
        }
        lemma_closed_region_stays_absent(state, region_id, earlier);
        assert(!events.last().registers(region_id));
    }
}

/// Every send to a region after it was closed returns `RegionNotFound`,
/// whatever happened in between short of a new registration of the region.
pub proof fn lemma_send_after_close_fails(
    state: RouterState,
    region_id: u64,
    events: Seq<Event>,
    msg: PeerMsg,
)
    requires
        !state.black_hole,
        never_registers(events, region_id),
    ensures
        state.after_close(region_id).run(events).send_result(region_id, msg)
            == Err::<(), Error>(Error::RegionNotFound(region_id, Some(msg))),
{
    lemma_closed_region_stays_absent(state, region_id, events);
}

/// From the moment an entry is marked closed, sends to its region fail,
/// though the entry is still in the table.
pub proof fn lemma_send_to_marked_region_fails(state: RouterState, region_id: u64, msg: PeerMsg)
    requires
        !state.black_hole,
    ensures
        state.after_mark_closed(region_id).send_result(region_id, msg)
            == Err::<(), Error>(Error::RegionNotFound(region_id, Some(msg))),
        state.after_mark_closed(region_id).after_close(region_id) == state.after_close(region_id),
{
}

/// Closing a region that has no entry changes nothing.
pub proof fn lemma_close_of_absent_region_is_noop(state: RouterState, region_id: u64)
    requires
        !state.regions.contains_key(region_id),
    ensures
        state.after_close(region_id) == state,
{
}

/// Closing a region leaves every other region as it was, and both queues.
pub proof fn lemma_close_leaves_other_regions(state: RouterState, region_id: u64, other: u64)
    requires
        other != region_id,
    ensures
        state.after_close(region_id).regions.get(other) == state.regions.get(other),
        state.after_close(region_id).accepts(other) == state.accepts(other),
        state.after_close(region_id).peer_queue == state.peer_queue,
        state.after_close(region_id).store_queue == state.store_queue,
{
}

/// A region is open as soon as a replica of it is registered: a send to it
/// succeeds, also where an earlier entry of the region had been marked
/// closed. No other region is touched.
pub proof fn lemma_registered_region_accepts(state: RouterState, peer: PeerFsm, msg: PeerMsg, other: u64)
    requires
        other != peer.region_id,
    ensures
        state.after_register(peer).is_open(peer.region_id),
        state.after_register(peer).send_result(peer.region_id, msg) == Ok::<(), Error>(()),
        state.after_register(peer).regions.get(other) == state.regions.get(other),
{
}

/// A message sent to an open region is queued behind everything queued
/// before it, and a router whose queue was empty hands it to the consumer
/// next, once.
pub proof fn lemma_sent_message_is_received_once(state: RouterState, region_id: u64, msg: PeerMsg)
    requires
        !state.black_hole,
        state.is_open(region_id),
    ensures
        state.send_result(region_id, msg) == Ok::<(), Error>(()),
        state.after_send(region_id, msg).peer_queue == state.peer_queue.push((region_id, msg)),
        state.peer_queue.len() == 0 ==> {
            &&& state.after_send(region_id, msg).next_peer_msg() == Some((region_id, msg))
            &&& state.after_send(region_id, msg).after_recv_peer_msg() == state
        },
{
    if state.peer_queue.len() == 0 {
        assert(state.peer_queue.push((region_id, msg)).drop_first() =~= state.peer_queue);
    }
}

/// Sends to open regions are queued in the order in which they were made:
/// the queue grows by exactly the messages sent, none lost, none twice, none
/// out of place. So of two senders that take turns in any way, each finds
/// its own messages in the queue in the order in which it sent them.
pub proof fn lemma_sends_are_queued_in_order(state: RouterState, sends: Seq<(u64, PeerMsg)>)
    requires
        !state.black_hole,
        forall|i: int| 0 <= i < sends.len() ==> state.is_open((#[trigger] sends[i]).0),
    ensures
        state.run(send_events(sends)) == (RouterState {
            peer_queue: state.peer_queue + sends,
            ..state
        }),
        forall|i: int| 0 <= i < sends.len() ==> state.run(send_events(sends)).peer_queue[state.peer_queue.len() + i]
            == #[trigger] sends[i],
    decreases sends.len(),
{
    if sends.len() == 0 {
        assert(state.peer_queue + sends =~= state.peer_queue);
    } else {
        let earlier = sends.drop_last();
        let (region_id, msg) = sends.last();
        lemma_sends_are_queued_in_order(state, earlier);
        let middle = state.run(send_events(earlier));
        assert(send_events(sends).drop_last() =~= send_events(earlier));
        assert(send_events(sends).last() == Event::Send(region_id, msg));
        assert(state.run(send_events(sends)) == middle.after_send(region_id, msg));
        assert(state.is_open(sends[sends.len() - 1].0));
        assert(middle.is_open(region_id));
        assert(state.peer_queue + sends =~= (state.peer_queue + earlier).push((region_id, msg)));
    }
}

/// Each of a run of sends to open regions succeeds.
pub proof fn lemma_sends_to_open_regions_succeed(state: RouterState, sends: Seq<(u64, PeerMsg)>, i: int)
    requires
        !state.black_hole,
        forall|k: int| 0 <= k < sends.len() ==> state.is_open((#[trigger] sends[k]).0),
        0 <= i < sends.len(),
    ensures
        state.run(send_events(sends.take(i))).send_result(sends[i].0, sends[i].1) == Ok::<(), Error>(()),
{
    let earlier = sends.take(i);
    assert forall|k: int| 0 <= k < earlier.len() implies state.is_open((#[trigger] earlier[k]).0) by {
        assert(earlier[k] == sends[k]);
    }
    lemma_sends_are_queued_in_order(state, earlier);
    assert(state.is_open(sends[i].0));
}

/// A broadcast queues exactly one message for each registered region, and
/// none for any other.
pub proof fn lemma_broadcast_reaches_each_region_once(
    state: RouterState,
    order: Seq<u64>,
    msgs: Seq<PeerMsg>,
    region_id: u64,
)
    requires
        !state.black_hole,
        state.is_round(order),
        msgs.len() == order.len(),
    ensures
        state.after_broadcast(order, msgs).peer_queue == state.peer_queue + deliveries(order, msgs),
        state.after_broadcast(order, msgs).regions == state.regions,
        deliveries(order, msgs).len() == state.regions.dom().len(),
        state.regions.contains_key(region_id) ==> exists|i: int|
            {
                &&& 0 <= i < order.len()
                &&& #[trigger] deliveries(order, msgs)[i] == (region_id, msgs[i])
                &&& forall|j: int| 0 <= j < order.len() && j != i ==> (#[trigger] deliveries(order, msgs)[j]).0 != region_id
            },
        !state.regions.contains_key(region_id) ==> forall|j: int|
            0 <= j < order.len() ==> (#[trigger] deliveries(order, msgs)[j]).0 != region_id,
{
    order.unique_seq_to_set();
    if state.regions.contains_key(region_id) {
        assert(order.to_set().contains(region_id));
        let i = choose|i: int| 0 <= i < order.len() && order[i] == region_id;
        assert(deliveries(order, msgs)[i] == (region_id, msgs[i]));
    } else {
        assert forall|j: int| 0 <= j < order.len() implies (#[trigger] deliveries(order, msgs)[j]).0
            != region_id by {
            assert(order.to_set().contains(order[j]));
        }
    }
}

/// With routing switched off every send succeeds, a broadcast does nothing,
/// and nothing is ever queued.
pub proof fn lemma_black_hole_accepts_and_drops(
    state: RouterState,
    region_id: u64,
    msg: PeerMsg,
    store_msg: StoreMsg,
    order: Seq<u64>,
    msgs: Seq<PeerMsg>,
)
    requires
        state.black_hole,
    ensures
        state.send_result(region_id, msg) == Ok::<(), Error>(()),
        state.after_send(region_id, msg) == state,
        state.after_send_store(store_msg) == state,
        state.after_broadcast(order, msgs) == state,
{
}

/// Every entry stays filed under the region of its own replica, with the
/// applier of that replica: no call moves an entry to another region.
pub proof fn lemma_step_keeps_entries_in_place(state: RouterState, event: Event)
    requires
        state.wf(),
    ensures
        state.step(event).wf(),
{
}

/// A new router is well formed, and a router that is stays so whatever is
/// done to it.
pub proof fn lemma_run_keeps_entries_in_place(
    state: RouterState,
    events: Seq<Event>,
    peer_queue: Seq<(u64, PeerMsg)>,
    store_queue: Seq<StoreMsg>,
)
    requires
        state.wf(),
    ensures
        RouterState::fresh(peer_queue, store_queue).wf(),
        RouterState::disabled().wf(),
        state.run(events).wf(),
    decreases events.len(),
{
    if events.len() > 0 {
        lemma_run_keeps_entries_in_place(state, events.drop_last(), peer_queue, store_queue);
        lemma_step_keeps_entries_in_place(state.run(events.drop_last()), events.last());
    }
}

} // verus!
