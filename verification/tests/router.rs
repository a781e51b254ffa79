use rfstore::msg::{
    Callback, CasualMessage, Deadline, PeerMsg, RaftCmdRequest, RaftCommand, RaftMessage,
    SignificantMsg, StoreMsg,
};
use rfstore::peer::{Applier, PeerFsm, PeerStates};
use rfstore::{
    send_command_impl, CasualRouter, Channel, Error, ProposalRouter, RaftRouter, RaftStoreRouter,
    StoreRouter,
};

fn new_router() -> RaftRouter {
    RaftRouter::new(Channel::new(), Channel::new())
}

fn peer(region_id: u64) -> PeerFsm {
    PeerFsm { region_id, region_version: 1, peer_id: region_id * 10 + 1 }
}

fn drain(router: &mut RaftRouter) -> Vec<(u64, PeerMsg)> {
    let mut out = Vec::new();
    while let Some(item) = router.recv_peer_msg() {
        out.push(item);
    }
    out
}

fn request(region_id: u64, byte: u8) -> RaftCmdRequest {
    RaftCmdRequest { region_id, payload: vec![byte, byte + 1] }
}

#[test]
fn new_router_has_no_regions_and_empty_queues() {
    let mut router = new_router();
    assert_eq!(router.get(0), None);
    assert_eq!(router.get(7), None);
    assert_eq!(router.get(u64::MAX), None);
    assert_eq!(router.recv_peer_msg(), None);
    assert_eq!(router.recv_store_msg(), None);
}

#[test]
fn new_router_keeps_what_the_channels_held() {
    let mut peer_sender = Channel::new();
    peer_sender.send((4, PeerMsg::Tick));
    let mut store_sender = Channel::new();
    store_sender.send(StoreMsg::Start);
    let mut router = RaftRouter::new(peer_sender, store_sender);
    assert_eq!(router.recv_peer_msg(), Some((4, PeerMsg::Tick)));
    assert_eq!(router.recv_store_msg(), Some(StoreMsg::Start));
    assert_eq!(router.recv_peer_msg(), None);
}

#[test]
fn register_files_a_fresh_open_entry() {
    let mut router = new_router();
    let replica = PeerFsm { region_id: 7, region_version: 3, peer_id: 71 };
    router.register(replica);
    let expected = PeerStates {
        applier: Applier { region_id: 7, peer_id: 71 },
        peer_fsm: replica,
        closed: false,
    };
    assert_eq!(router.get(7), Some(expected));
    assert_eq!(router.get(8), None);
}

#[test]
fn applier_is_derived_from_the_replica() {
    let replica = PeerFsm { region_id: 12, region_version: 9, peer_id: 1203 };
    assert_eq!(Applier::new_from_peer(&replica), Applier { region_id: 12, peer_id: 1203 });
    let states = PeerStates::new(Applier::new_from_peer(&replica), replica);
    assert!(!states.closed);
    assert_eq!(states.peer_fsm, replica);
}

#[test]
fn register_again_replaces_the_entry() {
    let mut router = new_router();
    router.register(PeerFsm { region_id: 7, region_version: 1, peer_id: 71 });
    router.mark_closed(7);
    router.register(PeerFsm { region_id: 7, region_version: 2, peer_id: 72 });
    let entry = router.get(7).unwrap();
    assert_eq!(entry.peer_fsm.region_version, 2);
    assert_eq!(entry.peer_fsm.peer_id, 72);
    assert_eq!(entry.applier, Applier { region_id: 7, peer_id: 72 });
    assert!(!entry.closed);
    assert_eq!(router.send(7, PeerMsg::Tick), Ok(()));
}

#[test]
fn send_to_unregistered_region_returns_the_payload() {
    let mut router = new_router();
    router.register(peer(1));

    let casual = CasualMessage::RegionApproximateSize { size: 4096 };
    assert_eq!(
        CasualRouter::send(&mut router, 9, casual),
        Err(Error::RegionNotFound(9, Some(PeerMsg::CasualMessage(casual))))
    );

    let significant = SignificantMsg::Unreachable { region_id: 9, to_peer_id: 3 };
    assert_eq!(
        router.significant_send(9, significant),
        Err(Error::RegionNotFound(9, Some(PeerMsg::SignificantMsg(significant))))
    );

    let raft = RaftMessage { region_id: 9, from_peer: 2, to_peer: 3, payload: vec![1, 2, 3] };
    assert_eq!(
        router.send_raft_msg(raft.clone()),
        Err(Error::RegionNotFound(9, Some(PeerMsg::RaftMessage(raft))))
    );

    let cmd = RaftCommand::new(request(9, 5), Callback::Write(77));
    assert_eq!(
        ProposalRouter::send(&mut router, cmd.clone()),
        Err(Error::RegionNotFound(9, Some(PeerMsg::RaftCommand(cmd))))
    );

    assert_eq!(
        router.send(0, PeerMsg::Start),
        Err(Error::RegionNotFound(0, Some(PeerMsg::Start)))
    );
    assert_eq!(
        router.send(u64::MAX, PeerMsg::Tick),
        Err(Error::RegionNotFound(u64::MAX, Some(PeerMsg::Tick)))
    );
    assert_eq!(drain(&mut router), vec![]);
}

#[test]
fn send_after_close_returns_region_not_found() {
    let mut router = new_router();
    router.register(peer(3));
    assert_eq!(router.send(3, PeerMsg::Tick), Ok(()));
    router.close(3);
    assert_eq!(router.get(3), None);
    for size in 0..5u64 {
        let msg = CasualMessage::RegionApproximateSize { size };
        assert_eq!(
            router.send_casual_msg(3, msg),
            Err(Error::RegionNotFound(3, Some(PeerMsg::CasualMessage(msg))))
        );
    }
    let significant = SignificantMsg::StoreUnreachable { store_id: 2 };
    assert_eq!(
        router.significant_send(3, significant),
        Err(Error::RegionNotFound(3, Some(PeerMsg::SignificantMsg(significant))))
    );
    // What was queued before the region was closed is still there.
    assert_eq!(drain(&mut router), vec![(3, PeerMsg::Tick)]);
}

#[test]
fn casual_message_to_region_7_is_delivered_once_and_in_order() {
    let mut router = new_router();
    router.register(peer(7));
    let first = CasualMessage::RegionApproximateKeys { keys: 10 };
    let second = CasualMessage::HalfSplitRegion;
    let third = CasualMessage::ClearRegionSize;
    assert_eq!(router.send_casual_msg(7, first), Ok(()));
    assert_eq!(CasualRouter::send(&mut router, 7, second), Ok(()));
    assert_eq!(router.send(7, PeerMsg::CasualMessage(third)), Ok(()));
    assert_eq!(
        drain(&mut router),
        vec![
            (7, PeerMsg::CasualMessage(first)),
            (7, PeerMsg::CasualMessage(second)),
            (7, PeerMsg::CasualMessage(third)),
        ]
    );
    assert_eq!(router.recv_peer_msg(), None);
}

#[test]
fn close_of_unregistered_region_is_a_noop() {
    let mut router = new_router();
    router.register(peer(1));
    router.register(peer(2));
    router.send(1, PeerMsg::Tick).unwrap();
    let one = router.get(1);
    let two = router.get(2);
    router.close(5);
    assert_eq!(router.get(5), None);
    assert_eq!(router.get(1), one);
    assert_eq!(router.get(2), two);
    assert_eq!(router.send(1, PeerMsg::Start), Ok(()));
    assert_eq!(router.send(2, PeerMsg::Start), Ok(()));
    assert_eq!(
        drain(&mut router),
        vec![(1, PeerMsg::Tick), (1, PeerMsg::Start), (2, PeerMsg::Start)]
    );
}

#[test]
fn close_leaves_other_regions_open() {
    let mut router = new_router();
    router.register(peer(1));
    router.register(peer(2));
    router.register(peer(3));
    router.close(2);
    assert_eq!(router.send(1, PeerMsg::Tick), Ok(()));
    assert_eq!(
        router.send(2, PeerMsg::Tick),
        Err(Error::RegionNotFound(2, Some(PeerMsg::Tick)))
    );
    assert_eq!(router.send(3, PeerMsg::Tick), Ok(()));
    router.close(2);
    assert_eq!(router.get(2), None);
    assert!(router.get(1).is_some());
    assert!(router.get(3).is_some());
}

#[test]
fn marked_region_rejects_sends_while_still_in_the_table() {
    let mut router = new_router();
    router.register(peer(4));
    assert!(router.mark_closed(4));
    let entry = router.get(4).unwrap();
    assert!(entry.closed);
    assert_eq!(entry.peer_fsm, peer(4));
    assert_eq!(
        router.send(4, PeerMsg::Tick),
        Err(Error::RegionNotFound(4, Some(PeerMsg::Tick)))
    );
    assert!(!router.mark_closed(5));
    assert_eq!(router.get(5), None);
    router.close(4);
    assert_eq!(router.get(4), None);
    assert_eq!(drain(&mut router), vec![]);
}

#[test]
fn raft_message_goes_to_the_region_it_names() {
    let mut router = new_router();
    router.register(peer(1));
    router.register(peer(2));
    let msg = RaftMessage { region_id: 2, from_peer: 11, to_peer: 21, payload: vec![9, 8, 7] };
    assert_eq!(router.send_raft_msg(msg.clone()), Ok(()));
    assert_eq!(drain(&mut router), vec![(2, PeerMsg::RaftMessage(msg))]);
}

#[test]
fn significant_message_is_queued_or_returned() {
    let mut router = new_router();
    router.register(peer(6));
    let msg = SignificantMsg::Unreachable { region_id: 6, to_peer_id: 62 };
    assert_eq!(router.significant_send(6, msg), Ok(()));
    assert_eq!(
        router.significant_send(60, msg),
        Err(Error::RegionNotFound(60, Some(PeerMsg::SignificantMsg(msg))))
    );
    assert_eq!(drain(&mut router), vec![(6, PeerMsg::SignificantMsg(msg))]);
}

#[test]
fn command_is_sent_to_the_region_of_its_request() {
    let mut router = new_router();
    router.register(peer(8));
    assert_eq!(router.send_command(request(8, 1), Callback::Write(5)), Ok(()));
    assert_eq!(
        drain(&mut router),
        vec![(
            8,
            PeerMsg::RaftCommand(RaftCommand {
                request: request(8, 1),
                callback: Callback::Write(5),
                deadline: None,
            })
        )]
    );
    assert_eq!(
        router.send_command(request(80, 1), Callback::Read(6)),
        Err(Error::RegionNotFound(
            80,
            Some(PeerMsg::RaftCommand(RaftCommand {
                request: request(80, 1),
                callback: Callback::Read(6),
                deadline: None,
            }))
        ))
    );
}

#[test]
fn command_carries_its_deadline() {
    let mut router = new_router();
    router.register(peer(8));
    let deadline = Deadline { millis: 1500 };
    assert_eq!(
        router.send_command_with_deadline(request(8, 3), Callback::Empty, deadline),
        Ok(())
    );
    assert_eq!(
        send_command_impl(&mut router, request(8, 4), Callback::Read(1), Some(Deadline { millis: 2 })),
        Ok(())
    );
    assert_eq!(send_command_impl(&mut router, request(8, 5), Callback::Read(2), None), Ok(()));
    assert_eq!(
        drain(&mut router),
        vec![
            (
                8,
                PeerMsg::RaftCommand(RaftCommand {
                    request: request(8, 3),
                    callback: Callback::Empty,
                    deadline: Some(deadline),
                })
            ),
            (
                8,
                PeerMsg::RaftCommand(RaftCommand {
                    request: request(8, 4),
                    callback: Callback::Read(1),
                    deadline: Some(Deadline { millis: 2 }),
                })
            ),
            (
                8,
                PeerMsg::RaftCommand(RaftCommand {
                    request: request(8, 5),
                    callback: Callback::Read(2),
                    deadline: None,
                })
            ),
        ]
    );
    let lost = router.send_command_with_deadline(request(9, 3), Callback::Empty, deadline);
    assert_eq!(
        lost,
        Err(Error::RegionNotFound(
            9,
            Some(PeerMsg::RaftCommand(RaftCommand {
                request: request(9, 3),
                callback: Callback::Empty,
                deadline: Some(deadline),
            }))
        ))
    );
}

#[test]
fn new_command_has_no_deadline() {
    let cmd = RaftCommand::new(request(2, 7), Callback::Write(9));
    assert_eq!(cmd.request, request(2, 7));
    assert_eq!(cmd.callback, Callback::Write(9));
    assert_eq!(cmd.deadline, None);
    assert_eq!(cmd.request.get_region_id(), 2);
    let msg = RaftMessage { region_id: 31, from_peer: 1, to_peer: 2, payload: vec![] };
    assert_eq!(msg.get_region_id(), 31);
}

#[test]
fn store_messages_are_queued_in_order() {
    let mut router = new_router();
    StoreRouter::send(&mut router, StoreMsg::Start);
    router.send_store_msg(StoreMsg::Tick);
    router.send_store(StoreMsg::StoreUnreachable { store_id: 4 });
    router.broadcast_unreachable(11);
    assert_eq!(router.recv_store_msg(), Some(StoreMsg::Start));
    assert_eq!(router.recv_store_msg(), Some(StoreMsg::Tick));
    assert_eq!(router.recv_store_msg(), Some(StoreMsg::StoreUnreachable { store_id: 4 }));
    assert_eq!(router.recv_store_msg(), Some(StoreMsg::StoreUnreachable { store_id: 11 }));
    assert_eq!(router.recv_store_msg(), None);
    assert_eq!(router.recv_peer_msg(), None);
}

#[test]
fn two_senders_taking_turns_keep_their_own_order() {
    let mut router = new_router();
    router.register(peer(1));
    // Sender a proposes with write tokens, sender b with read tokens.
    let turns = [true, false, false, true, true, false, true, false];
    let mut next_a = 0u64;
    let mut next_b = 0u64;
    for from_a in turns {
        let cb = if from_a {
            next_a += 1;
            Callback::Write(next_a)
        } else {
            next_b += 1;
            Callback::Read(next_b)
        };
        assert_eq!(router.send_command(request(1, 0), cb), Ok(()));
    }
    let mut seen_a = Vec::new();
    let mut seen_b = Vec::new();
    for (region_id, msg) in drain(&mut router) {
        assert_eq!(region_id, 1);
        match msg {
            PeerMsg::RaftCommand(cmd) => match cmd.callback {
                Callback::Write(n) => seen_a.push(n),
                Callback::Read(n) => seen_b.push(n),
                Callback::Empty => panic!("a proposal without a token"),
            },
            other => panic!("not a proposal: {:?}", other),
        }
    }
    assert_eq!(seen_a, vec![1, 2, 3, 4]);
    assert_eq!(seen_b, vec![1, 2, 3, 4]);
}
