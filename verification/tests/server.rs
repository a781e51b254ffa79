use rfstore::msg::{
    Callback, CasualMessage, PeerMsg, RaftCmdRequest, RaftCommand, RaftMessage, SignificantMsg,
    StoreMsg, ThreadReadId,
};
use rfstore::peer::PeerFsm;
use rfstore::{
    CasualRouter, Channel, Error, LocalReadRouter, LocalReader, ProposalRouter, RaftRouter,
    RaftStoreRouter, ReadTask, ServerRaftStoreRouter, StoreRouter,
};

fn server_with(regions: &[u64]) -> ServerRaftStoreRouter {
    let mut router = RaftRouter::new(Channel::new(), Channel::new());
    for &region_id in regions {
        router.register(PeerFsm { region_id, region_version: 2, peer_id: region_id + 1 });
    }
    ServerRaftStoreRouter::new(router, LocalReader::new())
}

fn request(region_id: u64) -> RaftCmdRequest {
    RaftCmdRequest { region_id, payload: vec![7, 7] }
}

#[test]
fn server_router_forwards_every_capability() {
    let mut server = server_with(&[1, 2]);
    assert_eq!(CasualRouter::send(&mut server, 1, CasualMessage::HalfSplitRegion), Ok(()));
    let cmd = RaftCommand::new(request(2), Callback::Write(3));
    assert_eq!(ProposalRouter::send(&mut server, cmd.clone()), Ok(()));
    let raft = RaftMessage { region_id: 1, from_peer: 5, to_peer: 6, payload: vec![1] };
    assert_eq!(server.send_raft_msg(raft.clone()), Ok(()));
    let significant = SignificantMsg::StoreUnreachable { store_id: 8 };
    assert_eq!(server.significant_send(2, significant), Ok(()));
    StoreRouter::send(&mut server, StoreMsg::Tick);

    assert_eq!(
        server.recv_peer_msg(),
        Some((1, PeerMsg::CasualMessage(CasualMessage::HalfSplitRegion)))
    );
    assert_eq!(server.recv_peer_msg(), Some((2, PeerMsg::RaftCommand(cmd))));
    assert_eq!(server.recv_peer_msg(), Some((1, PeerMsg::RaftMessage(raft))));
    assert_eq!(server.recv_peer_msg(), Some((2, PeerMsg::SignificantMsg(significant))));
    assert_eq!(server.recv_peer_msg(), None);
    assert_eq!(server.recv_store_msg(), Some(StoreMsg::Tick));
    assert_eq!(server.recv_store_msg(), None);
    assert_eq!(server.take_read(), None);
}

#[test]
fn server_router_returns_what_it_cannot_deliver() {
    let mut server = server_with(&[1]);
    let msg = CasualMessage::RegionApproximateKeys { keys: 3 };
    assert_eq!(
        server.send_casual_msg(2, msg),
        Err(Error::RegionNotFound(2, Some(PeerMsg::CasualMessage(msg))))
    );
    assert_eq!(server.recv_peer_msg(), None);
}

#[test]
fn server_router_broadcasts_to_every_region() {
    let mut server = server_with(&[4, 5, 6]);
    let mut made = 0u64;
    server.broadcast_normal(|| {
        made += 1;
        PeerMsg::CasualMessage(CasualMessage::RegionApproximateSize { size: made })
    });
    assert_eq!(made, 3);
    let mut regions = Vec::new();
    while let Some((region_id, _)) = server.recv_peer_msg() {
        regions.push(region_id);
    }
    regions.sort();
    assert_eq!(regions, vec![4, 5, 6]);
    assert_eq!(server.report_unreachable(9), Ok(()));
    let mut count = 0;
    while let Some((_, msg)) = server.recv_peer_msg() {
        assert_eq!(msg, PeerMsg::SignificantMsg(SignificantMsg::StoreUnreachable { store_id: 9 }));
        count += 1;
    }
    assert_eq!(count, 3);
}

#[test]
fn read_goes_to_the_local_reader_and_past_the_regions() {
    let mut server = server_with(&[1]);
    let lease = Some(ThreadReadId { sequence: 12 });
    // The region of the request is not looked up: 99 is not registered.
    assert_eq!(server.read(lease, request(99), Callback::Read(1)), Ok(()));
    assert_eq!(server.read(None, request(1), Callback::Read(2)), Ok(()));
    assert_eq!(server.recv_peer_msg(), None);
    assert_eq!(server.recv_store_msg(), None);
    assert_eq!(
        server.take_read(),
        Some(ReadTask { read_id: lease, request: request(99), callback: Callback::Read(1) })
    );
    assert_eq!(
        server.take_read(),
        Some(ReadTask { read_id: None, request: request(1), callback: Callback::Read(2) })
    );
    assert_eq!(server.take_read(), None);
}

#[test]
fn server_router_keeps_the_reads_of_the_reader_it_is_given() {
    let mut reader = LocalReader::new();
    reader.read(None, request(3), Callback::Read(30));
    let router = RaftRouter::new(Channel::new(), Channel::new());
    let mut server = ServerRaftStoreRouter::new(router, reader);
    assert_eq!(server.read(None, request(4), Callback::Read(40)), Ok(()));
    assert_eq!(server.take_read().unwrap().callback, Callback::Read(30));
    assert_eq!(server.take_read().unwrap().callback, Callback::Read(40));
    assert_eq!(server.take_read(), None);
}

#[test]
fn local_reader_hands_reads_out_in_order() {
    let mut reader = LocalReader::new();
    assert_eq!(reader.take(), None);
    for n in 0..4u64 {
        reader.read(Some(ThreadReadId { sequence: n }), request(n), Callback::Read(n));
    }
    for n in 0..4u64 {
        assert_eq!(
            reader.take(),
            Some(ReadTask {
                read_id: Some(ThreadReadId { sequence: n }),
                request: request(n),
                callback: Callback::Read(n),
            })
        );
    }
    assert_eq!(reader.take(), None);
}

#[test]
fn channel_is_first_in_first_out() {
    let mut channel: Channel<u64> = Channel::new();
    assert_eq!(channel.len(), 0);
    assert_eq!(channel.try_recv(), None);
    channel.send(3);
    channel.send(1);
    channel.send(2);
    assert_eq!(channel.len(), 3);
    assert_eq!(channel.try_recv(), Some(3));
    channel.send(4);
    assert_eq!(channel.try_recv(), Some(1));
    assert_eq!(channel.try_recv(), Some(2));
    assert_eq!(channel.try_recv(), Some(4));
    assert_eq!(channel.try_recv(), None);
    assert_eq!(channel.len(), 0);
}

#[test]
fn regions_come_and_go_through_the_inner_router() {
    let mut server = server_with(&[]);
    assert_eq!(server.read(None, request(5), Callback::Read(1)), Ok(()));
    assert_eq!(
        server.send_casual_msg(5, CasualMessage::ClearRegionSize),
        Err(Error::RegionNotFound(5, Some(PeerMsg::CasualMessage(CasualMessage::ClearRegionSize))))
    );
    server.router_mut().register(PeerFsm { region_id: 5, region_version: 1, peer_id: 51 });
    assert_eq!(server.router_mut().get(5).unwrap().peer_fsm.peer_id, 51);
    assert_eq!(server.send_casual_msg(5, CasualMessage::ClearRegionSize), Ok(()));
    server.router_mut().close(5);
    assert_eq!(
        server.send_casual_msg(5, CasualMessage::HalfSplitRegion),
        Err(Error::RegionNotFound(5, Some(PeerMsg::CasualMessage(CasualMessage::HalfSplitRegion))))
    );
    assert_eq!(
        server.recv_peer_msg(),
        Some((5, PeerMsg::CasualMessage(CasualMessage::ClearRegionSize)))
    );
    assert_eq!(server.recv_peer_msg(), None);
    // The read that was waiting is still there.
    assert_eq!(server.take_read().unwrap().callback, Callback::Read(1));
}
