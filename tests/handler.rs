use p2p_gossip::addr::PeerAddr;
use p2p_gossip::broadcast::gossip_round;
use p2p_gossip::handler::{handle, Inbound, Outcome};
use p2p_gossip::message::{Message, MessageData, Request};
use p2p_gossip::node::{Config, Node};
use p2p_gossip::peer_set::PeerSet;

fn local(port: u16) -> PeerAddr {
    PeerAddr::loopback(port)
}

fn node(port: i32) -> Node {
    Node::new(&Config::build(1, Some(port), None).unwrap())
}

/// Delivers `message` to `to`, and returns the update it fans out, if any,
/// with its targets.
fn deliver(to: &mut Node, message: Message) -> Option<(Message, Vec<PeerAddr>)> {
    match handle(&mut to.peers, Inbound::Received(message)) {
        Outcome::FanOut { message, targets } => Some((message, targets)),
        _ => None,
    }
}

#[test]
fn closed_connection_changes_nothing() {
    let mut set = PeerSet::new(local(8000));
    set.insert(local(8001));
    assert!(matches!(handle(&mut set, Inbound::Closed), Outcome::Closed));
    assert_eq!(set.snapshot(), vec![local(8001)]);
}

#[test]
fn undecodable_input_changes_nothing() {
    let mut set = PeerSet::new(local(8000));
    set.insert(local(8001));
    assert!(matches!(handle(&mut set, Inbound::Undecodable), Outcome::DecodeError));
    assert_eq!(set.snapshot(), vec![local(8001)]);
}

#[test]
fn unknown_command_changes_nothing() {
    let mut set = PeerSet::new(local(8000));
    set.insert(local(8001));
    let m = Message {
        command: ".join-please".to_string(),
        data: Some(MessageData::Peers(vec![local(8009)])),
        addr: local(8009),
    };
    assert!(matches!(handle(&mut set, Inbound::Received(m)), Outcome::ProtocolMismatch));
    assert_eq!(set.snapshot(), vec![local(8001)]);
    let after = Message::sync(local(8002));
    assert!(matches!(handle(&mut set, Inbound::Received(after)), Outcome::FanOut { .. }));
    assert_eq!(set.snapshot(), vec![local(8001), local(8002)]);
}

#[test]
fn join_floods_update_to_every_peer() {
    let mut set = PeerSet::new(local(8000));
    set.insert(local(8001));
    set.insert(local(8002));
    match handle(&mut set, Inbound::Received(Message::sync(local(8003)))) {
        Outcome::FanOut { message, targets } => {
            assert_eq!(targets, vec![local(8001), local(8002), local(8003)]);
            assert_eq!(message.command, ".upd");
            assert_eq!(message.addr, local(8000));
            match message.request() {
                Some(Request::Learn { peers }) => {
                    assert_eq!(peers, vec![local(8001), local(8002), local(8003)])
                }
                _ => panic!("expected a list of peers"),
            }
        }
        _ => panic!("expected a fan-out"),
    }
}

#[test]
fn rejoin_of_known_peer_floods_without_growing() {
    let mut set = PeerSet::new(local(8000));
    set.insert(local(8001));
    match handle(&mut set, Inbound::Received(Message::sync(local(8001)))) {
        Outcome::FanOut { targets, .. } => assert_eq!(targets, vec![local(8001)]),
        _ => panic!("expected a fan-out"),
    }
    assert_eq!(set.len(), 1);
}

#[test]
fn update_merges_peers_but_not_self() {
    let mut set = PeerSet::new(local(8000));
    let m = Message::update(vec![local(8000), local(8001), local(8002)], local(8001));
    match handle(&mut set, Inbound::Received(m)) {
        Outcome::Learned { peers } => assert_eq!(peers, vec![local(8001), local(8002)]),
        _ => panic!("expected the merged peers"),
    }
    assert_eq!(set.snapshot(), vec![local(8001), local(8002)]);
}

#[test]
fn gossip_is_delivered_without_change() {
    let mut set = PeerSet::new(local(8000));
    let m = Message::gossip("hello".to_string(), local(8005));
    match handle(&mut set, Inbound::Received(m)) {
        Outcome::Deliver { text, sender } => {
            assert_eq!(text, "hello");
            assert_eq!(sender, local(8005));
        }
        _ => panic!("expected text"),
    }
    assert_eq!(set.len(), 0);
}

#[test]
fn gossip_round_targets_every_peer() {
    let mut set = PeerSet::new(local(8000));
    set.insert(local(8002));
    set.insert(local(8001));
    let (message, targets) = gossip_round(&set, "[random message]".to_string());
    assert_eq!(targets, vec![local(8002), local(8001)]);
    assert_eq!(message.command, ".random-message");
    assert_eq!(message.addr, local(8000));
    assert!(matches!(message.data, Some(MessageData::Message(ref t)) if t == "[random message]"));
}

#[test]
fn gossip_round_with_no_peers_has_no_targets() {
    let set = PeerSet::new(local(8000));
    let (_, targets) = gossip_round(&set, "x".to_string());
    assert!(targets.is_empty());
}

#[test]
fn sync_convergence() {
    let mut a = node(8000);
    let mut b = node(8001);
    let join = a.connect(b.addr);
    let (update, targets) = deliver(&mut b, join).unwrap();
    assert!(b.peers.contains(&a.addr));
    assert!(targets.contains(&a.addr));
    assert!(deliver(&mut a, update).is_none());
    assert!(a.peers.contains(&b.addr));
    assert_eq!(a.peers.snapshot(), vec![b.addr]);
    assert_eq!(b.peers.snapshot(), vec![a.addr]);
}

#[test]
fn three_node_flood() {
    let mut a = node(8000);
    let mut b = node(8001);
    let mut c = node(8002);
    let join_a = a.connect(b.addr);
    let (update, _) = deliver(&mut b, join_a).unwrap();
    deliver(&mut a, update);
    let join_c = c.connect(b.addr);
    let (update, targets) = deliver(&mut b, join_c).unwrap();
    assert_eq!(targets, vec![a.addr, c.addr]);
    let for_c = Message::update(update.data.as_ref().map(|d| match d {
        MessageData::Peers(p) => p.clone(),
        MessageData::Message(_) => Vec::new(),
    }).unwrap(), update.addr);
    deliver(&mut a, update);
    deliver(&mut c, for_c);
    assert!(a.peers.contains(&c.addr));
    assert_eq!(a.peers.snapshot(), vec![b.addr, c.addr]);
    assert_eq!(c.peers.snapshot(), vec![b.addr, a.addr]);
}
