use p2p_gossip::addr::PeerAddr;
use p2p_gossip::message::{Command, Message, MessageData, Request};

fn local(port: u16) -> PeerAddr {
    PeerAddr::loopback(port)
}

#[test]
fn command_names() {
    assert_eq!(Command::Sync.name(), ".syc");
    assert_eq!(Command::Update.name(), ".upd");
    assert_eq!(Command::Gossip.name(), ".random-message");
}

#[test]
fn command_name_round_trip() {
    for c in [Command::Sync, Command::Update, Command::Gossip] {
        assert_eq!(Command::from_name(&c.name().to_string()), Some(c));
    }
    assert_eq!(Command::from_name(&".hello".to_string()), None);
    assert_eq!(Command::from_name(&String::new()), None);
}

#[test]
fn sync_message_reads_back_as_join() {
    let m = Message::sync(local(8001));
    assert_eq!(m.command, ".syc");
    assert!(m.data.is_none());
    match m.request() {
        Some(Request::Join { sender }) => assert_eq!(sender, local(8001)),
        _ => panic!("expected a join"),
    }
}

#[test]
fn update_message_reads_back_as_learn() {
    let m = Message::update(vec![local(8001), local(8002)], local(8000));
    assert_eq!(m.command, ".upd");
    assert_eq!(m.addr, local(8000));
    match m.request() {
        Some(Request::Learn { peers }) => assert_eq!(peers, vec![local(8001), local(8002)]),
        _ => panic!("expected a list of peers"),
    }
}

#[test]
fn gossip_message_reads_back_as_text() {
    let m = Message::gossip("[random message]".to_string(), local(8000));
    assert_eq!(m.command, ".random-message");
    match m.request() {
        Some(Request::Text { text, sender }) => {
            assert_eq!(text, "[random message]");
            assert_eq!(sender, local(8000));
        }
        _ => panic!("expected text"),
    }
}

#[test]
fn payload_that_does_not_fit_is_not_understood() {
    let sync_with_peers = Message {
        command: ".syc".to_string(),
        data: Some(MessageData::Peers(vec![local(8001)])),
        addr: local(8001),
    };
    assert!(sync_with_peers.request().is_none());
    let update_with_text = Message {
        command: ".upd".to_string(),
        data: Some(MessageData::Message("x".to_string())),
        addr: local(8001),
    };
    assert!(update_with_text.request().is_none());
    let gossip_without_text = Message { command: ".random-message".to_string(), data: None, addr: local(8001) };
    assert!(gossip_without_text.request().is_none());
}

#[test]
fn unknown_command_is_not_understood() {
    let m = Message { command: ".bogus".to_string(), data: None, addr: local(8001) };
    assert!(m.request().is_none());
}
