//! One round of the periodic gossip.
use vstd::prelude::*;
use crate::message::{message_for, message_view, Message, RequestView};
use crate::addr::PeerAddr;
use crate::peer_set::PeerSet;

verus! {

/// The message of one gossip round, carrying `text` from the owner of
/// `peers`, and the peers to send it to: every peer known at this moment.
pub fn gossip_round(peers: &PeerSet, text: String) -> (r: (Message, Vec<PeerAddr>))
    ensures
        message_view(r.0) == message_for(
            RequestView::Text { text: text@, sender: peers.own() },
            peers.own(),
        ),
        r.1@ == peers@,
{
    let targets = peers.snapshot();
    (Message::gossip(text, peers.own_addr()), targets)
}

} // verus!
