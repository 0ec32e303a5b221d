//! What a node decides on one inbound connection.
//!
//! A connection carries at most one message. Reading it yields an [`Inbound`];
//! [`handle`] then updates the peer set and says what is left to do, as an
//! [`Outcome`]. The peer set is only touched in memory here: any sending the
//! outcome calls for happens afterwards, on a copy of the peers.
use vstd::prelude::*;
use crate::addr::PeerAddr;
use crate::message::{
    command_name, lemma_request_round_trip, message_for, message_view, request_of,
    request_of_view, Command, DataView, Message, MessageView, Request, RequestView,
};
use crate::peer_set::{insert_seq, merge_seq, PeerSet};

verus! {

/// What reading one connection produced.
pub enum Inbound {
    /// The peer closed the connection without sending anything.
    Closed,
    /// The bytes read could not be decoded as a message.
    Undecodable,
    /// One decoded message.
    Received(Message),
}

/// What is left to do once a connection has been handled.
pub enum Outcome {
    /// Nothing was sent.
    Closed,
    /// The message could not be decoded; it is dropped.
    DecodeError,
    /// The command is unknown or its payload does not fit it; it is dropped.
    ProtocolMismatch,
    /// Send `message` to each of `targets`, each send on its own.
    FanOut { message: Message, targets: Vec<PeerAddr> },
    /// The peers of an update were merged; `peers` is what the set now holds.
    Learned { peers: Vec<PeerAddr> },
    /// A piece of text from `sender` for the application.
    Deliver { text: String, sender: PeerAddr },
}

/// An outcome, in terms of views.
pub enum OutcomeView {
    Closed,
    DecodeError,
    ProtocolMismatch,
    FanOut { message: MessageView, targets: Seq<PeerAddr> },
    Learned { peers: Seq<PeerAddr> },
    Deliver { text: Seq<char>, sender: PeerAddr },
}

pub open spec fn outcome_view(o: Outcome) -> OutcomeView {
    match o {
        Outcome::Closed => OutcomeView::Closed,
        Outcome::DecodeError => OutcomeView::DecodeError,
        Outcome::ProtocolMismatch => OutcomeView::ProtocolMismatch,
        Outcome::FanOut { message, targets } => OutcomeView::FanOut {
            message: message_view(message),
            targets: targets@,
        },
        Outcome::Learned { peers } => OutcomeView::Learned { peers: peers@ },
        Outcome::Deliver { text, sender } => OutcomeView::Deliver { text: text@, sender },
    }
}

/// The peers of a node owned by `own` that knew `s`, after it handled a
/// message asking `req` (`None`: a message it did not understand).
pub open spec fn peers_after(s: Seq<PeerAddr>, req: Option<RequestView>, own: PeerAddr) -> Seq<
    PeerAddr,
> {
    match req {
        Some(RequestView::Join { sender }) => insert_seq(s, sender, own),
        Some(RequestView::Learn { peers }) => merge_seq(s, peers, own),
        _ => s,
    }
}

/// What is left to do after that message. A join is answered by an update
/// carrying all the peers now known, sent to every one of them.
pub open spec fn outcome_after(s: Seq<PeerAddr>, req: Option<RequestView>, own: PeerAddr) -> OutcomeView {
    match req {
        None => OutcomeView::ProtocolMismatch,
        Some(RequestView::Join { sender }) => OutcomeView::FanOut {
            message: MessageView {
                command: command_name(Command::Update),
                data: Some(DataView::Peers(peers_after(s, req, own))),
                sender: own,
            },
            targets: peers_after(s, req, own),
        },
        Some(RequestView::Learn { peers }) => OutcomeView::Learned { peers: peers_after(s, req, own) },
        Some(RequestView::Text { text, sender }) => OutcomeView::Deliver { text, sender },
    }
}

/// Handles what was read from one connection on behalf of the node that owns
/// `peers`.
pub fn handle(peers: &mut PeerSet, inbound: Inbound) -> (r: Outcome)
    requires
        old(peers).wf(),
    ensures
        final(peers).wf(),
        final(peers).own() == old(peers).own(),
        !(inbound matches Inbound::Received(m) && request_of(m) is Some) ==> final(peers)@ == old(
            peers,
        )@,
        match inbound {
            Inbound::Closed => outcome_view(r) == OutcomeView::Closed && final(peers)@ == old(
                peers,
            )@,
            Inbound::Undecodable => outcome_view(r) == OutcomeView::DecodeError && final(peers)@
                == old(peers)@,
            Inbound::Received(m) => {
                &&& final(peers)@ == peers_after(old(peers)@, request_of(m), old(peers).own())
                &&& outcome_view(r) == outcome_after(old(peers)@, request_of(m), old(peers).own())
            },
        },
{
    match inbound {
        Inbound::Closed => Outcome::Closed,
        Inbound::Undecodable => Outcome::DecodeError,
        Inbound::Received(m) => match m.request() {
            None => Outcome::ProtocolMismatch,
            Some(Request::Join { sender }) => {
                peers.insert(sender);
                let snapshot = peers.snapshot();
                let targets = peers.snapshot();
                let message = Message::update(snapshot, peers.own_addr());
                Outcome::FanOut { message, targets }
            },
            Some(Request::Learn { peers: list }) => {
                peers.merge_all(&list);
                Outcome::Learned { peers: peers.snapshot() }
            },
            Some(Request::Text { text, sender }) => Outcome::Deliver { text, sender },
        },
    }
}

/// The update that a join from `joiner` makes a node send, from a node owned
/// by `own` that knew `s`, read as what it asks of its receivers.
pub open spec fn update_on_join(s: Seq<PeerAddr>, joiner: PeerAddr, own: PeerAddr) -> Option<
    RequestView,
> {
    match outcome_after(s, Some(RequestView::Join { sender: joiner }), own) {
        OutcomeView::FanOut { message, targets: _ } => request_of_view(message),
        _ => None,
    }
}

/// The targets of that update.
pub open spec fn targets_on_join(s: Seq<PeerAddr>, joiner: PeerAddr, own: PeerAddr) -> Seq<PeerAddr> {
    match outcome_after(s, Some(RequestView::Join { sender: joiner }), own) {
        OutcomeView::FanOut { message: _, targets } => targets,
        _ => Seq::empty(),
    }
}

proof fn lemma_join_answer(s: Seq<PeerAddr>, joiner: PeerAddr, own: PeerAddr)
    ensures
        request_of_view(message_for(RequestView::Join { sender: joiner }, joiner)) == Some(
            RequestView::Join { sender: joiner },
        ),
        update_on_join(s, joiner, own) == Some(
            RequestView::Learn { peers: insert_seq(s, joiner, own) },
        ),
        targets_on_join(s, joiner, own) == insert_seq(s, joiner, own),
{
    lemma_request_round_trip(RequestView::Join { sender: joiner }, joiner, message_for(RequestView::Join { sender: joiner }, joiner));
    let p = insert_seq(s, joiner, own);
    lemma_request_round_trip(RequestView::Learn { peers: p }, own, message_for(RequestView::Learn { peers: p }, own));
}

/// Two nodes `a` and `b` that know no peer. `a` joins `b`: it learns `b` and
/// sends `b` a request to join. `b` handles it: it learns `a`, and sends its
/// update to every peer it knows, `a` among them. `a` handles that update.
/// Then `b` knows `a` and `a` knows `b`.
pub proof fn lemma_sync_convergence(a: PeerAddr, b: PeerAddr)
    requires
        a != b,
    ensures
        ({
            let a_joined = insert_seq(Seq::empty(), b, a);
            let join = request_of_view(message_for(RequestView::Join { sender: a }, a));
            let b_after = peers_after(Seq::empty(), join, b);
            let a_after = peers_after(a_joined, update_on_join(Seq::empty(), a, b), a);
            &&& b_after.contains(a)
            &&& targets_on_join(Seq::empty(), a, b).contains(a)
            &&& a_after.contains(b)
        }),
{
    let e = Seq::<PeerAddr>::empty();
    lemma_join_answer(e, a, b);
    let b_after = insert_seq(e, a, b);
    assert(b_after =~= seq![a]);
    assert(b_after[0] == a);
    let a_joined = insert_seq(e, b, a);
    assert(a_joined =~= seq![b]);
    assert(b_after.drop_last() =~= e);
    assert(merge_seq(a_joined, e, a) == a_joined);
    assert(b_after.last() == a);
    assert(merge_seq(a_joined, b_after, a) == a_joined);
    assert(a_joined[0] == b);
}

/// Three nodes `a`, `b` and `c` that know no peer. `a` joins `b` and handles
/// the update it gets back; then `c` joins `b`. The update that `b` sends on
/// `c`'s join goes to `a` too, and once `a` has handled it, `a` knows `c`,
/// though `a` never contacted `c`.
pub proof fn lemma_three_node_flood(a: PeerAddr, b: PeerAddr, c: PeerAddr)
    requires
        a != b,
        b != c,
        a != c,
    ensures
        ({
            let e = Seq::<PeerAddr>::empty();
            let b1 = peers_after(e, Some(RequestView::Join { sender: a }), b);
            let a1 = peers_after(insert_seq(e, b, a), update_on_join(e, a, b), a);
            let a2 = peers_after(a1, update_on_join(b1, c, b), a);
            &&& targets_on_join(b1, c, b).contains(a)
            &&& a2.contains(c)
            &&& a2.contains(b)
        }),
{
    let e = Seq::<PeerAddr>::empty();
    lemma_join_answer(e, a, b);
    let b1 = insert_seq(e, a, b);
    assert(b1 =~= seq![a]);
    lemma_join_answer(b1, c, b);
    assert(!b1.contains(c)) by {
        if b1.contains(c) {
            let i = choose|i: int| 0 <= i < b1.len() && b1[i] == c;
            assert(i == 0);
        }
    }
    let b2 = insert_seq(b1, c, b);
    assert(b2 =~= seq![a, c]);
    assert(b2[0] == a);
    let a0 = insert_seq(e, b, a);
    assert(a0 =~= seq![b]);
    assert(b1.drop_last() =~= e);
    assert(merge_seq(a0, e, a) == a0);
    assert(b1.last() == a);
    assert(merge_seq(a0, b1, a) == a0);
    assert(!a0.contains(c)) by {
        if a0.contains(c) {
            let i = choose|i: int| 0 <= i < a0.len() && a0[i] == c;
            assert(i == 0);
        }
    }
    assert(b2.drop_last() =~= b1);
    assert(b2.last() == c);
    assert(merge_seq(a0, b2, a) == a0.push(c));
    assert(a0.push(c)[1] == c);
    assert(a0.push(c)[0] == b);
}

} // verus!
