//! The messages nodes exchange, and how a message is framed on a stream.
use vstd::prelude::*;
use crate::addr::PeerAddr;

verus! {

/// What a message asks of its receiver.
#[derive(Clone, Copy, Debug, PartialEq, Eq, Structural)]
pub enum Command {
    /// The sender asks to join the receiver's peers.
    Sync,
    /// The message carries a list of peers to learn.
    Update,
    /// The message carries a piece of text to pass on to the application.
    Gossip,
}

/// The wire name of each command.
pub open spec fn command_name(c: Command) -> Seq<char> {
    match c {
        Command::Sync => ".syc"@,
        Command::Update => ".upd"@,
        Command::Gossip => ".random-message"@,
    }
}

/// The command a wire name stands for, if any.
pub open spec fn command_named(s: Seq<char>) -> Option<Command> {
    if s == command_name(Command::Sync) {
        Some(Command::Sync)
    } else if s == command_name(Command::Update) {
        Some(Command::Update)
    } else if s == command_name(Command::Gossip) {
        Some(Command::Gossip)
    } else {
        None
    }
}

/// Reading back the wire name of a command gives that command.
pub proof fn lemma_command_name_round_trip(c: Command)
    ensures
        command_named(command_name(c)) == Some(c),
{
    reveal_strlit(".syc");
    reveal_strlit(".upd");
    reveal_strlit(".random-message");
    assert(".syc"@[1] != ".upd"@[1]);
    assert(".syc"@.len() != ".random-message"@.len());
    assert(".upd"@.len() != ".random-message"@.len());
}

impl Command {
    pub fn name(&self) -> (r: &'static str)
        ensures
            r@ == command_name(*self),
    {
        match self {
            Command::Sync => ".syc",
            Command::Update => ".upd",
            Command::Gossip => ".random-message",
        }
    }

    /// The command named `s`, or `None` where `s` names none.
    pub fn from_name(s: &String) -> (r: Option<Command>)
        ensures
            r == command_named(s@),
    {
        let sync = ".syc".to_owned();
        let update = ".upd".to_owned();
        let gossip = ".random-message".to_owned();
        if *s == sync {
            Some(Command::Sync)
        } else if *s == update {
            Some(Command::Update)
        } else if *s == gossip {
            Some(Command::Gossip)
        } else {
            None
        }
    }
}

/// The payload a message may carry.
pub enum MessageData {
    /// A list of peer addresses, in order.
    Peers(Vec<PeerAddr>),
    /// A piece of text.
    Message(String),
}

/// One message: its command as written on the wire, an optional payload, and
/// the address of the node that sent it.
pub struct Message {
    pub command: String,
    pub data: Option<MessageData>,
    pub addr: PeerAddr,
}

/// A message whose command and payload belong together, read as what it asks.
pub enum Request {
    /// `sender` asks to join.
    Join { sender: PeerAddr },
    /// Learn the listed peers.
    Learn { peers: Vec<PeerAddr> },
    /// `text` from `sender` for the application.
    Text { text: String, sender: PeerAddr },
}

/// What a message asks, in terms of views.
pub enum RequestView {
    Join { sender: PeerAddr },
    Learn { peers: Seq<PeerAddr> },
    Text { text: Seq<char>, sender: PeerAddr },
}

pub open spec fn request_view(r: Request) -> RequestView {
    match r {
        Request::Join { sender } => RequestView::Join { sender },
        Request::Learn { peers } => RequestView::Learn { peers: peers@ },
        Request::Text { text, sender } => RequestView::Text { text: text@, sender },
    }
}

/// A payload, in terms of views.
pub enum DataView {
    Peers(Seq<PeerAddr>),
    Text(Seq<char>),
}

/// A message, in terms of views.
pub struct MessageView {
    pub command: Seq<char>,
    pub data: Option<DataView>,
    pub sender: PeerAddr,
}

pub open spec fn data_view(d: Option<MessageData>) -> Option<DataView> {
    match d {
        None => None,
        Some(MessageData::Peers(p)) => Some(DataView::Peers(p@)),
        Some(MessageData::Message(t)) => Some(DataView::Text(t@)),
    }
}

pub open spec fn message_view(m: Message) -> MessageView {
    MessageView { command: m.command@, data: data_view(m.data), sender: m.addr }
}

/// A synchronisation asks for no payload, an update carries peers, a gossip
/// carries text; anything else is not understood.
pub open spec fn request_of_view(v: MessageView) -> Option<RequestView> {
    match command_named(v.command) {
        Some(Command::Sync) => match v.data {
            None => Some(RequestView::Join { sender: v.sender }),
            Some(_) => None,
        },
        Some(Command::Update) => match v.data {
            Some(DataView::Peers(p)) => Some(RequestView::Learn { peers: p }),
            _ => None,
        },
        Some(Command::Gossip) => match v.data {
            Some(DataView::Text(t)) => Some(RequestView::Text { text: t, sender: v.sender }),
            _ => None,
        },
        None => None,
    }
}

pub open spec fn request_of(m: Message) -> Option<RequestView> {
    request_of_view(message_view(m))
}

/// The message that asks `r`; `sender` names the sender where `r` does not.
pub open spec fn message_for(r: RequestView, sender: PeerAddr) -> MessageView {
    match r {
        RequestView::Join { sender: s } => MessageView {
            command: command_name(Command::Sync),
            data: None,
            sender: s,
        },
        RequestView::Learn { peers } => MessageView {
            command: command_name(Command::Update),
            data: Some(DataView::Peers(peers)),
            sender,
        },
        RequestView::Text { text, sender: s } => MessageView {
            command: command_name(Command::Gossip),
            data: Some(DataView::Text(text)),
            sender: s,
        },
    }
}

/// Writing a request as a message and reading it back gives the request; and
/// a message that is understood is exactly the message written for what it
/// asks.
pub proof fn lemma_request_round_trip(r: RequestView, sender: PeerAddr, v: MessageView)
    ensures
        request_of_view(message_for(r, sender)) == Some(r),
        request_of_view(v) == Some(r) ==> message_for(r, v.sender) == v,
{
    lemma_command_name_round_trip(Command::Sync);
    lemma_command_name_round_trip(Command::Update);
    lemma_command_name_round_trip(Command::Gossip);
}

impl Message {
    /// A request to join the receiver's peers, from `sender`.
    pub fn sync(sender: PeerAddr) -> (r: Message)
        ensures
            r.command@ == command_name(Command::Sync),
            r.data.is_none(),
            r.addr == sender,
            request_of(r) == Some(RequestView::Join { sender }),
    {
        let r = Message { command: Command::Sync.name().to_owned(), data: None, addr: sender };
        proof { lemma_command_name_round_trip(Command::Sync); }
        r
    }

    /// The list `peers`, from `sender`.
    pub fn update(peers: Vec<PeerAddr>, sender: PeerAddr) -> (r: Message)
        ensures
            r.command@ == command_name(Command::Update),
            data_view(r.data) == Some(DataView::Peers(peers@)),
            r.addr == sender,
            request_of(r) == Some(RequestView::Learn { peers: peers@ }),
    {
        let r = Message {
            command: Command::Update.name().to_owned(),
            data: Some(MessageData::Peers(peers)),
            addr: sender,
        };
        proof { lemma_command_name_round_trip(Command::Update); }
        r
    }

    /// The text `text`, from `sender`.
    pub fn gossip(text: String, sender: PeerAddr) -> (r: Message)
        ensures
            r.command@ == command_name(Command::Gossip),
            data_view(r.data) == Some(DataView::Text(text@)),
            r.addr == sender,
            request_of(r) == Some(RequestView::Text { text: text@, sender }),
    {
        let r = Message {
            command: Command::Gossip.name().to_owned(),
            data: Some(MessageData::Message(text)),
            addr: sender,
        };
        proof { lemma_command_name_round_trip(Command::Gossip); }
        r
    }

    /// What the message asks, or `None` where its command is unknown or its
    /// payload does not fit the command.
    pub fn request(self) -> (r: Option<Request>)
        ensures
            request_of(self) == match r {
                Some(q) => Some(request_view(q)),
                None => None::<RequestView>,
            },
    {
        match Command::from_name(&self.command) {
            Some(Command::Sync) => match self.data {
                None => Some(Request::Join { sender: self.addr }),
                Some(_) => None,
            },
            Some(Command::Update) => match self.data {
                Some(MessageData::Peers(p)) => Some(Request::Learn { peers: p }),
                _ => None,
            },
            Some(Command::Gossip) => match self.data {
                Some(MessageData::Message(t)) => Some(Request::Text { text: t, sender: self.addr }),
                _ => None,
            },
            None => None,
        }
    }
}

} // verus!
