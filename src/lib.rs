//! Membership synchronisation and dissemination core of a small gossip node.
//!
//! The library holds the logic of a node: the peer addresses it knows, the
//! messages it exchanges, what it decides on each inbound message, the set of
//! targets of a periodic gossip round, and the framing of a message on the wire.
//! Sockets, threads, timers and the JSON encoding of a message live around it.
pub mod addr;
pub mod peer_set;
pub mod message;
pub mod codec;
pub mod handler;
pub mod broadcast;
pub mod node;
pub mod elapsed;
