//! A node's configuration and the state it owns.
use vstd::prelude::*;
use crate::addr::{Host, PeerAddr, LOOPBACK_V4};
use crate::message::{message_for, message_view, Message, RequestView};
use crate::peer_set::{insert_seq, PeerSet};

verus! {

/// The port a node listens on when none is given.
pub const DEFAULT_PORT: i32 = 8000;

/// Why a configuration was refused.
#[derive(Clone, Copy, Debug, PartialEq, Eq, Structural)]
pub enum ConfigError {
    /// The gossip period is under one second.
    PeriodTooShort,
    /// The port does not fit in 0..=65535.
    PortOutOfRange,
}

impl ConfigError {
    pub fn message(&self) -> &'static str {
        match self {
            ConfigError::PeriodTooShort => "the period must be at least one second",
            ConfigError::PortOutOfRange => "the port must lie between 0 and 65535",
        }
    }
}

/// What a node is started with: the gossip period in seconds, the local port,
/// and the address of a peer to join (empty: start as the first node).
#[derive(Debug)]
pub struct Config {
    pub period: i32,
    pub port: i32,
    pub host_address: String,
}

impl Config {
    pub open spec fn wf(&self) -> bool {
        &&& self.period >= 1
        &&& 0 <= self.port <= 65535
    }

    /// A configuration from the values given at start; the port defaults to
    /// 8000 and the peer address to the empty string.
    pub fn build(period: i32, port: Option<i32>, host_address: Option<String>) -> (r: Result<
        Config,
        ConfigError,
    >)
        ensures
            ({
                let p = match port {
                    Some(p) => p,
                    None => DEFAULT_PORT,
                };
                &&& (period < 1 <==> r == Err::<Config, ConfigError>(ConfigError::PeriodTooShort))
                &&& (period >= 1 && !(0 <= p <= 65535) <==> r == Err::<Config, ConfigError>(
                    ConfigError::PortOutOfRange,
                ))
                &&& r matches Ok(c) ==> {
                    &&& c.wf()
                    &&& c.period == period
                    &&& c.port == p
                    &&& c.host_address@ == match host_address {
                        Some(h) => h@,
                        None => Seq::<char>::empty(),
                    }
                }
            }),
    {
        let port = match port {
            Some(p) => p,
            None => DEFAULT_PORT,
        };
        if period < 1 {
            return Err(ConfigError::PeriodTooShort);
        }
        if port < 0 || port > 65535 {
            return Err(ConfigError::PortOutOfRange);
        }
        let host_address = match host_address {
            Some(h) => h,
            None => String::new(),
        };
        Ok(Config { period, port, host_address })
    }
}

/// A node: its own address, its gossip period in seconds, and the peers it
/// knows.
pub struct Node {
    pub peers: PeerSet,
    pub period: i32,
    pub addr: PeerAddr,
}

impl Node {
    pub open spec fn wf(&self) -> bool {
        &&& self.peers.wf()
        &&& self.peers.own() == self.addr
        &&& self.period >= 1
    }

    /// A node on 127.0.0.1 at the configured port, knowing no peer yet.
    pub fn new(config: &Config) -> (r: Node)
        requires
            config.wf(),
        ensures
            r.wf(),
            r.addr == (PeerAddr { host: Host::V4(LOOPBACK_V4), port: config.port as u16 }),
            r.period == config.period,
            r.peers@ == Seq::<PeerAddr>::empty(),
    {
        let addr = PeerAddr::loopback(config.port as u16);
        Node { peers: PeerSet::new(addr), period: config.period, addr }
    }

    /// Joins the node at `addr`: it becomes a known peer (unless it is this
    /// node itself), and the returned request to join is to be sent to it.
    pub fn connect(&mut self, addr: PeerAddr) -> (r: Message)
        requires
            old(self).wf(),
        ensures
            final(self).wf(),
            final(self).addr == old(self).addr,
            final(self).period == old(self).period,
            final(self).peers@ == insert_seq(old(self).peers@, addr, old(self).addr),
            message_view(r) == message_for(RequestView::Join { sender: old(self).addr }, old(self).addr),
    {
        self.peers.insert(addr);
        Message::sync(self.addr)
    }

    /// The gossip period in seconds.
    pub fn period_secs(&self) -> (r: u64)
        requires
            self.wf(),
        ensures
            r == self.period,
            r >= 1,
    {
        self.period as u64
    }
}

} // verus!
