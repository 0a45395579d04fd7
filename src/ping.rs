use vstd::prelude::*;

use crate::cache::{Cache, Token};
use crate::error::SurgeError;

verus! {

/// The address of a destination, by family: IPv4 as a `u32`, IPv6 as a `u128`.
#[derive(Debug, Clone, Copy, PartialEq, Eq, Structural)]
pub enum Address {
    V4(u32),
    V6(u128),
}

/// The fields of a decoded echo reply that correlation reads.
#[derive(Debug, Clone, Copy, PartialEq, Eq, Structural)]
pub struct IcmpPacket {
    /// Where the reply came from.
    pub source: Address,
    /// The identifier it carries.
    pub ident: u16,
    /// The sequence number it carries.
    pub seq_cnt: u16,
    /// Its payload size in bytes.
    pub size: usize,
}

impl IcmpPacket {
    /// The packet answers the request `(seq_cnt, ident)` sent to `destination`.
    pub open spec fn is_reply_to(self, destination: Address, seq_cnt: u16, ident: u16) -> bool {
        self.source == destination && self.seq_cnt == seq_cnt && self.ident == ident
    }

    /// Tests whether the packet answers the request `(seq_cnt, ident)` sent to `destination`.
    pub fn check_reply_packet(&self, destination: Address, seq_cnt: u16, ident: u16) -> (r: bool)
        ensures
            r == self.is_reply_to(destination, seq_cnt, ident),
    {
        self.source == destination && self.seq_cnt == seq_cnt && self.ident == ident
    }
}

/// One message taken from the session's channel, already decoded for the
/// session's address family, with the time it was received (nanoseconds).
#[derive(Debug)]
pub struct Message {
    pub packet: Result<IcmpPacket, SurgeError>,
    pub when: u64,
}

/// A reply and its round-trip time in nanoseconds.
pub type Reply = (IcmpPacket, u64);

/// The round-trip time: `when - sent`, or zero where the clock gives `when` before `sent`.
pub open spec fn elapsed(when: u64, sent: u64) -> u64 {
    if when >= sent {
        (when - sent) as u64
    } else {
        0
    }
}

/// The default payload size in bytes.
pub const DEFAULT_SIZE: usize = 56;

/// The default timeout of a probe, in nanoseconds (two seconds).
pub const DEFAULT_TIMEOUT_NANOS: u64 = 2_000_000_000;

/// Relies on rand::random, which draws the session identifier from the
/// thread-local generator: nothing is promised of the value.
pub assume_specification<T>[ rand::random::<T> ]() -> (r: T)
    where
        rand::distributions::Standard: rand::distributions::Distribution<T>,
;

/// The configuration of one probe session towards one destination.
#[derive(Debug, Clone, Copy, PartialEq, Eq, Structural)]
pub struct Pinger {
    /// Where the probes go.
    pub destination: Address,
    /// The identifier that the probes carry, fixed for the session.
    pub ident: u16,
    /// The payload size of the probes, in bytes.
    pub size: usize,
    /// The timeout of each probe, in nanoseconds.
    pub timeout_nanos: u64,
}

impl Pinger {
    /// A session towards `host` with a random identifier, a payload of 56 bytes
    /// and a timeout of two seconds.
    pub fn new(host: Address) -> (p: Pinger)
        ensures
            p.destination == host,
            p.size == DEFAULT_SIZE,
            p.timeout_nanos == DEFAULT_TIMEOUT_NANOS,
    {
        let ident: u16 = rand::random();
        Pinger { destination: host, ident, size: DEFAULT_SIZE, timeout_nanos: DEFAULT_TIMEOUT_NANOS }
    }

    /// Set the identification of ICMP.
    pub fn ident(&mut self, val: u16) -> (r: &mut Pinger)
        ensures
            *r == (Pinger { ident: val, ..*old(self) }),
            *final(self) == *final(r),
    {
        self.ident = val;
        self
    }

    /// Set the packet size (default: 56).
    pub fn size(&mut self, size: usize) -> (r: &mut Pinger)
        ensures
            *r == (Pinger { size, ..*old(self) }),
            *final(self) == *final(r),
    {
        self.size = size;
        self
    }

    /// The timeout of each probe, in nanoseconds (default: two seconds).
    pub fn timeout(&mut self, timeout_nanos: u64) -> (r: &mut Pinger)
        ensures
            *r == (Pinger { timeout_nanos, ..*old(self) }),
            *final(self) == *final(r),
    {
        self.timeout_nanos = timeout_nanos;
        self
    }

    /// The correlation key of the probe with sequence number `seq_cnt`.
    pub open spec fn token(self, seq_cnt: u16) -> Token {
        (self.ident, seq_cnt)
    }

    /// What the wait loop makes of one step: `None` to keep waiting, or the
    /// outcome of the probe. `msg` is `None` when the channel has closed.
    pub open spec fn spec_recv_step(self, cache: Map<Token, u64>, seq_cnt: u16, msg: Option<Message>) -> Option<Result<Reply, SurgeError>> {
        match msg {
            None => Some(Err(SurgeError::NetworkError)),
            Some(m) => match m.packet {
                Err(SurgeError::EchoRequestPacket) => None,
                Err(e) => Some(Err(e)),
                Ok(p) => if p.is_reply_to(self.destination, seq_cnt, self.ident)
                    && cache.contains_key(self.token(seq_cnt)) {
                    Some(Ok((p, elapsed(m.when, cache[self.token(seq_cnt)]))))
                } else {
                    None
                },
            },
        }
    }

    /// The cache after one step of the wait loop: a matching reply takes its
    /// key's entry out; anything else leaves the cache as it was.
    pub open spec fn spec_recv_cache(self, cache: Map<Token, u64>, seq_cnt: u16, msg: Option<Message>) -> Map<Token, u64> {
        match msg {
            Some(m) => match m.packet {
                Ok(p) => if p.is_reply_to(self.destination, seq_cnt, self.ident) {
                    cache.remove(self.token(seq_cnt))
                } else {
                    cache
                },
                Err(_) => cache,
            },
            None => cache,
        }
    }

    /// One step of the wait loop of the probe `seq_cnt`, on the next message
    /// of the channel (`None` once it has closed).
    pub fn recv_reply(&self, cache: &mut Cache, seq_cnt: u16, msg: Option<Message>) -> (r: Option<Result<Reply, SurgeError>>)
        ensures
            r == self.spec_recv_step(old(cache)@, seq_cnt, msg),
            final(cache)@ == self.spec_recv_cache(old(cache)@, seq_cnt, msg),
    {
        match msg {
            None => Some(Err(SurgeError::NetworkError)),
            Some(message) => match message.packet {
                Ok(packet) => {
                    if packet.check_reply_packet(self.destination, seq_cnt, self.ident) {
                        match cache.remove(self.ident, seq_cnt) {
                            Some(ins) => {
                                let rtt = if message.when >= ins { message.when - ins } else { 0 };
                                Some(Ok((packet, rtt)))
                            },
                            None => {
                                assert(old(cache)@.remove(self.token(seq_cnt)) =~= old(cache)@);
                                None
                            },
                        }
                    } else {
                        None
                    }
                },
                Err(SurgeError::EchoRequestPacket) => None,
                Err(e) => Some(Err(e)),
            },
        }
    }

    /// The cache once the probe `seq_cnt` has ended with `outcome`: every
    /// path but a match removes the key (a match has removed it already).
    pub open spec fn spec_finish_cache(self, cache: Map<Token, u64>, seq_cnt: u16, outcome: Option<Result<Reply, SurgeError>>) -> Map<Token, u64> {
        match outcome {
            Some(Ok(_)) => cache,
            _ => cache.remove(self.token(seq_cnt)),
        }
    }

    /// The result of the probe `seq_cnt` from the outcome of its wait:
    /// `None` when the deadline came first.
    pub open spec fn spec_finish(self, seq_cnt: u16, outcome: Option<Result<Reply, SurgeError>>) -> Result<Reply, SurgeError> {
        match outcome {
            Some(r) => r,
            None => Err(SurgeError::Timeout { seq: seq_cnt }),
        }
    }

    /// Ends the probe `seq_cnt` with the outcome of the race between the wait
    /// loop and the deadline (`None`: the deadline won), cleaning up its key.
    pub fn finish(&self, cache: &mut Cache, seq_cnt: u16, outcome: Option<Result<Reply, SurgeError>>) -> (r: Result<Reply, SurgeError>)
        ensures
            r == self.spec_finish(seq_cnt, outcome),
            final(cache)@ == self.spec_finish_cache(old(cache)@, seq_cnt, outcome),
    {
        match outcome {
            Some(Ok(reply)) => Ok(reply),
            Some(Err(err)) => {
                let _ = cache.remove(self.ident, seq_cnt);
                Err(err)
            },
            None => {
                let _ = cache.remove(self.ident, seq_cnt);
                Err(SurgeError::Timeout { seq: seq_cnt })
            },
        }
    }
}

} // verus!
