//! The data that the engine, its workers and its consumer exchange.

use vstd::prelude::*;

verus! {

/// The probe method of a destination.
#[derive(Debug, PartialEq, Eq, Hash, Copy, Clone, Structural)]
pub enum MPingerType {
    /// ICMP Echo Request and Reply over a raw socket.
    ICMPPing,
    /// The time a TCP connection takes to be established.
    TCPConnect,
    /// A `GET` request over one TCP connection that is kept open.
    HTTPKeepAlive,
    /// A UDP datagram and whatever comes back.
    UDPPing,
    /// No network traffic: a random latency, for trying out a consumer.
    Rnd,
}

/// The settings that all destinations of one engine share. Times are in
/// milliseconds.
#[derive(Debug, PartialEq, Eq, Copy, Clone, Structural)]
pub struct MPingerConfig {
    /// Delay between successive probes of the same destination.
    pub ping_interval: u64,
    /// Timeout of each connect, send and receive.
    pub timeout: u64,
    /// How long the consumer waits for a record before the stream ends.
    pub next_timeout: u64,
    /// How many datagrams an ICMP probe reads while looking for its reply.
    pub ping_retries: usize,
    /// The port of a destination that names none.
    pub default_port: u16,
}

impl Default for MPingerConfig {
    fn default() -> (config: MPingerConfig)
        ensures
            config == (MPingerConfig {
                ping_interval: 1000,
                timeout: 1000,
                next_timeout: 5000,
                ping_retries: 3,
                default_port: 80,
            }),
    {
        MPingerConfig {
            ping_interval: 1000,
            timeout: 1000,
            next_timeout: 5000,
            ping_retries: 3,
            default_port: 80,
        }
    }
}

/// The outcome of one probe attempt.
#[derive(Debug, PartialEq, Eq, Copy, Clone, Structural)]
pub struct MPingerMessage {
    /// The destination that was probed.
    pub destination_id: usize,
    /// The number of the attempt within its destination's run, from zero.
    pub ping_nr: usize,
    /// The probe method.
    pub runner_type: MPingerType,
    /// Wall-clock time at the start of the probe, in seconds since the Unix
    /// epoch.
    pub start_timestamp: i64,
    /// The round-trip time, zero on failure or timeout: microseconds for
    /// UDP probes, milliseconds for all others.
    pub duration: u64,
    /// Whether the probe failed. A TCP connect that fails reports `false`
    /// here and a `duration` of zero.
    pub is_error: bool,
}

/// An IPv4 address as its four octets, most significant first.
#[derive(Debug, PartialEq, Eq, Hash, Copy, Clone, Structural)]
pub struct Ipv4(pub u8, pub u8, pub u8, pub u8);

/// An IPv4 socket address.
#[derive(Debug, PartialEq, Eq, Hash, Copy, Clone, Structural)]
pub struct SockAddrV4 {
    pub ip: Ipv4,
    pub port: u16,
}

/// A resolved probe target.
#[derive(Debug, Clone)]
pub struct MPingDestination {
    /// Unique among the destinations of one engine, counted from one.
    pub id: usize,
    /// The address as the user gave it.
    pub address: String,
    /// The resolved IPv4 address in dotted-decimal notation.
    pub host: String,
    /// The resolved port.
    pub port: u16,
    /// The socket address that the prober talks to.
    pub sock_addr: SockAddrV4,
    /// The probe method.
    pub ping_type: MPingerType,
}

/// A destination with its strings as sequences of characters.
pub struct DestinationView {
    pub id: usize,
    pub address: Seq<char>,
    pub host: Seq<char>,
    pub port: u16,
    pub sock_addr: SockAddrV4,
    pub ping_type: MPingerType,
}

impl View for MPingDestination {
    type V = DestinationView;

    open spec fn view(&self) -> DestinationView {
        DestinationView {
            id: self.id,
            address: self.address@,
            host: self.host@,
            port: self.port,
            sock_addr: self.sock_addr,
            ping_type: self.ping_type,
        }
    }
}

impl MPingDestination {
    /// A copy of this destination.
    pub fn snapshot(&self) -> (copy: MPingDestination)
        ensures
            copy@ == self@,
    {
        MPingDestination {
            id: self.id,
            address: self.address.clone(),
            host: self.host.clone(),
            port: self.port,
            sock_addr: self.sock_addr,
            ping_type: self.ping_type,
        }
    }
}

} // verus!
