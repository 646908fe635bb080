//! Multi-target reachability and latency measurement.
//!
//! An [`MPinger`] holds a table of destinations, each with a probe method:
//! ICMP Echo, TCP connect, HTTP keep-alive `GET`, UDP ping, or a random
//! stand-in. [`MPinger::start`] gives one [`MPingerWorker`] per destination
//! and an [`MPingerReader`] for the consumer.
//!
//! Neither the engine nor a worker touches the network, a thread or a
//! channel. A worker is a state machine that says what to do next and is
//! told how it went; the program around the library carries the actions
//! out. What the workers decide, and what they report, is proved here for
//! every course that the network can take.

pub mod ambient;
pub mod average;
pub mod echo;
pub mod mpinger;
pub mod mpinger_http_keepalive;
pub mod mpinger_icmp;
pub mod mpinger_rnd;
pub mod mpinger_tcp_connect;
pub mod mpinger_udp;
pub mod peer;
pub mod probe;
pub mod resolver;
pub mod run;
pub mod stats;
pub mod text;
pub mod types;
pub mod worker;

pub use crate::average::RunningAverage;
pub use crate::echo::{
    build_icmp_echo_request, calculate_checksum, is_valid_icmp_echo_response, ICMP_SIZE,
};
pub use crate::mpinger::{Arrival, MPinger, MPingerReader};
pub use crate::mpinger_http_keepalive::MPingerHTTPKeepAlive;
pub use crate::mpinger_icmp::MPingerICMP;
pub use crate::mpinger_rnd::MPingerRnd;
pub use crate::mpinger_tcp_connect::MPingerTCPConnect;
pub use crate::mpinger_udp::MPingerUDP;
pub use crate::peer::udp_peer_reply;
pub use crate::probe::{Phase, ProbeAction, ProbeEvent, ProbeState, Readings, SocketKind};
pub use crate::resolver::{parse_host_port, Resolution, ResolveError, ResolvedAddr};
pub use crate::stats::{PingStats, MAX_AVG_PINGS};
pub use crate::types::{
    Ipv4, MPingDestination, MPingerConfig, MPingerMessage, MPingerType, SockAddrV4,
};
pub use crate::worker::MPingerWorker;
