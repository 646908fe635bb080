//! The engine: the shared configuration, the table of destinations, and the
//! start of one worker per destination; and the reader through which the
//! consumer takes the records.

use crate::resolver::{
    dotted_decimal, dotted_decimal_text, host_and_port, parse_host_port, query_text,
    resolved_host_port, resolver_query, Resolution, ResolutionView, ResolveError,
};
use crate::types::{
    DestinationView, MPingDestination, MPingerConfig, MPingerMessage, MPingerType, SockAddrV4,
};
use crate::worker::MPingerWorker;
use vstd::prelude::*;

verus! {

/// The label of a probe method.
pub open spec fn runner_description(runner_type: MPingerType) -> Seq<char> {
    match runner_type {
        MPingerType::ICMPPing => "ICMP ping"@,
        MPingerType::TCPConnect => "TCP Connect"@,
        MPingerType::HTTPKeepAlive => "HTTP Keep Alive"@,
        MPingerType::UDPPing => "UDP"@,
        MPingerType::Rnd => "Random"@,
    }
}

/// The port of a UDP destination that names none.
pub const UDP_DEFAULT_PORT: u16 = 8888;

/// The port of a destination that names none: none, written as zero, for
/// ICMP, which has no ports; [`UDP_DEFAULT_PORT`] for UDP; the configured
/// `default_port` for every other probe method.
pub open spec fn default_port_for(config: MPingerConfig, runner_type: MPingerType) -> u16 {
    match runner_type {
        MPingerType::ICMPPing => 0,
        MPingerType::UDPPing => UDP_DEFAULT_PORT,
        _ => config.default_port,
    }
}

/// Whether the destinations of a table carry the numbers 1, 2, 3, ... in
/// the order in which they stand.
pub open spec fn numbered_from_one(destinations: Seq<DestinationView>) -> bool {
    forall|i: int| 0 <= i < destinations.len() ==> (#[trigger] destinations[i]).id == i + 1
}

/// The destination that an address resolves to, under the number `id`.
pub open spec fn destination_for(
    id: usize,
    runner_type: MPingerType,
    address: Seq<char>,
    ip: crate::types::Ipv4,
    port: u16,
) -> DestinationView {
    DestinationView {
        id,
        address,
        host: dotted_decimal(ip),
        port,
        sock_addr: SockAddrV4 { ip, port },
        ping_type: runner_type,
    }
}

/// What adding a destination does to a table and what it returns. An
/// address that resolves is appended under the number that is the size of
/// the table afterwards, which is returned. Otherwise the table stays as it
/// is and the reason is returned.
pub open spec fn table_after_add(
    destinations: Seq<DestinationView>,
    config: MPingerConfig,
    runner_type: MPingerType,
    address: Seq<char>,
    resolved: ResolutionView,
) -> (Seq<DestinationView>, Result<usize, ResolveError>) {
    match resolved_host_port(address, default_port_for(config, runner_type), resolved) {
        Ok((ip, port)) => {
            let id = (destinations.len() + 1) as usize;
            (destinations.push(destination_for(id, runner_type, address, ip, port)), Ok(id))
        },
        Err(error) => (destinations, Err(error)),
    }
}

/// The destination with the number `id` in a table that is numbered from
/// one.
pub open spec fn destination_numbered(destinations: Seq<DestinationView>, id: usize) -> Option<
    DestinationView,
> {
    if 1 <= id <= destinations.len() {
        Some(destinations[id - 1])
    } else {
        None
    }
}

/// One call that adds a destination: the probe method, the address, and
/// what the resolver answered.
pub struct AddRequest {
    pub runner_type: MPingerType,
    pub address: Seq<char>,
    pub resolved: ResolutionView,
}

/// The table after the calls of `requests`, made in order on an empty table.
pub open spec fn table_after_all(config: MPingerConfig, requests: Seq<AddRequest>) -> Seq<
    DestinationView,
>
    decreases requests.len(),
{
    if requests.len() == 0 {
        Seq::empty()
    } else {
        table_after_add(
            table_after_all(config, requests.drop_last()),
            config,
            requests.last().runner_type,
            requests.last().address,
            requests.last().resolved,
        ).0
    }
}

/// What the last of the calls of `requests` returns.
pub open spec fn last_result(config: MPingerConfig, requests: Seq<AddRequest>) -> Result<
    usize,
    ResolveError,
>
    recommends
        requests.len() > 0,
{
    table_after_add(
        table_after_all(config, requests.drop_last()),
        config,
        requests.last().runner_type,
        requests.last().address,
        requests.last().resolved,
    ).1
}

/// How many of the calls of `requests` succeed.
pub open spec fn success_count(config: MPingerConfig, requests: Seq<AddRequest>) -> nat
    decreases requests.len(),
{
    if requests.len() == 0 {
        0
    } else {
        success_count(config, requests.drop_last()) + if last_result(config, requests) is Ok {
            1nat
        } else {
            0nat
        }
    }
}

/// The numbers that successful calls return are 1, 2, 3, ... in the order
/// of the calls, without gaps: the call that is the `n`-th to succeed
/// returns `n`, and the table then holds `n` destinations, numbered from
/// one. Calls that fail in between take no number.
pub proof fn lemma_ids_count_from_one(config: MPingerConfig, requests: Seq<AddRequest>)
    requires
        requests.len() <= usize::MAX,
    ensures
        table_after_all(config, requests).len() == success_count(config, requests),
        numbered_from_one(table_after_all(config, requests)),
        requests.len() > 0 ==> match last_result(config, requests) {
            Ok(id) => id == success_count(config, requests),
            Err(_) => true,
        },
        success_count(config, requests) <= requests.len(),
    decreases requests.len(),
{
    if requests.len() > 0 {
        lemma_ids_count_from_one(config, requests.drop_last());
    }
}

/// The engine.
pub struct MPinger {
    config: MPingerConfig,
    destinations: Vec<MPingDestination>,
}

impl MPinger {
    #[verifier::type_invariant]
    spec fn well_formed(self) -> bool {
        numbered_from_one(self.destinations())
    }

    /// The configuration that all workers share.
    pub closed spec fn config(self) -> MPingerConfig {
        self.config
    }

    /// The table of destinations, in the order in which they were added.
    pub closed spec fn destinations(self) -> Seq<DestinationView> {
        self.destinations@.map_values(|dest: MPingDestination| dest@)
    }

    /// Creates an engine without destinations.
    pub fn new(config: MPingerConfig) -> (engine: MPinger)
        ensures
            engine.config() == config,
            engine.destinations() == Seq::<DestinationView>::empty(),
    {
        let engine = MPinger { config, destinations: Vec::new() };
        assert(engine.destinations() =~= Seq::<DestinationView>::empty());
        engine
    }

    /// Adds the destination `addr`, to be probed by `runner_type`, and
    /// returns its number. `resolved` is what the system resolver answered
    /// to the query that [`MPinger::resolver_query`] gives for `addr`.
    pub fn add_destination(
        &mut self,
        runner_type: MPingerType,
        addr: &str,
        resolved: &Resolution,
    ) -> (result: Result<usize, ResolveError>)
        requires
            old(self).destinations().len() < usize::MAX,
        ensures
            final(self).config() == old(self).config(),
            (final(self).destinations(), result) == table_after_add(
                old(self).destinations(),
                old(self).config(),
                runner_type,
                addr@,
                resolved@,
            ),
            numbered_from_one(final(self).destinations()),
    {
        proof {
            use_type_invariant(&*self);
        }
        match parse_host_port(addr, self.default_port(runner_type), resolved) {
            Err(error) => Err(error),
            Ok((ip, port)) => {
                let id = self.destinations.len() + 1;
                let dest = MPingDestination {
                    id,
                    address: addr.to_owned(),
                    host: dotted_decimal_text(ip),
                    port,
                    sock_addr: SockAddrV4 { ip, port },
                    ping_type: runner_type,
                };
                let ghost added = dest@;
                let ghost before = self.destinations();
                assert(before.push(added) =~= self.destinations@.push(dest).map_values(
                    |dest: MPingDestination| dest@,
                ));
                // The table is taken out, extended, and put back, so that
                // the engine is never seen with a table half changed.
                let mut table: Vec<MPingDestination> = Vec::new();
                assert(table@.map_values(|dest: MPingDestination| dest@) =~= Seq::<
                    DestinationView,
                >::empty());
                core::mem::swap(&mut self.destinations, &mut table);
                table.push(dest);
                core::mem::swap(&mut self.destinations, &mut table);
                Ok(id)
            },
        }
    }

    /// The number of destinations in the table.
    pub fn destination_count(&self) -> (count: usize)
        ensures
            count == self.destinations().len(),
    {
        self.destinations.len()
    }

    /// The port of a destination of this probe method that names none.
    pub fn default_port(&self, runner_type: MPingerType) -> (port: u16)
        ensures
            port == default_port_for(self.config(), runner_type),
    {
        match runner_type {
            MPingerType::ICMPPing => 0,
            MPingerType::UDPPing => UDP_DEFAULT_PORT,
            _ => self.config.default_port,
        }
    }

    /// The text to hand to the system resolver before `addr` is added as a
    /// destination of this probe method.
    pub fn resolver_query(&self, runner_type: MPingerType, addr: &str) -> (query: Result<
        String,
        ResolveError,
    >)
        ensures
            match query {
                Ok(text) => match host_and_port(
                    addr@,
                    default_port_for(self.config(), runner_type),
                ) {
                    Ok((host, port)) => text@ == query_text(host, port),
                    Err(_) => false,
                },
                Err(error) => host_and_port(addr@, default_port_for(self.config(), runner_type))
                    == Err::<(Seq<char>, u16), ResolveError>(error),
            },
    {
        resolver_query(addr, self.default_port(runner_type))
    }

    /// Looks a destination up by its number.
    pub fn get_destination_by_id(&self, id: usize) -> (found: Option<&MPingDestination>)
        ensures
            numbered_from_one(self.destinations()),
            match found {
                Some(dest) => destination_numbered(self.destinations(), id) == Some(dest@),
                None => destination_numbered(self.destinations(), id) is None,
            },
    {
        proof {
            use_type_invariant(self);
        }
        let mut i: usize = 0;
        while i < self.destinations.len()
            invariant
                i <= self.destinations.len(),
                numbered_from_one(self.destinations()),
                forall|k: int| 0 <= k < i ==> self.destinations[k].id != id,
            decreases self.destinations.len() - i,
        {
            assert(self.destinations()[i as int] == self.destinations[i as int]@);
            if self.destinations[i].id == id {
                return Some(&self.destinations[i]);
            }
            i += 1;
        }
        proof {
            if 1 <= id <= self.destinations().len() {
                assert(self.destinations()[id - 1] == self.destinations[id - 1]@);
            }
        }
        None
    }

    /// The label of a probe method.
    pub fn get_runner_description(&self, runner_type: &MPingerType) -> (label: &'static str)
        ensures
            label@ == runner_description(*runner_type),
    {
        match runner_type {
            MPingerType::ICMPPing => "ICMP ping",
            MPingerType::TCPConnect => "TCP Connect",
            MPingerType::HTTPKeepAlive => "HTTP Keep Alive",
            MPingerType::UDPPing => "UDP",
            MPingerType::Rnd => "Random",
        }
    }

    /// Sets the delay between two probes of one destination, for the workers
    /// that are started from now on.
    pub fn set_ping_interval(&mut self, ping_interval: u64) -> (engine: &Self)
        ensures
            final(self).config() == (MPingerConfig { ping_interval, ..old(self).config() }),
            final(self).destinations() == old(self).destinations(),
            *engine == *final(self),
    {
        proof {
            use_type_invariant(&*self);
        }
        self.config = MPingerConfig { ping_interval, ..self.config };
        self
    }

    /// The delay between two probes of one destination.
    pub fn get_ping_interval(&self) -> (ping_interval: u64)
        ensures
            ping_interval == self.config().ping_interval,
    {
        self.config.ping_interval
    }

    /// Creates one worker per destination, in the order of the table: each
    /// of its destination's probe method, with the configuration as it is
    /// now and the same `count`.
    pub fn ping_runner(
        config: MPingerConfig,
        destinations: &Vec<MPingDestination>,
        count: usize,
    ) -> (workers: Vec<MPingerWorker>)
        ensures
            workers.len() == destinations.len(),
            forall|i: int|
                0 <= i < workers.len() ==> (#[trigger] workers[i]).is_fresh_for(
                    config,
                    destinations[i]@,
                    count,
                ),
    {
        let mut workers: Vec<MPingerWorker> = Vec::new();
        let mut i: usize = 0;
        while i < destinations.len()
            invariant
                i <= destinations.len(),
                workers.len() == i,
                forall|k: int|
                    0 <= k < i ==> (#[trigger] workers[k]).is_fresh_for(
                        config,
                        destinations[k]@,
                        count,
                    ),
            decreases destinations.len() - i,
        {
            workers.push(MPingerWorker::launch(config, &destinations[i], count));
            i += 1;
        }
        workers
    }

    /// Starts a run of `count` probes per destination, or of probes without
    /// end where `count` is zero. The reader is for the consumer; each
    /// worker is for a thread of its own, which drives it and hands its
    /// records to the reader's channel.
    pub fn start(&self, count: usize) -> (run: (MPingerReader, Vec<MPingerWorker>))
        ensures
            run.0.config() == self.config(),
            run.1.len() == self.destinations().len(),
            forall|i: int|
                0 <= i < run.1.len() ==> (#[trigger] run.1[i]).is_fresh_for(
                    self.config(),
                    self.destinations()[i],
                    count,
                ),
    {
        let workers = MPinger::ping_runner(self.config, &self.destinations, count);
        assert forall|i: int| 0 <= i < workers.len() implies (#[trigger] workers[i]).is_fresh_for(
            self.config(),
            self.destinations()[i],
            count,
        ) by {
            assert(self.destinations()[i] == self.destinations[i]@);
        }
        (MPingerReader::new(self.config), workers)
    }
}

/// What the consumer's wait for the next record ended with.
#[derive(Debug, PartialEq, Eq, Copy, Clone, Structural)]
pub enum Arrival {
    /// A record came in time.
    Record(MPingerMessage),
    /// No record came within the inactivity timeout.
    TimedOut,
    /// Every worker has finished and the channel is closed.
    Closed,
}

/// The end of the result stream that the consumer holds.
pub struct MPingerReader {
    config: MPingerConfig,
}

impl MPingerReader {
    /// The configuration of the engine that started the run.
    pub closed spec fn config(self) -> MPingerConfig {
        self.config
    }

    /// Creates the reader of a run under `config`.
    pub fn new(config: MPingerConfig) -> (reader: MPingerReader)
        ensures
            reader.config() == config,
    {
        MPingerReader { config }
    }

    /// How long each wait for a record may last, in milliseconds.
    pub fn next_timeout(&self) -> (ms: u64)
        ensures
            ms == self.config().next_timeout,
    {
        self.config.next_timeout
    }

    /// One step of the stream: a record that arrived is passed on; a wait
    /// that timed out, or a channel that is closed, ends the stream.
    pub fn next(&self, arrival: Arrival) -> (item: Option<MPingerMessage>)
        ensures
            item == match arrival {
                Arrival::Record(record) => Some(record),
                Arrival::TimedOut => None,
                Arrival::Closed => None,
            },
    {
        match arrival {
            Arrival::Record(record) => Some(record),
            Arrival::TimedOut => None,
            Arrival::Closed => None,
        }
    }
}

} // verus!
