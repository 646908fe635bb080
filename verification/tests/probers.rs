use mpinger::{
    build_icmp_echo_request, Ipv4, MPingDestination, MPingerConfig, MPingerHTTPKeepAlive,
    MPingerICMP, MPingerMessage, MPingerRnd, MPingerTCPConnect, MPingerType, MPingerUDP,
    MPingerWorker, ProbeAction, ProbeEvent, Readings, SockAddrV4, SocketKind,
};

const TARGET: SockAddrV4 = SockAddrV4 { ip: Ipv4(127, 0, 0, 1), port: 8889 };
const NOW: i64 = 1_750_000_000;

fn destination(id: usize, ping_type: MPingerType) -> MPingDestination {
    MPingDestination {
        id,
        address: "localhost:8889".to_string(),
        host: "127.0.0.1".to_string(),
        port: 8889,
        sock_addr: TARGET,
        ping_type,
    }
}

fn config() -> MPingerConfig {
    MPingerConfig { ping_interval: 10, timeout: 200, next_timeout: 50, ping_retries: 3, default_port: 80 }
}

fn at(nanos: u128) -> Readings {
    Readings { at: nanos, now: NOW, identifier: 0xBEEF, latency: 123 }
}

fn record(id: usize, nr: usize, kind: MPingerType, duration: u64, is_error: bool) -> MPingerMessage {
    MPingerMessage {
        destination_id: id,
        ping_nr: nr,
        runner_type: kind,
        start_timestamp: NOW,
        duration,
        is_error,
    }
}

/// An Echo Reply behind an IPv4 header of twenty bytes.
fn echo_reply(identifier: u16, sequence: u16) -> Vec<u8> {
    let mut datagram = vec![0u8; 28];
    datagram[0] = 0x45;
    datagram[24..26].copy_from_slice(&identifier.to_be_bytes());
    datagram[26..28].copy_from_slice(&sequence.to_be_bytes());
    datagram
}

/// Drives a worker with real readings; every action succeeds at once.
fn run_to_stop(worker: &mut MPingerWorker, limit: usize) -> (Vec<MPingerMessage>, Vec<ProbeAction>) {
    let mut records = Vec::new();
    let mut actions = Vec::new();
    let mut clock = 0u128;
    for _ in 0..limit {
        clock += 1_000_000;
        let action = worker.step(&ProbeEvent::Done, clock);
        if let ProbeAction::Emit(record) = &action {
            records.push(*record);
        }
        let stop = action == ProbeAction::Stop;
        actions.push(action);
        if stop {
            break;
        }
    }
    (records, actions)
}

// The random prober.

#[test]
fn random_prober_makes_five_probes() {
    let config = config();
    let mut worker = MPingerWorker::launch(config, &destination(1, MPingerType::Rnd), 5);
    let (records, actions) = run_to_stop(&mut worker, 100);
    assert_eq!(records.len(), 5);
    for (nr, record) in records.iter().enumerate() {
        assert_eq!(record.destination_id, 1);
        assert_eq!(record.ping_nr, nr);
        assert_eq!(record.runner_type, MPingerType::Rnd);
        assert!(!record.is_error);
        assert!(record.duration <= 300);
        assert!(record.start_timestamp > 1_600_000_000);
    }
    let sleeps = actions.iter().filter(|action| **action == ProbeAction::Sleep { ms: 10 }).count();
    assert_eq!(sleeps, 4);
    assert_eq!(actions.len(), 5 + 4 + 1);
    assert_eq!(actions.last(), Some(&ProbeAction::Stop));
}

#[test]
fn random_latencies_vary_within_their_range() {
    let mut worker = MPingerRnd::start(config(), &destination(1, MPingerType::Rnd), 0);
    let mut durations = Vec::new();
    let mut event = ProbeEvent::Done;
    for _ in 0..600 {
        if let ProbeAction::Emit(record) = worker.step(&event, 0) {
            durations.push(record.duration);
        }
        event = ProbeEvent::Done;
    }
    assert_eq!(durations.len(), 300);
    assert!(durations.iter().all(|duration| *duration <= 300));
    assert!(durations.iter().any(|duration| *duration != 300));
    assert!(durations.iter().any(|duration| *duration != durations[0]));
}

#[test]
fn random_prober_reports_the_latency_it_is_given() {
    let mut worker = MPingerRnd::start(config(), &destination(7, MPingerType::Rnd), 2);
    assert_eq!(
        worker.advance(&ProbeEvent::Done, at(5)),
        ProbeAction::Emit(record(7, 0, MPingerType::Rnd, 123, false))
    );
    assert_eq!(worker.advance(&ProbeEvent::Done, at(6)), ProbeAction::Sleep { ms: 10 });
    let later = Readings { at: 7, now: NOW + 1, identifier: 0, latency: 300 };
    assert_eq!(
        worker.advance(&ProbeEvent::Done, later),
        ProbeAction::Emit(MPingerMessage {
            destination_id: 7,
            ping_nr: 1,
            runner_type: MPingerType::Rnd,
            start_timestamp: NOW + 1,
            duration: 300,
            is_error: false,
        })
    );
    assert_eq!(worker.advance(&ProbeEvent::Done, at(8)), ProbeAction::Stop);
    assert_eq!(worker.advance(&ProbeEvent::Done, at(9)), ProbeAction::Stop);
}

#[test]
fn count_of_zero_means_no_limit() {
    let mut worker = MPingerWorker::launch(config(), &destination(1, MPingerType::Rnd), 0);
    let (records, actions) = run_to_stop(&mut worker, 2000);
    assert_eq!(records.len(), 1000);
    assert_eq!(records.last().unwrap().ping_nr, 999);
    assert!(!actions.contains(&ProbeAction::Stop));
}

#[test]
fn count_of_one_makes_one_probe_and_no_pause() {
    let mut worker = MPingerWorker::launch(config(), &destination(1, MPingerType::Rnd), 1);
    let (records, actions) = run_to_stop(&mut worker, 100);
    assert_eq!(records.len(), 1);
    assert_eq!(actions.len(), 2);
    assert_eq!(actions[1], ProbeAction::Stop);
}

// The TCP-connect prober.

#[test]
fn tcp_connect_to_closed_port_reports_zero_without_error() {
    let mut worker = MPingerTCPConnect::start(config(), &destination(1, MPingerType::TCPConnect), 2);
    let mut records = Vec::new();
    for nr in 0..2 {
        assert_eq!(
            worker.advance(&ProbeEvent::Done, at(0)),
            ProbeAction::OpenSocket { kind: SocketKind::Stream, timeout_ms: 200 }
        );
        assert_eq!(
            worker.advance(&ProbeEvent::Done, at(1_000_000)),
            ProbeAction::Connect { to: TARGET, timeout_ms: 200 }
        );
        match worker.advance(&ProbeEvent::Failed, at(9_000_000)) {
            ProbeAction::Emit(record) => records.push(record),
            other => panic!("unexpected action {:?}", other),
        }
        assert_eq!(worker.advance(&ProbeEvent::Done, at(9_000_001)), ProbeAction::Shutdown);
        let next = worker.advance(&ProbeEvent::Done, at(9_000_002));
        if nr == 0 {
            assert_eq!(next, ProbeAction::Sleep { ms: 10 });
        } else {
            assert_eq!(next, ProbeAction::Stop);
        }
    }
    assert_eq!(
        records,
        vec![record(1, 0, MPingerType::TCPConnect, 0, false), record(1, 1, MPingerType::TCPConnect, 0, false)]
    );
}

#[test]
fn tcp_connect_reports_whole_milliseconds() {
    let mut worker = MPingerTCPConnect::start(config(), &destination(3, MPingerType::TCPConnect), 1);
    worker.advance(&ProbeEvent::Done, at(0));
    worker.advance(&ProbeEvent::Done, at(1_000_000));
    // 12.999999 ms after the connect was asked for.
    assert_eq!(
        worker.advance(&ProbeEvent::Done, at(13_999_999)),
        ProbeAction::Emit(record(3, 0, MPingerType::TCPConnect, 12, false))
    );
    assert_eq!(worker.advance(&ProbeEvent::Failed, at(14_000_000)), ProbeAction::Shutdown);
    // A shutdown that fails changes nothing.
    assert_eq!(worker.advance(&ProbeEvent::Failed, at(14_000_001)), ProbeAction::Stop);
}

#[test]
fn tcp_connect_faster_than_a_millisecond_reports_zero() {
    let mut worker = MPingerTCPConnect::start(config(), &destination(3, MPingerType::TCPConnect), 1);
    worker.advance(&ProbeEvent::Done, at(0));
    worker.advance(&ProbeEvent::Done, at(500));
    assert_eq!(
        worker.advance(&ProbeEvent::Done, at(999_999)),
        ProbeAction::Emit(record(3, 0, MPingerType::TCPConnect, 0, false))
    );
}

#[test]
fn tcp_socket_that_cannot_be_opened_is_tried_again() {
    let mut worker = MPingerTCPConnect::start(config(), &destination(1, MPingerType::TCPConnect), 1);
    let open = ProbeAction::OpenSocket { kind: SocketKind::Stream, timeout_ms: 200 };
    assert_eq!(worker.advance(&ProbeEvent::Done, at(0)), open);
    assert_eq!(worker.advance(&ProbeEvent::Failed, at(1)), open);
    assert_eq!(worker.advance(&ProbeEvent::Failed, at(2)), open);
    assert_eq!(worker.advance(&ProbeEvent::Done, at(3)), ProbeAction::Connect { to: TARGET, timeout_ms: 200 });
    assert_eq!(
        worker.advance(&ProbeEvent::Done, at(3)),
        ProbeAction::Emit(record(1, 0, MPingerType::TCPConnect, 0, false))
    );
}

#[test]
fn milliseconds_are_reduced_to_32_bits() {
    let mut worker = MPingerTCPConnect::start(config(), &destination(1, MPingerType::TCPConnect), 1);
    worker.advance(&ProbeEvent::Done, at(0));
    worker.advance(&ProbeEvent::Done, at(7));
    let elapsed = ((1u128 << 32) + 5) * 1_000_000;
    assert_eq!(
        worker.advance(&ProbeEvent::Done, at(7 + elapsed)),
        ProbeAction::Emit(record(1, 0, MPingerType::TCPConnect, 5, false))
    );
}

#[test]
fn clock_that_runs_backwards_counts_as_no_time() {
    let mut worker = MPingerTCPConnect::start(config(), &destination(1, MPingerType::TCPConnect), 1);
    worker.advance(&ProbeEvent::Done, at(0));
    worker.advance(&ProbeEvent::Done, at(50_000_000));
    assert_eq!(
        worker.advance(&ProbeEvent::Done, at(10_000_000)),
        ProbeAction::Emit(record(1, 0, MPingerType::TCPConnect, 0, false))
    );
}

// The UDP prober.

#[test]
fn udp_prober_reports_microseconds() {
    let mut worker = MPingerUDP::start(config(), &destination(1, MPingerType::UDPPing), 3);
    let mut records = Vec::new();
    let mut clock = 0u128;
    for nr in 0..3 {
        assert_eq!(
            worker.advance(&ProbeEvent::Done, at(clock)),
            ProbeAction::OpenSocket { kind: SocketKind::Datagram, timeout_ms: 200 }
        );
        clock += 1_000;
        assert_eq!(
            worker.advance(&ProbeEvent::Done, at(clock)),
            ProbeAction::Send { payload: b"ping".to_vec(), to: TARGET }
        );
        assert_eq!(worker.advance(&ProbeEvent::Done, at(clock + 20_000)), ProbeAction::Receive { capacity: 1024 });
        clock += 1_234_567;
        match worker.advance(&ProbeEvent::Received(b"pong".to_vec()), at(clock)) {
            ProbeAction::Emit(record) => records.push(record),
            other => panic!("unexpected action {:?}", other),
        }
        let next = worker.advance(&ProbeEvent::Done, at(clock));
        assert_eq!(next, if nr < 2 { ProbeAction::Sleep { ms: 10 } } else { ProbeAction::Stop });
    }
    assert_eq!(
        records,
        vec![
            record(1, 0, MPingerType::UDPPing, 1234, false),
            record(1, 1, MPingerType::UDPPing, 1234, false),
            record(1, 2, MPingerType::UDPPing, 1234, false),
        ]
    );
    assert!(records.iter().all(|record| record.duration > 0 && !record.is_error));
}

#[test]
fn udp_prober_does_not_look_at_the_reply() {
    let mut worker = MPingerUDP::start(config(), &destination(1, MPingerType::UDPPing), 1);
    worker.advance(&ProbeEvent::Done, at(0));
    worker.advance(&ProbeEvent::Done, at(0));
    worker.advance(&ProbeEvent::Done, at(0));
    assert_eq!(
        worker.advance(&ProbeEvent::Received(Vec::new()), at(2_000)),
        ProbeAction::Emit(record(1, 0, MPingerType::UDPPing, 2, false))
    );
}

#[test]
fn udp_receive_that_fails_is_an_error() {
    let mut worker = MPingerUDP::start(config(), &destination(4, MPingerType::UDPPing), 2);
    worker.advance(&ProbeEvent::Done, at(0));
    worker.advance(&ProbeEvent::Done, at(0));
    worker.advance(&ProbeEvent::Done, at(0));
    assert_eq!(
        worker.advance(&ProbeEvent::Failed, at(200_000_000)),
        ProbeAction::Emit(record(4, 0, MPingerType::UDPPing, 0, true))
    );
    assert_eq!(worker.advance(&ProbeEvent::Done, at(0)), ProbeAction::Sleep { ms: 10 });
}

#[test]
fn udp_send_that_fails_is_an_error_and_the_run_goes_on() {
    let mut worker = MPingerUDP::start(config(), &destination(4, MPingerType::UDPPing), 2);
    worker.advance(&ProbeEvent::Done, at(0));
    worker.advance(&ProbeEvent::Done, at(0));
    assert_eq!(
        worker.advance(&ProbeEvent::Failed, at(1)),
        ProbeAction::Emit(record(4, 0, MPingerType::UDPPing, 0, true))
    );
    assert_eq!(worker.advance(&ProbeEvent::Done, at(2)), ProbeAction::Sleep { ms: 10 });
    assert_eq!(
        worker.advance(&ProbeEvent::Done, at(3)),
        ProbeAction::OpenSocket { kind: SocketKind::Datagram, timeout_ms: 200 }
    );
    worker.advance(&ProbeEvent::Done, at(4));
    assert_eq!(
        worker.advance(&ProbeEvent::Failed, at(5)),
        ProbeAction::Emit(record(4, 1, MPingerType::UDPPing, 0, true))
    );
    assert_eq!(worker.advance(&ProbeEvent::Done, at(6)), ProbeAction::Stop);
}

#[test]
fn udp_socket_that_cannot_be_opened_is_tried_again_without_a_record() {
    let mut worker = MPingerUDP::start(config(), &destination(4, MPingerType::UDPPing), 1);
    let open = ProbeAction::OpenSocket { kind: SocketKind::Datagram, timeout_ms: 200 };
    assert_eq!(worker.advance(&ProbeEvent::Done, at(0)), open);
    for _ in 0..5 {
        assert_eq!(worker.advance(&ProbeEvent::Failed, at(0)), open);
    }
    assert_eq!(
        worker.advance(&ProbeEvent::Done, at(0)),
        ProbeAction::Send { payload: b"ping".to_vec(), to: TARGET }
    );
}

#[test]
fn microseconds_are_reduced_to_64_bits() {
    let mut worker = MPingerUDP::start(config(), &destination(1, MPingerType::UDPPing), 1);
    worker.advance(&ProbeEvent::Done, at(0));
    worker.advance(&ProbeEvent::Done, at(0));
    worker.advance(&ProbeEvent::Done, at(0));
    let elapsed = ((1u128 << 64) + 9) * 1_000 + 999;
    assert_eq!(
        worker.advance(&ProbeEvent::Received(vec![1]), at(elapsed)),
        ProbeAction::Emit(record(1, 0, MPingerType::UDPPing, 9, false))
    );
}

// The HTTP keep-alive prober.

fn http_worker(count: usize) -> MPingerHTTPKeepAlive {
    let mut worker = MPingerHTTPKeepAlive::start(config(), &destination(2, MPingerType::HTTPKeepAlive), count);
    assert_eq!(
        worker.advance(&ProbeEvent::Done, at(0)),
        ProbeAction::OpenStream { to: TARGET, timeout_ms: 200 }
    );
    worker
}

fn http_request() -> ProbeAction {
    ProbeAction::Send { payload: b"GET / HTTP/1.1\r\nHost: 127.0.0.1\r\n\r\n".to_vec(), to: TARGET }
}

#[test]
fn http_prober_measures_up_to_the_first_read() {
    let mut worker = http_worker(2);
    assert_eq!(worker.advance(&ProbeEvent::Done, at(1_000_000)), http_request());
    assert_eq!(worker.advance(&ProbeEvent::Done, at(1_500_000)), ProbeAction::Receive { capacity: 4096 });
    assert_eq!(
        worker.advance(&ProbeEvent::Received(vec![b'x'; 512]), at(43_000_000)),
        ProbeAction::Emit(record(2, 0, MPingerType::HTTPKeepAlive, 42, false))
    );
    assert_eq!(worker.advance(&ProbeEvent::Done, at(43_000_001)), ProbeAction::Sleep { ms: 10 });
    // The connection is kept: the next probe begins with the request.
    assert_eq!(worker.advance(&ProbeEvent::Done, at(53_000_000)), http_request());
    assert_eq!(worker.advance(&ProbeEvent::Done, at(53_000_001)), ProbeAction::Receive { capacity: 4096 });
    assert_eq!(
        worker.advance(&ProbeEvent::Received(Vec::new()), at(60_000_000)),
        ProbeAction::Emit(record(2, 1, MPingerType::HTTPKeepAlive, 7, false))
    );
    assert_eq!(worker.advance(&ProbeEvent::Done, at(60_000_001)), ProbeAction::Stop);
}

#[test]
fn http_prober_drains_a_response_that_fills_the_buffer() {
    let mut worker = http_worker(1);
    worker.advance(&ProbeEvent::Done, at(0));
    worker.advance(&ProbeEvent::Done, at(0));
    let full = ProbeEvent::Received(vec![0u8; 4096]);
    assert_eq!(worker.advance(&full, at(5_000_000)), ProbeAction::Receive { capacity: 4096 });
    assert_eq!(worker.advance(&full, at(6_000_000)), ProbeAction::Receive { capacity: 4096 });
    assert_eq!(worker.advance(&full, at(7_000_000)), ProbeAction::Receive { capacity: 4096 });
    // The duration is that of the first read.
    assert_eq!(
        worker.advance(&ProbeEvent::Received(vec![0u8; 4095]), at(90_000_000)),
        ProbeAction::Emit(record(2, 0, MPingerType::HTTPKeepAlive, 5, false))
    );
}

#[test]
fn http_prober_ignores_a_failure_while_draining() {
    let mut worker = http_worker(1);
    worker.advance(&ProbeEvent::Done, at(0));
    worker.advance(&ProbeEvent::Done, at(0));
    assert_eq!(
        worker.advance(&ProbeEvent::Received(vec![0u8; 4096]), at(3_000_000)),
        ProbeAction::Receive { capacity: 4096 }
    );
    assert_eq!(
        worker.advance(&ProbeEvent::Failed, at(500_000_000)),
        ProbeAction::Emit(record(2, 0, MPingerType::HTTPKeepAlive, 3, false))
    );
    assert_eq!(worker.advance(&ProbeEvent::Done, at(0)), ProbeAction::Stop);
}

#[test]
fn http_connect_that_fails_is_one_error_and_the_end() {
    let mut worker = http_worker(5);
    assert_eq!(
        worker.advance(&ProbeEvent::Failed, at(200_000_000)),
        ProbeAction::Emit(record(2, 0, MPingerType::HTTPKeepAlive, 0, true))
    );
    assert_eq!(worker.advance(&ProbeEvent::Done, at(0)), ProbeAction::Stop);
    assert_eq!(worker.advance(&ProbeEvent::Done, at(0)), ProbeAction::Stop);
}

#[test]
fn http_write_that_fails_is_an_error_and_the_end() {
    let mut worker = http_worker(5);
    worker.advance(&ProbeEvent::Done, at(0));
    assert_eq!(
        worker.advance(&ProbeEvent::Failed, at(1)),
        ProbeAction::Emit(record(2, 0, MPingerType::HTTPKeepAlive, 0, true))
    );
    assert_eq!(worker.advance(&ProbeEvent::Done, at(2)), ProbeAction::Stop);
}

#[test]
fn http_read_that_fails_is_an_error_and_the_end() {
    let mut worker = http_worker(5);
    worker.advance(&ProbeEvent::Done, at(0));
    worker.advance(&ProbeEvent::Done, at(0));
    worker.advance(&ProbeEvent::Received(vec![1, 2, 3]), at(1_000_000));
    worker.advance(&ProbeEvent::Done, at(0));
    worker.advance(&ProbeEvent::Done, at(0));
    worker.advance(&ProbeEvent::Done, at(0));
    // The second probe fails to read.
    assert_eq!(
        worker.advance(&ProbeEvent::Failed, at(1)),
        ProbeAction::Emit(record(2, 1, MPingerType::HTTPKeepAlive, 0, true))
    );
    assert_eq!(worker.advance(&ProbeEvent::Done, at(2)), ProbeAction::Stop);
}

#[test]
fn http_request_names_the_resolved_host() {
    let mut dest = destination(2, MPingerType::HTTPKeepAlive);
    dest.host = "93.184.216.34".to_string();
    let mut worker = MPingerHTTPKeepAlive::start(config(), &dest, 1);
    worker.advance(&ProbeEvent::Done, at(0));
    assert_eq!(
        worker.advance(&ProbeEvent::Done, at(0)),
        ProbeAction::Send { payload: b"GET / HTTP/1.1\r\nHost: 93.184.216.34\r\n\r\n".to_vec(), to: TARGET }
    );
    assert_eq!(
        mpinger::mpinger_http_keepalive::build_http_request("h\u{f6}st"),
        "GET / HTTP/1.1\r\nHost: h\u{f6}st\r\n\r\n".as_bytes()
    );
}

// The ICMP prober.

fn echo_worker(count: usize, retries: usize) -> MPingerICMP {
    let config = MPingerConfig { ping_retries: retries, ..config() };
    let mut worker = MPingerICMP::start(config, &destination(9, MPingerType::ICMPPing), count);
    assert_eq!(
        worker.advance(&ProbeEvent::Done, at(0)),
        ProbeAction::OpenSocket { kind: SocketKind::Raw, timeout_ms: 200 }
    );
    worker
}

#[test]
fn echo_prober_sends_a_request_and_accepts_its_reply() {
    let mut worker = echo_worker(2, 3);
    assert_eq!(
        worker.advance(&ProbeEvent::Done, at(1_000_000)),
        ProbeAction::Send { payload: vec![0x08, 0x00, 0x39, 0x10, 0xBE, 0xEF, 0x00, 0x00], to: TARGET }
    );
    assert_eq!(worker.advance(&ProbeEvent::Done, at(1_100_000)), ProbeAction::Receive { capacity: 64 });
    assert_eq!(
        worker.advance(&ProbeEvent::Received(echo_reply(0xBEEF, 0)), at(4_500_000)),
        ProbeAction::Emit(record(9, 0, MPingerType::ICMPPing, 3, false))
    );
    assert_eq!(worker.advance(&ProbeEvent::Done, at(4_600_000)), ProbeAction::Sleep { ms: 10 });
    // The second probe has a new identifier and the next sequence number.
    let second = Readings { at: 20_000_000, now: NOW + 2, identifier: 0x0102, latency: 0 };
    assert_eq!(
        worker.advance(&ProbeEvent::Done, second),
        ProbeAction::Send { payload: build_icmp_echo_request(0x0102, 1, &[]), to: TARGET }
    );
    worker.advance(&ProbeEvent::Done, at(20_000_001));
    assert_eq!(
        worker.advance(&ProbeEvent::Received(echo_reply(0x0102, 1)), at(21_000_000)),
        ProbeAction::Emit(MPingerMessage {
            destination_id: 9,
            ping_nr: 1,
            runner_type: MPingerType::ICMPPing,
            start_timestamp: NOW + 2,
            duration: 1,
            is_error: false,
        })
    );
    assert_eq!(worker.advance(&ProbeEvent::Done, at(0)), ProbeAction::Stop);
}

#[test]
fn echo_prober_skips_replies_that_are_not_its_own() {
    let mut worker = echo_worker(1, 3);
    worker.advance(&ProbeEvent::Done, at(0));
    worker.advance(&ProbeEvent::Done, at(0));
    let receive = ProbeAction::Receive { capacity: 64 };
    assert_eq!(worker.advance(&ProbeEvent::Received(echo_reply(0xBEEE, 0)), at(1_000_000)), receive);
    assert_eq!(worker.advance(&ProbeEvent::Received(echo_reply(0xBEEF, 1)), at(2_000_000)), receive);
    // The third datagram is the reply; the time runs from the send.
    assert_eq!(
        worker.advance(&ProbeEvent::Received(echo_reply(0xBEEF, 0)), at(9_000_000)),
        ProbeAction::Emit(record(9, 0, MPingerType::ICMPPing, 9, false))
    );
}

#[test]
fn echo_prober_gives_up_after_its_retries() {
    let mut worker = echo_worker(1, 3);
    worker.advance(&ProbeEvent::Done, at(0));
    worker.advance(&ProbeEvent::Done, at(0));
    let receive = ProbeAction::Receive { capacity: 64 };
    let other = ProbeEvent::Received(echo_reply(1, 1));
    assert_eq!(worker.advance(&other, at(1)), receive);
    assert_eq!(worker.advance(&other, at(2)), receive);
    assert_eq!(
        worker.advance(&other, at(3)),
        ProbeAction::Emit(record(9, 0, MPingerType::ICMPPing, 0, true))
    );
    assert_eq!(worker.advance(&ProbeEvent::Done, at(4)), ProbeAction::Stop);
}

#[test]
fn echo_prober_with_one_retry_reads_one_datagram() {
    let mut worker = echo_worker(1, 1);
    worker.advance(&ProbeEvent::Done, at(0));
    assert_eq!(worker.advance(&ProbeEvent::Done, at(0)), ProbeAction::Receive { capacity: 64 });
    assert_eq!(
        worker.advance(&ProbeEvent::Received(vec![0x45]), at(3)),
        ProbeAction::Emit(record(9, 0, MPingerType::ICMPPing, 0, true))
    );
}

#[test]
fn echo_prober_without_retries_reads_nothing() {
    let mut worker = echo_worker(2, 0);
    worker.advance(&ProbeEvent::Done, at(0));
    assert_eq!(
        worker.advance(&ProbeEvent::Done, at(0)),
        ProbeAction::Emit(record(9, 0, MPingerType::ICMPPing, 0, true))
    );
    assert_eq!(worker.advance(&ProbeEvent::Done, at(0)), ProbeAction::Sleep { ms: 10 });
}

#[test]
fn echo_receive_that_fails_is_reported_once() {
    let mut worker = echo_worker(2, 3);
    worker.advance(&ProbeEvent::Done, at(0));
    worker.advance(&ProbeEvent::Done, at(0));
    assert_eq!(
        worker.advance(&ProbeEvent::Failed, at(200_000_000)),
        ProbeAction::Emit(record(9, 0, MPingerType::ICMPPing, 0, true))
    );
    assert_eq!(worker.advance(&ProbeEvent::Done, at(200_000_001)), ProbeAction::Sleep { ms: 10 });
    // The next probe has the next number.
    worker.advance(&ProbeEvent::Done, at(0));
    worker.advance(&ProbeEvent::Done, at(0));
    assert_eq!(
        worker.advance(&ProbeEvent::Received(echo_reply(0xBEEF, 1)), at(0)),
        ProbeAction::Emit(record(9, 1, MPingerType::ICMPPing, 0, false))
    );
    assert_eq!(worker.advance(&ProbeEvent::Done, at(0)), ProbeAction::Stop);
}

#[test]
fn echo_receive_that_fails_after_other_datagrams_is_reported_once() {
    let mut worker = echo_worker(1, 3);
    worker.advance(&ProbeEvent::Done, at(0));
    worker.advance(&ProbeEvent::Done, at(0));
    assert_eq!(
        worker.advance(&ProbeEvent::Received(echo_reply(1, 1)), at(1)),
        ProbeAction::Receive { capacity: 64 }
    );
    assert_eq!(
        worker.advance(&ProbeEvent::Failed, at(2)),
        ProbeAction::Emit(record(9, 0, MPingerType::ICMPPing, 0, true))
    );
    assert_eq!(worker.advance(&ProbeEvent::Done, at(3)), ProbeAction::Stop);
}

#[test]
fn echo_destination_yields_one_record_per_probe_when_receives_fail() {
    let mut engine = mpinger::MPinger::new(config());
    let answer = mpinger::Resolution::Addresses(vec![mpinger::ResolvedAddr::V4(Ipv4(10, 0, 0, 1))]);
    engine.add_destination(MPingerType::ICMPPing, "10.0.0.1", &answer).unwrap();
    let (_, mut workers) = engine.start(1);
    let mut actions = Vec::new();
    for event in [ProbeEvent::Done, ProbeEvent::Done, ProbeEvent::Done, ProbeEvent::Failed, ProbeEvent::Done] {
        actions.push(workers[0].step(&event, 0));
    }
    let records: Vec<&ProbeAction> =
        actions.iter().filter(|action| matches!(action, ProbeAction::Emit(_))).collect();
    assert_eq!(records.len(), 1);
    match records[0] {
        ProbeAction::Emit(record) => {
            assert_eq!((record.destination_id, record.ping_nr), (1, 0));
            assert_eq!((record.duration, record.is_error), (0, true));
        }
        other => panic!("unexpected action {:?}", other),
    }
    assert_eq!(actions.last(), Some(&ProbeAction::Stop));
}

#[test]
fn echo_send_that_fails_is_an_error_and_the_end() {
    let mut worker = echo_worker(5, 3);
    worker.advance(&ProbeEvent::Done, at(0));
    assert_eq!(
        worker.advance(&ProbeEvent::Failed, at(1)),
        ProbeAction::Emit(record(9, 0, MPingerType::ICMPPing, 0, true))
    );
    assert_eq!(worker.advance(&ProbeEvent::Done, at(2)), ProbeAction::Stop);
    assert_eq!(worker.advance(&ProbeEvent::Done, at(3)), ProbeAction::Stop);
}

#[test]
fn echo_socket_that_cannot_be_opened_ends_the_worker_silently() {
    let mut worker = echo_worker(5, 3);
    assert_eq!(worker.advance(&ProbeEvent::Failed, at(1)), ProbeAction::Stop);
    assert_eq!(worker.advance(&ProbeEvent::Done, at(2)), ProbeAction::Stop);
}

#[test]
fn echo_sequence_is_the_probe_number_in_16_bits() {
    let config = MPingerConfig { ping_retries: 0, ..config() };
    let mut worker = MPingerICMP::start(config, &destination(9, MPingerType::ICMPPing), 0);
    worker.advance(&ProbeEvent::Done, at(0));
    let mut last = Vec::new();
    let mut sent = 0usize;
    // Without retries a probe is: send, record, pause.
    let mut event_count = 0;
    while sent < 65_538 {
        match worker.advance(&ProbeEvent::Done, at(0)) {
            ProbeAction::Send { payload, .. } => {
                assert_eq!(&payload[6..8], &((sent % 65_536) as u16).to_be_bytes());
                last = payload;
                sent += 1;
            }
            ProbeAction::Emit(record) => assert_eq!(record.ping_nr, sent - 1),
            ProbeAction::Sleep { .. } => {}
            other => panic!("unexpected action {:?}", other),
        }
        event_count += 1;
        assert!(event_count < 1_000_000);
    }
    assert_eq!(last, build_icmp_echo_request(0xBEEF, 1, &[]));
}

#[test]
fn echo_prober_draws_its_identifiers() {
    let mut worker = MPingerICMP::start(
        MPingerConfig { ping_retries: 0, ..config() },
        &destination(9, MPingerType::ICMPPing),
        0,
    );
    let mut identifiers = Vec::new();
    for _ in 0..200 {
        if let ProbeAction::Send { payload, .. } = worker.step(&ProbeEvent::Done, 0) {
            assert_eq!(mpinger::calculate_checksum(&payload), 0);
            identifiers.push(u16::from_be_bytes([payload[4], payload[5]]));
        }
    }
    assert!(identifiers.len() > 60);
    assert!(identifiers.iter().any(|identifier| *identifier != identifiers[0]));
}

// All probers.

#[test]
fn records_of_a_run_are_numbered_without_gaps() {
    for kind in [
        MPingerType::ICMPPing,
        MPingerType::TCPConnect,
        MPingerType::HTTPKeepAlive,
        MPingerType::UDPPing,
        MPingerType::Rnd,
    ] {
        let mut worker = MPingerWorker::launch(config(), &destination(6, kind), 7);
        let mut numbers = Vec::new();
        let mut pending = ProbeAction::Stop;
        for round in 0..1000 {
            // Every third receive fails where that does not end the worker,
            // and so does every third connect of the TCP prober; everything
            // else succeeds.
            let fails = round % 3 == 0;
            let event = match pending {
                ProbeAction::Receive { .. } if fails && kind != MPingerType::HTTPKeepAlive => ProbeEvent::Failed,
                ProbeAction::Receive { .. } => ProbeEvent::Received(vec![0u8; 10]),
                ProbeAction::Connect { .. } if fails => ProbeEvent::Failed,
                _ => ProbeEvent::Done,
            };
            pending = worker.step(&event, round as u128 * 1_000);
            match &pending {
                ProbeAction::Emit(record) => {
                    assert_eq!(record.destination_id, 6);
                    assert_eq!(record.runner_type, kind);
                    numbers.push(record.ping_nr);
                }
                ProbeAction::Stop => break,
                _ => {}
            }
        }
        assert_eq!(pending, ProbeAction::Stop);
        assert_eq!(numbers, vec![0, 1, 2, 3, 4, 5, 6], "{:?}", kind);
    }
}

#[test]
fn probes_that_fail_still_end_the_run_within_its_steps() {
    // Every connect, every send of the UDP prober and every receive fails.
    for (kind, steps) in [
        (MPingerType::TCPConnect, 5 * 4),
        (MPingerType::UDPPing, 5 * 4),
        (MPingerType::ICMPPing, (3 + 3) * 4 + 1),
    ] {
        let mut worker = MPingerWorker::launch(config(), &destination(2, kind), 4);
        let mut pending = ProbeAction::Sleep { ms: 0 };
        let mut records = Vec::new();
        let mut taken = 0;
        while pending != ProbeAction::Stop {
            let event = match pending {
                ProbeAction::Connect { .. } | ProbeAction::Receive { .. } => ProbeEvent::Failed,
                ProbeAction::Send { .. } if kind == MPingerType::UDPPing => ProbeEvent::Failed,
                _ => ProbeEvent::Done,
            };
            pending = worker.step(&event, 0);
            if let ProbeAction::Emit(record) = pending {
                records.push((record.ping_nr, record.duration));
            }
            taken += 1;
            assert!(taken <= steps, "{:?}", kind);
        }
        assert_eq!(records, vec![(0, 0), (1, 0), (2, 0), (3, 0)], "{:?}", kind);
    }
}

#[test]
fn stopped_worker_stays_stopped() {
    for kind in [
        MPingerType::ICMPPing,
        MPingerType::TCPConnect,
        MPingerType::HTTPKeepAlive,
        MPingerType::UDPPing,
        MPingerType::Rnd,
    ] {
        let mut worker = MPingerWorker::launch(config(), &destination(1, kind), 1);
        let mut pending = ProbeAction::Sleep { ms: 0 };
        for _ in 0..50 {
            let event = match pending {
                ProbeAction::Receive { .. } => ProbeEvent::Received(echo_reply(0, 0)),
                _ => ProbeEvent::Done,
            };
            pending = worker.advance(&event, Readings { at: 0, now: NOW, identifier: 0, latency: 0 });
        }
        assert_eq!(pending, ProbeAction::Stop, "{:?}", kind);
        for event in [ProbeEvent::Done, ProbeEvent::Failed, ProbeEvent::Received(vec![1])] {
            assert_eq!(worker.step(&event, 5), ProbeAction::Stop);
        }
    }
}

#[test]
fn worker_on_a_willing_network_ends_within_its_steps() {
    // Steps per probe: five, two for the random prober, and the retries
    // plus three for the ICMP prober; one more where a setup comes first.
    for (kind, steps) in [
        (MPingerType::Rnd, 2 * 6),
        (MPingerType::TCPConnect, 5 * 6),
        (MPingerType::UDPPing, 5 * 6),
        (MPingerType::HTTPKeepAlive, 5 * 6 + 1),
        (MPingerType::ICMPPing, (3 + 3) * 6 + 1),
    ] {
        let mut worker = MPingerWorker::launch(config(), &destination(1, kind), 6);
        let mut pending = ProbeAction::Sleep { ms: 0 };
        let mut records = 0;
        let mut taken = 0;
        while pending != ProbeAction::Stop {
            // Datagrams arrive, though none is the reply to an Echo Request.
            let event = match pending {
                ProbeAction::Receive { .. } => ProbeEvent::Received(vec![0u8; 40]),
                _ => ProbeEvent::Done,
            };
            pending = worker.step(&event, 0);
            if let ProbeAction::Emit(_) = pending {
                records += 1;
            }
            taken += 1;
            assert!(taken <= steps, "{:?}", kind);
        }
        assert_eq!(records, 6, "{:?}", kind);
    }
}
