use mpinger::resolver::{dotted_decimal_text, resolver_query, select_address, split_host_port};
use mpinger::text::parse_port;
use mpinger::{parse_host_port, Ipv4, Resolution, ResolveError, ResolvedAddr};

fn localhost() -> Resolution {
    Resolution::Addresses(vec![ResolvedAddr::V4(Ipv4(127, 0, 0, 1))])
}

#[test]
fn host_without_port_takes_the_default() {
    assert_eq!(split_host_port("example.org", 80), Ok(("example.org".to_string(), 80)));
    assert_eq!(split_host_port("", 8888), Ok((String::new(), 8888)));
    assert_eq!(parse_host_port("localhost", 80, &localhost()), Ok((Ipv4(127, 0, 0, 1), 80)));
}

#[test]
fn host_with_port_is_split_at_the_colon() {
    assert_eq!(split_host_port("example.org:8080", 80), Ok(("example.org".to_string(), 8080)));
    assert_eq!(split_host_port("10.0.0.1:1", 80), Ok(("10.0.0.1".to_string(), 1)));
    assert_eq!(split_host_port(":443", 80), Ok((String::new(), 443)));
    assert_eq!(split_host_port("h\u{f6}st.example:65535", 80), Ok(("h\u{f6}st.example".to_string(), 65535)));
    assert_eq!(
        parse_host_port("127.0.0.1:8889", 80, &localhost()),
        Ok((Ipv4(127, 0, 0, 1), 8889))
    );
}

#[test]
fn more_than_one_colon_makes_the_whole_text_the_host() {
    assert_eq!(split_host_port("a:b:c", 80), Ok(("a:b:c".to_string(), 80)));
    assert_eq!(split_host_port("::1", 443), Ok(("::1".to_string(), 443)));
    assert_eq!(split_host_port("host:80:", 9), Ok(("host:80:".to_string(), 9)));
    assert_eq!(split_host_port("host:x:y", 9), Ok(("host:x:y".to_string(), 9)));
}

#[test]
fn unreadable_port_is_invalid_port() {
    for text in ["host:", "host:abc", "host:65536", "host:-1", "host: 80", "host:80 ", "host:8_0",
        "host:+", "host:++1", "host:0x50", "host:99999999999999999999", "host:\u{663}"]
    {
        assert_eq!(split_host_port(text, 80), Err(ResolveError::InvalidPort), "{}", text);
        assert_eq!(parse_host_port(text, 80, &localhost()), Err(ResolveError::InvalidPort));
        assert_eq!(resolver_query(text, 80), Err(ResolveError::InvalidPort));
    }
}

#[test]
fn unreadable_port_is_reported_before_the_answer_is_looked_at() {
    assert_eq!(
        parse_host_port("host:http", 80, &Resolution::Failed),
        Err(ResolveError::InvalidPort)
    );
    assert_eq!(
        parse_host_port("host:http", 80, &Resolution::Addresses(vec![ResolvedAddr::V6])),
        Err(ResolveError::InvalidPort)
    );
}

#[test]
fn port_reads_like_an_unsigned_number() {
    assert_eq!(parse_port("0"), Some(0));
    assert_eq!(parse_port("80"), Some(80));
    assert_eq!(parse_port("+80"), Some(80));
    assert_eq!(parse_port("0080"), Some(80));
    assert_eq!(parse_port("65535"), Some(65535));
    assert_eq!(parse_port("000000000000000000000000065535"), Some(65535));
    assert_eq!(parse_port("65536"), None);
    assert_eq!(parse_port("655350"), None);
    assert_eq!(parse_port(""), None);
    assert_eq!(parse_port("+"), None);
    assert_eq!(parse_port("-0"), None);
    assert_eq!(parse_port("8 0"), None);
    assert_eq!(parse_port("80+"), None);
}

#[test]
fn port_agrees_with_the_standard_parser() {
    let samples = [
        "", "0", "1", "9", "10", "+1", "+0", "-1", "++1", "+-1", "1+", " 1", "1 ", "65535",
        "65536", "65534", "99999", "100000", "4294967296", "18446744073709551616", "007",
        "+007", "0x10", "1e3", "1.0", "\u{661}", "１２", "a", "+a", "12a", "a12", "+", "-", "٣",
        "000000000000000000000000000000000000001", "655351", "6553", "70000", "+65535", "+65536",
    ];
    for text in samples {
        assert_eq!(parse_port(text), text.parse::<u16>().ok(), "{:?}", text);
    }
    for value in 0..=70_000u32 {
        let text = value.to_string();
        assert_eq!(parse_port(&text), text.parse::<u16>().ok());
    }
}

#[test]
fn resolver_failure_is_resolve_failed() {
    assert_eq!(select_address(&Resolution::Failed), Err(ResolveError::ResolveFailed));
    assert_eq!(
        parse_host_port("no.such.host:80", 80, &Resolution::Failed),
        Err(ResolveError::ResolveFailed)
    );
}

#[test]
fn empty_answer_is_no_address() {
    assert_eq!(select_address(&Resolution::Addresses(vec![])), Err(ResolveError::NoAddress));
    assert_eq!(
        parse_host_port("host", 80, &Resolution::Addresses(vec![])),
        Err(ResolveError::NoAddress)
    );
}

#[test]
fn ipv6_only_answer_is_unsupported() {
    let answer = Resolution::Addresses(vec![ResolvedAddr::V6, ResolvedAddr::V6]);
    assert_eq!(select_address(&answer), Err(ResolveError::IPv6Unsupported));
    assert_eq!(parse_host_port("host:80", 80, &answer), Err(ResolveError::IPv6Unsupported));
}

#[test]
fn only_the_first_address_counts() {
    let v6_first = Resolution::Addresses(vec![ResolvedAddr::V6, ResolvedAddr::V4(Ipv4(1, 2, 3, 4))]);
    assert_eq!(parse_host_port("host", 80, &v6_first), Err(ResolveError::IPv6Unsupported));
    let v4_first = Resolution::Addresses(vec![
        ResolvedAddr::V4(Ipv4(1, 2, 3, 4)),
        ResolvedAddr::V6,
        ResolvedAddr::V4(Ipv4(5, 6, 7, 8)),
    ]);
    assert_eq!(parse_host_port("host:99", 80, &v4_first), Ok((Ipv4(1, 2, 3, 4), 99)));
}

#[test]
fn query_is_host_colon_port() {
    assert_eq!(resolver_query("example.org", 80), Ok("example.org:80".to_string()));
    assert_eq!(resolver_query("example.org:8080", 80), Ok("example.org:8080".to_string()));
    assert_eq!(resolver_query("example.org:+0443", 80), Ok("example.org:443".to_string()));
    assert_eq!(resolver_query("a:b:c", 65535), Ok("a:b:c:65535".to_string()));
    assert_eq!(resolver_query("host:0", 80), Ok("host:0".to_string()));
    assert_eq!(resolver_query("host", 0), Ok("host:0".to_string()));
}

#[test]
fn address_in_dotted_decimal() {
    assert_eq!(dotted_decimal_text(Ipv4(127, 0, 0, 1)), "127.0.0.1");
    assert_eq!(dotted_decimal_text(Ipv4(0, 0, 0, 0)), "0.0.0.0");
    assert_eq!(dotted_decimal_text(Ipv4(255, 255, 255, 255)), "255.255.255.255");
    assert_eq!(dotted_decimal_text(Ipv4(192, 168, 10, 9)), "192.168.10.9");
    assert_eq!(dotted_decimal_text(Ipv4(1, 20, 100, 200)), "1.20.100.200");
}
