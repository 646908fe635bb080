use mpinger::udp_peer_reply;

/// What the peer is to answer, told with the standard library.
fn expected(payload: &[u8]) -> Vec<u8> {
    match std::str::from_utf8(payload) {
        Ok(text) if text.trim().eq_ignore_ascii_case("ping") => b"pong".to_vec(),
        _ => payload.to_vec(),
    }
}

#[test]
fn ping_is_answered_with_pong() {
    assert_eq!(udp_peer_reply(b"ping"), b"pong");
}

#[test]
fn ping_in_any_case_is_answered_with_pong() {
    for payload in [&b"PING"[..], b"Ping", b"pInG", b"piNG"] {
        assert_eq!(udp_peer_reply(payload), b"pong");
    }
}

#[test]
fn white_space_around_ping_is_trimmed() {
    for payload in ["ping\n", "  ping", "\tping\r\n", " \u{a0}ping\u{3000}\u{2003} ", "\u{85}PING\u{2028}\u{2029}",
        "\u{1680}ping\u{202f}\u{205f}", "\u{b}\u{c}ping\u{200a}\u{2000}"]
    {
        assert_eq!(udp_peer_reply(payload.as_bytes()), b"pong", "{:?}", payload);
    }
}

#[test]
fn other_text_is_echoed() {
    for payload in ["", " ", "pong", "pin", "pingg", "ping!", "p ing", "ping ping", "hello",
        "ping\u{200b}", "\u{feff}ping", "ping\0", "pi\u{f1}g", "PINGS", "\u{1680}"]
    {
        assert_eq!(udp_peer_reply(payload.as_bytes()), payload.as_bytes(), "{:?}", payload);
    }
}

#[test]
fn bytes_that_are_no_text_are_echoed() {
    for payload in [&[0xFFu8][..], &[0xC2], &[b'p', b'i', b'n', b'g', 0xC2], &[0xE2, 0x80, b'p', b'i', b'n', b'g'],
        &[b'p', b'i', b'n', b'g', 0xE3, 0x80], &[0x80, b'p', b'i', b'n', b'g'], &[0, 1, 2, 3]]
    {
        assert_eq!(udp_peer_reply(payload), payload);
    }
}

#[test]
fn answer_agrees_with_trim_and_case_folding() {
    let pieces: [&[u8]; 24] = [
        b"", b" ", b"\n", b"\t", b"\r", b"\x0b", b"\x0c", b"\x1c", b"\xc2\x85", b"\xc2\xa0",
        b"\xc2\xa1", b"\xe1\x9a\x80", b"\xe2\x80\x80", b"\xe2\x80\x8a", b"\xe2\x80\x8b",
        b"\xe2\x80\xa8", b"\xe2\x80\xaf", b"\xe2\x81\x9f", b"\xe3\x80\x80", b"\xe3\x80\x81",
        b"\xe2\x80", b"x", b"\xff", b"\x08",
    ];
    let words: [&[u8]; 8] = [b"ping", b"PING", b"PiNg", b"pong", b"pin", b"pingx", b"png", b"p\xc4\xb1ng"];
    for before in pieces {
        for word in words {
            for after in pieces {
                let payload = [before, word, after].concat();
                assert_eq!(udp_peer_reply(&payload), expected(&payload), "{:?}", payload);
            }
        }
    }
}

#[test]
fn every_single_byte_around_ping_agrees() {
    for byte in 0..=255u8 {
        let mut payload = vec![byte];
        payload.extend_from_slice(b"ping");
        assert_eq!(udp_peer_reply(&payload), expected(&payload));
        let mut payload = b"ping".to_vec();
        payload.push(byte);
        assert_eq!(udp_peer_reply(&payload), expected(&payload));
        for (index, letter) in b"ping".iter().enumerate() {
            let mut payload = b"ping".to_vec();
            payload[index] = byte;
            assert_eq!(udp_peer_reply(&payload), expected(&payload), "{} {}", byte, letter);
        }
    }
}
