//! The host resolver: from a `host[:port]` string and the answer of the
//! system resolver to an IPv4 address and a port.
//!
//! Asking the system resolver is left to the caller. [`resolver_query`] says
//! what to ask for, [`parse_host_port`] judges the answer.

use crate::text::{append_decimal, decimal_digits, parse_port, port_number};
use crate::types::Ipv4;
use vstd::prelude::*;

verus! {

/// Why a destination could not be added.
#[derive(Debug, PartialEq, Eq, Hash, Copy, Clone, Structural)]
pub enum ResolveError {
    /// The text after the colon is not a port number.
    InvalidPort,
    /// The system resolver reported an error.
    ResolveFailed,
    /// The system resolver returned no address.
    NoAddress,
    /// The first address that the system resolver returned is an IPv6 one.
    IPv6Unsupported,
}

/// One address as the system resolver returned it.
#[derive(Debug, PartialEq, Eq, Hash, Copy, Clone, Structural)]
pub enum ResolvedAddr {
    V4(Ipv4),
    V6,
}

/// The answer of the system resolver to one query.
#[derive(Debug, Clone)]
pub enum Resolution {
    /// The resolver reported an error.
    Failed,
    /// The addresses in the order in which the resolver returned them.
    Addresses(Vec<ResolvedAddr>),
}

/// A [`Resolution`] with its addresses as a sequence.
pub enum ResolutionView {
    Failed,
    Addresses(Seq<ResolvedAddr>),
}

impl View for Resolution {
    type V = ResolutionView;

    open spec fn view(&self) -> ResolutionView {
        match self {
            Resolution::Failed => ResolutionView::Failed,
            Resolution::Addresses(addresses) => ResolutionView::Addresses(addresses@),
        }
    }
}

/// The number of colons in `text`.
pub open spec fn colon_count(text: Seq<char>) -> nat
    decreases text.len(),
{
    if text.len() == 0 {
        0
    } else {
        colon_count(text.drop_last()) + if text.last() == ':' {
            1nat
        } else {
            0nat
        }
    }
}

/// The position of the first colon in `text`, or the length of `text` if it
/// holds none.
pub open spec fn first_colon(text: Seq<char>) -> int
    decreases text.len(),
{
    if text.len() == 0 {
        0
    } else {
        let earlier = first_colon(text.drop_last());
        if earlier < text.len() - 1 || text.last() == ':' {
            earlier
        } else {
            text.len() as int
        }
    }
}

/// The host and the port that `text` names. Without a colon the whole text
/// is the host and the port is `default_port`. With exactly one colon the
/// host stands before it and the port after it, and a port that is no port
/// number is an error. With more colons the whole text is the host again and
/// the port is `default_port`.
pub open spec fn host_and_port(text: Seq<char>, default_port: u16) -> Result<
    (Seq<char>, u16),
    ResolveError,
> {
    if colon_count(text) == 1 {
        match port_number(text.skip(first_colon(text) + 1)) {
            Some(port) => Ok((text.take(first_colon(text)), port)),
            None => Err(ResolveError::InvalidPort),
        }
    } else {
        Ok((text, default_port))
    }
}

/// The query for the system resolver: host, colon, port in decimal.
pub open spec fn query_text(host: Seq<char>, port: u16) -> Seq<char> {
    host + seq![':'] + decimal_digits(port as nat)
}

/// An IPv4 address in dotted-decimal notation.
pub open spec fn dotted_decimal(ip: Ipv4) -> Seq<char> {
    decimal_digits(ip.0 as nat) + seq!['.'] + decimal_digits(ip.1 as nat) + seq!['.']
        + decimal_digits(ip.2 as nat) + seq!['.'] + decimal_digits(ip.3 as nat)
}

/// What the resolver's answer amounts to: its first address if that is an
/// IPv4 one, else the reason why there is none.
pub open spec fn first_ipv4(resolved: ResolutionView) -> Result<Ipv4, ResolveError> {
    match resolved {
        ResolutionView::Failed => Err(ResolveError::ResolveFailed),
        ResolutionView::Addresses(addresses) => if addresses.len() == 0 {
            Err(ResolveError::NoAddress)
        } else {
            match addresses[0] {
                ResolvedAddr::V4(ip) => Ok(ip),
                ResolvedAddr::V6 => Err(ResolveError::IPv6Unsupported),
            }
        },
    }
}

/// The address and port of a destination, given what the resolver answered
/// to its query. A port that cannot be read is reported before the answer is
/// looked at.
pub open spec fn resolved_host_port(
    text: Seq<char>,
    default_port: u16,
    resolved: ResolutionView,
) -> Result<(Ipv4, u16), ResolveError> {
    match host_and_port(text, default_port) {
        Err(error) => Err(error),
        Ok((host, port)) => match first_ipv4(resolved) {
            Err(error) => Err(error),
            Ok(ip) => Ok((ip, port)),
        },
    }
}

/// Splits `host_port` into host and port.
pub fn split_host_port(host_port: &str, default_port: u16) -> (parts: Result<
    (String, u16),
    ResolveError,
>)
    ensures
        match parts {
            Ok((host, port)) => host_and_port(host_port@, default_port) == Ok::<
                (Seq<char>, u16),
                ResolveError,
            >((host@, port)),
            Err(error) => host_and_port(host_port@, default_port) == Err::<
                (Seq<char>, u16),
                ResolveError,
            >(error),
        },
{
    let len = host_port.unicode_len();
    // `colons` stops counting at two.
    let mut colons: u8 = 0;
    let mut first: usize = len;
    let mut index: usize = 0;
    for c in it: host_port.chars()
        invariant
            it.seq() == host_port@,
            len == host_port@.len(),
            index == it.index(),
            colons == if colon_count(host_port@.take(index as int)) >= 2 {
                2
            } else {
                colon_count(host_port@.take(index as int))
            },
            colons == 0 ==> first == len,
            colons > 0 ==> first == first_colon(host_port@.take(index as int)) && first < index,
            colons == 0 ==> first_colon(host_port@.take(index as int)) == index,
    {
        proof {
            assert(host_port@.take(index + 1).drop_last() =~= host_port@.take(index as int));
        }
        if c == ':' {
            if colons == 0 {
                first = index;
            }
            if colons < 2 {
                colons += 1;
            }
        }
        index += 1;
    }
    assert(host_port@.take(len as int) =~= host_port@);
    if colons == 1 {
        let port_text = host_port.substring_char(first + 1, len);
        assert(port_text@ =~= host_port@.skip(first + 1));
        match parse_port(port_text) {
            Some(port) => {
                let host = host_port.substring_char(0, first);
                assert(host@ =~= host_port@.take(first as int));
                Ok((host.to_owned(), port))
            },
            None => Err(ResolveError::InvalidPort),
        }
    } else {
        Ok((host_port.to_owned(), default_port))
    }
}

/// The text to hand to the system resolver for the destination `host_port`.
pub fn resolver_query(host_port: &str, default_port: u16) -> (query: Result<String, ResolveError>)
    ensures
        match query {
            Ok(text) => match host_and_port(host_port@, default_port) {
                Ok((host, port)) => text@ == query_text(host, port),
                Err(_) => false,
            },
            Err(error) => host_and_port(host_port@, default_port) == Err::<
                (Seq<char>, u16),
                ResolveError,
            >(error),
        },
{
    match split_host_port(host_port, default_port) {
        Ok((host, port)) => {
            let mut text = host;
            text.append(":");
            proof {
                reveal_strlit(":");
                assert(":"@ =~= seq![':']);
            }
            append_decimal(&mut text, port);
            Ok(text)
        },
        Err(error) => Err(error),
    }
}

/// Writes an IPv4 address in dotted-decimal notation.
pub fn dotted_decimal_text(ip: Ipv4) -> (text: String)
    ensures
        text@ == dotted_decimal(ip),
{
    proof {
        reveal_strlit(".");
        assert("."@ =~= seq!['.']);
    }
    let mut text = String::new();
    append_decimal(&mut text, ip.0 as u16);
    text.append(".");
    append_decimal(&mut text, ip.1 as u16);
    text.append(".");
    append_decimal(&mut text, ip.2 as u16);
    text.append(".");
    append_decimal(&mut text, ip.3 as u16);
    assert(text@ =~= dotted_decimal(ip));
    text
}

/// Picks the address of a destination from the resolver's answer.
pub fn select_address(resolved: &Resolution) -> (address: Result<Ipv4, ResolveError>)
    ensures
        address == first_ipv4(resolved@),
{
    match resolved {
        Resolution::Failed => Err(ResolveError::ResolveFailed),
        Resolution::Addresses(addresses) => {
            if addresses.len() == 0 {
                Err(ResolveError::NoAddress)
            } else {
                match addresses[0] {
                    ResolvedAddr::V4(ip) => Ok(ip),
                    ResolvedAddr::V6 => Err(ResolveError::IPv6Unsupported),
                }
            }
        },
    }
}

/// Resolves `host_port` to an IPv4 address and a port, where `resolved` is
/// what the system resolver answered to [`resolver_query`] for it.
pub fn parse_host_port(host_port: &str, default_port: u16, resolved: &Resolution) -> (result:
    Result<(Ipv4, u16), ResolveError>)
    ensures
        result == resolved_host_port(host_port@, default_port, resolved@),
{
    match split_host_port(host_port, default_port) {
        Err(error) => Err(error),
        Ok((_, port)) => match select_address(resolved) {
            Err(error) => Err(error),
            Ok(ip) => Ok((ip, port)),
        },
    }
}

/// A destination whose port cannot be read is rejected as `InvalidPort`,
/// whatever the resolver answers.
pub proof fn lemma_unreadable_port_is_rejected(
    host: Seq<char>,
    port: Seq<char>,
    default_port: u16,
    resolved: ResolutionView,
)
    requires
        colon_count(host) == 0,
        colon_count(port) == 0,
        port_number(port) is None,
    ensures
        resolved_host_port(host + seq![':'] + port, default_port, resolved) == Err::<
            (Ipv4, u16),
            ResolveError,
        >(ResolveError::InvalidPort),
{
    let text = host + seq![':'] + port;
    lemma_split_at_only_colon(host, port);
    assert(text.skip(host.len() as int + 1) =~= port);
}

/// A destination whose port can be read, and for which the resolver returns
/// IPv6 addresses only, is rejected as `IPv6Unsupported`.
pub proof fn lemma_ipv6_only_is_rejected(
    text: Seq<char>,
    default_port: u16,
    addresses: Seq<ResolvedAddr>,
)
    requires
        host_and_port(text, default_port) is Ok,
        addresses.len() > 0,
        forall|i: int| 0 <= i < addresses.len() ==> addresses[i] == ResolvedAddr::V6,
    ensures
        resolved_host_port(text, default_port, ResolutionView::Addresses(addresses)) == Err::<
            (Ipv4, u16),
            ResolveError,
        >(ResolveError::IPv6Unsupported),
{
}

/// Counting colons distributes over concatenation.
proof fn lemma_colon_count_concat(front: Seq<char>, back: Seq<char>)
    ensures
        colon_count(front + back) == colon_count(front) + colon_count(back),
    decreases back.len(),
{
    if back.len() == 0 {
        assert(front + back =~= front);
    } else {
        lemma_colon_count_concat(front, back.drop_last());
        assert((front + back).drop_last() =~= front + back.drop_last());
    }
}

/// The first colon of a text without colons is at its end.
proof fn lemma_no_colon(text: Seq<char>)
    requires
        colon_count(text) == 0,
    ensures
        first_colon(text) == text.len(),
    decreases text.len(),
{
    if text.len() > 0 {
        lemma_no_colon(text.drop_last());
    }
}

/// Text that follows the first colon does not move it.
proof fn lemma_first_colon_prefix(front: Seq<char>, back: Seq<char>)
    requires
        first_colon(front) < front.len(),
    ensures
        first_colon(front + back) == first_colon(front),
    decreases back.len(),
{
    if back.len() == 0 {
        assert(front + back =~= front);
    } else {
        lemma_first_colon_prefix(front, back.drop_last());
        assert((front + back).drop_last() =~= front + back.drop_last());
    }
}

/// Two texts without colons, joined by a colon, split at that colon.
proof fn lemma_split_at_only_colon(host: Seq<char>, port: Seq<char>)
    requires
        colon_count(host) == 0,
        colon_count(port) == 0,
    ensures
        colon_count(host + seq![':'] + port) == 1,
        first_colon(host + seq![':'] + port) == host.len(),
{
    let front = host + seq![':'];
    assert(front.drop_last() =~= host);
    lemma_no_colon(host);
    assert(first_colon(front) == host.len());
    lemma_colon_count_concat(front, port);
    lemma_first_colon_prefix(front, port);
}

} // verus!
