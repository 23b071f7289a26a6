//! Address resolution: from the segments of a structured address to the URL
//! of a WebSocket endpoint.

use crate::text::{decimal, decimal_text, dotted_quad, ip6_text, ipv4_text, ipv6_text};
use libp2p::multiaddr::{Multiaddr, Protocol};
use vstd::prelude::*;

verus! {

/// A structured multi-protocol address of the `multiaddr` crate. Its bytes
/// are hidden here; `protocols` names the segments that it is made of.
#[verifier::external_type_specification]
#[verifier::external_body]
pub struct ExMultiaddr(Multiaddr);

/// One segment of a structured address, with what address resolution reads
/// of it.
#[derive(Debug, PartialEq, Eq)]
pub enum Segment {
    /// An IPv4 host, by its four octets.
    Ip4([u8; 4]),
    /// An IPv6 host, by its eight 16-bit groups.
    Ip6([u16; 8]),
    /// A host name to be resolved to any address.
    Dns(String),
    /// A host name to be resolved to an IPv4 address.
    Dns4(String),
    /// A host name to be resolved to an IPv6 address.
    Dns6(String),
    /// A host name whose DNS records hold further addresses.
    Dnsaddr(String),
    /// A TCP port.
    Tcp(u16),
    /// The WebSocket scheme, with the path of the endpoint.
    Ws(String),
    /// The WebSocket scheme over TLS, with the path of the endpoint.
    Wss(String),
    /// Any other segment, a peer identity among them.
    Other,
}

/// The mathematical form of a [`Segment`]: texts are sequences of characters.
pub ghost enum SegmentView {
    Ip4([u8; 4]),
    Ip6([u16; 8]),
    Dns(Seq<char>),
    Dns4(Seq<char>),
    Dns6(Seq<char>),
    Dnsaddr(Seq<char>),
    Tcp(u16),
    Ws(Seq<char>),
    Wss(Seq<char>),
    Other,
}

impl View for Segment {
    type V = SegmentView;

    open spec fn view(&self) -> SegmentView {
        match self {
            Segment::Ip4(octets) => SegmentView::Ip4(*octets),
            Segment::Ip6(groups) => SegmentView::Ip6(*groups),
            Segment::Dns(name) => SegmentView::Dns(name@),
            Segment::Dns4(name) => SegmentView::Dns4(name@),
            Segment::Dns6(name) => SegmentView::Dns6(name@),
            Segment::Dnsaddr(name) => SegmentView::Dnsaddr(name@),
            Segment::Tcp(port) => SegmentView::Tcp(*port),
            Segment::Ws(path) => SegmentView::Ws(path@),
            Segment::Wss(path) => SegmentView::Wss(path@),
            Segment::Other => SegmentView::Other,
        }
    }
}

/// The views of a sequence of segments, in order.
pub open spec fn views(segments: Seq<Segment>) -> Seq<SegmentView> {
    segments.map_values(|s: Segment| s@)
}

/// The host part of a URL for a host segment: a dotted quad, an IPv6 address
/// in square brackets, or a host name as it stands. `None` for a segment that
/// names no host.
pub open spec fn host_text(segment: SegmentView) -> Option<Seq<char>> {
    match segment {
        SegmentView::Ip4(octets) => Some(dotted_quad(octets)),
        SegmentView::Ip6(groups) => Some(seq!['['] + ipv6_text(groups@) + seq![']']),
        SegmentView::Dns(name) => Some(name),
        SegmentView::Dns4(name) => Some(name),
        SegmentView::Dns6(name) => Some(name),
        SegmentView::Dnsaddr(name) => Some(name),
        _ => None,
    }
}

/// The URL scheme of a scheme segment: `ws` or `wss`.
pub open spec fn scheme_text(segment: SegmentView) -> Option<Seq<char>> {
    match segment {
        SegmentView::Ws(_) => Some(seq!['w', 's']),
        SegmentView::Wss(_) => Some(seq!['w', 's', 's']),
        _ => None,
    }
}

/// The path that a scheme segment carries.
pub open spec fn path_text(segment: SegmentView) -> Seq<char> {
    match segment {
        SegmentView::Ws(path) => path,
        SegmentView::Wss(path) => path,
        _ => Seq::empty(),
    }
}

/// Whether an address has a shape that resolves: a host, then a TCP port,
/// then a WebSocket scheme. What follows the third segment is not looked at.
pub open spec fn recognized(segments: Seq<SegmentView>) -> bool {
    &&& segments.len() >= 3
    &&& host_text(segments[0]) is Some
    &&& segments[1] is Tcp
    &&& scheme_text(segments[2]) is Some
}

/// The URL of an address: `scheme://host:port` followed by the path, for a
/// recognized shape; `None` for any other.
pub open spec fn url_of(segments: Seq<SegmentView>) -> Option<Seq<char>> {
    if recognized(segments) {
        Some(
            scheme_text(segments[2])->0 + seq![':', '/', '/'] + host_text(segments[0])->0
                + seq![':'] + decimal(segments[1]->Tcp_0 as nat) + path_text(segments[2]),
        )
    } else {
        None
    }
}

/// The segments that a structured address is made of, in order, as
/// `Multiaddr::iter` yields them.
pub uninterp spec fn protocols(addr: Multiaddr) -> Seq<SegmentView>;

/// Walks the address with `Multiaddr::iter` and moves each protocol into a
/// [`Segment`]: hosts, port and scheme with their values, every other
/// protocol as `Other`. The contract names the outcome `protocols(addr)`.
#[verifier::external_body]
pub(crate) fn segments(addr: &Multiaddr) -> (out: Vec<Segment>)
    ensures
        views(out@) == protocols(*addr),
{
    addr.iter().map(|p| match p {
        Protocol::Ip4(ip) => Segment::Ip4(ip.octets()),
        Protocol::Ip6(ip) => Segment::Ip6(ip.segments()),
        Protocol::Dns(name) => Segment::Dns(name.into_owned()),
        Protocol::Dns4(name) => Segment::Dns4(name.into_owned()),
        Protocol::Dns6(name) => Segment::Dns6(name.into_owned()),
        Protocol::Dnsaddr(name) => Segment::Dnsaddr(name.into_owned()),
        Protocol::Tcp(port) => Segment::Tcp(port),
        Protocol::Ws(path) => Segment::Ws(path.into_owned()),
        Protocol::Wss(path) => Segment::Wss(path.into_owned()),
        _ => Segment::Other,
    }).collect()
}

fn host(segment: &Segment) -> (text: Option<String>)
    ensures
        match host_text(segment@) {
            Some(t) => text matches Some(s) && s@ == t,
            None => text is None,
        },
{
    match segment {
        Segment::Ip4(octets) => Some(ipv4_text(octets)),
        Segment::Ip6(groups) => {
            proof {
                reveal_strlit("[");
                reveal_strlit("]");
            }
            let mut s = String::from_str("[");
            s.append(ip6_text(groups).as_str());
            s.append("]");
            Some(s)
        },
        Segment::Dns(name) => Some(name.clone()),
        Segment::Dns4(name) => Some(name.clone()),
        Segment::Dns6(name) => Some(name.clone()),
        Segment::Dnsaddr(name) => Some(name.clone()),
        _ => None,
    }
}

/// Resolves the segments of an address to the URL of a WebSocket endpoint.
///
/// A host segment, a TCP port and a `ws` or `wss` segment, in this order at
/// the head of the address, give `scheme://host:port` followed by the path;
/// an IPv6 host stands in square brackets. Any other shape gives `None`.
pub fn resolve(segments: &[Segment]) -> (url: Option<String>)
    ensures
        url is Some <==> recognized(views(segments@)),
        match url_of(views(segments@)) {
            Some(u) => url matches Some(s) && s@ == u,
            None => url is None,
        },
{
    if segments.len() < 3 {
        return None;
    }
    let host_port = match (host(&segments[0]), &segments[1]) {
        (Some(h), Segment::Tcp(port)) => {
            proof {
                reveal_strlit(":");
            }
            let mut s = h;
            s.append(":");
            s.append(decimal_text(*port).as_str());
            s
        },
        _ => {
            return None;
        },
    };
    proof {
        reveal_strlit("ws://");
        reveal_strlit("wss://");
    }
    let mut url = match &segments[2] {
        Segment::Ws(_) => String::from_str("ws://"),
        Segment::Wss(_) => String::from_str("wss://"),
        _ => {
            return None;
        },
    };
    url.append(host_port.as_str());
    match &segments[2] {
        Segment::Ws(path) => url.append(path.as_str()),
        Segment::Wss(path) => url.append(path.as_str()),
        _ => {},
    }
    Some(url)
}

/// Resolves a structured address to the URL of a WebSocket endpoint, or to
/// `None` where its shape is not one that [`resolve`] recognizes.
pub fn websocket_url(addr: &Multiaddr) -> (url: Option<String>)
    ensures
        url is Some <==> recognized(protocols(*addr)),
        match url_of(protocols(*addr)) {
            Some(u) => url matches Some(s) && s@ == u,
            None => url is None,
        },
{
    let parts = segments(addr);
    resolve(parts.as_slice())
}

} // verus!
