pub mod tcp;
pub mod udp;

use vstd::prelude::*;

verus! {

/// Capacity of the fixed receive buffer used by both socket sources: a
/// power of two safely above the common path MTUs (~1500 bytes for TCP
/// segments, ~1460 for UDP datagrams).
pub const MAX_PACKET_BYTES: usize = 2048;

/// A peer socket address, held as plain values: the IP address octets
/// (four for IPv4, sixteen for IPv6) and the port.
#[derive(Debug, Clone, PartialEq, Eq)]
pub struct PeerAddr {
    pub octets: Vec<u8>,
    pub port: u16,
}

impl PeerAddr {
    /// An address is well formed when its octets are those of an IPv4 or an
    /// IPv6 address.
    pub open spec fn well_formed(&self) -> bool {
        self.octets@.len() == 4 || self.octets@.len() == 16
    }

    /// Build an IPv4 peer address from its four octets and the port.
    pub fn ipv4(a: u8, b: u8, c: u8, d: u8, port: u16) -> (r: Self)
        ensures
            r.well_formed(),
            r.octets@ == seq![a, b, c, d],
            r.port == port,
    {
        let mut octets: Vec<u8> = Vec::new();
        octets.push(a);
        octets.push(b);
        octets.push(c);
        octets.push(d);
        proof {
            assert(octets@ =~= seq![a, b, c, d]);
        }
        PeerAddr { octets, port }
    }

    /// Build a peer address from its raw octets and the port.
    pub fn new(octets: Vec<u8>, port: u16) -> (r: Self)
        requires
            octets@.len() == 4 || octets@.len() == 16,
        ensures
            r.well_formed(),
            r.octets@ == octets@,
            r.port == port,
    {
        PeerAddr { octets, port }
    }
}

/// What a receive into the fixed buffer delivers of a sent byte sequence:
/// everything, when it fits the buffer; otherwise the first
/// `MAX_PACKET_BYTES` bytes.
pub open spec fn delivered_payload(sent: Seq<u8>) -> Seq<u8> {
    if sent.len() <= MAX_PACKET_BYTES {
        sent
    } else {
        sent.take(MAX_PACKET_BYTES as int)
    }
}

/// Copy the filled prefix of a receive buffer into an owned payload.
pub fn extract_payload(buf: &Vec<u8>, n: usize) -> (r: Vec<u8>)
    requires
        n <= buf@.len(),
    ensures
        r@ == buf@.take(n as int),
{
    let mut r: Vec<u8> = Vec::new();
    let mut i: usize = 0;
    while i < n
        invariant
            i <= n,
            n <= buf@.len(),
            r@ == buf@.take(i as int),
        decreases n - i,
    {
        r.push(buf[i]);
        proof {
            assert(r@ =~= buf@.take(i + 1 as int));
        }
        i = i + 1;
    }
    r
}

/// Round trip: a sent byte sequence that fits the receive buffer is
/// delivered exactly, with nothing truncated or corrupted — including at
/// the boundary, a sequence of exactly `MAX_PACKET_BYTES` bytes.
pub proof fn lemma_round_trip(sent: Seq<u8>)
    requires
        sent.len() <= MAX_PACKET_BYTES,
    ensures
        delivered_payload(sent) == sent,
{
}

/// An oversized send does not fail: it is delivered as exactly the first
/// `MAX_PACKET_BYTES` bytes of the sent sequence.
pub proof fn lemma_oversized_send_truncated(sent: Seq<u8>)
    requires
        sent.len() > MAX_PACKET_BYTES,
    ensures
        delivered_payload(sent).len() == MAX_PACKET_BYTES,
        delivered_payload(sent) == sent.take(MAX_PACKET_BYTES as int),
        forall|i: int| 0 <= i < MAX_PACKET_BYTES ==> delivered_payload(sent)[i] == sent[i],
{
}

} // verus!
