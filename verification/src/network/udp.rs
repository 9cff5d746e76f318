use vstd::prelude::*;
use crate::error::AsyncListenerError;
use crate::network::PeerAddr;
use crate::network::extract_payload;

verus! {

/// One received datagram: its payload bytes and the sender's address.
/// Ownership of the payload passes to the consumer on yield; the source
/// retains nothing.
#[derive(Debug)]
pub struct UDPPacket {
    pub data: Vec<u8>,
    pub addr: PeerAddr,
}

impl UDPPacket {
    pub fn new(data: Vec<u8>, addr: PeerAddr) -> (r: Self)
        ensures
            r.data@ == data@,
            r.addr == addr,
    {
        UDPPacket { data, addr }
    }
}

/// The outcome of one receive on a bound datagram socket, as plain values:
/// either the receive buffer with the number of bytes filled and the
/// sender's address, or a failure diagnostic.
#[derive(Debug)]
pub enum UdpRecv {
    Datagram(Vec<u8>, usize, PeerAddr),
    Failed(String),
}

/// One pull while the bind has failed. The source stays in the failed
/// state and every pull yields the same classified network error — never a
/// packet — so a consumer is always told why nothing will arrive.
pub fn udp_pull_unbound(bind_failure: &str) -> (r: Result<UDPPacket, AsyncListenerError>)
    ensures
        r matches Err(e) && e is NetworkError && e.spec_message() == bind_failure@,
{
    Err(AsyncListenerError::network_error(bind_failure))
}

/// One pull while the socket is bound: each receive outcome yields exactly
/// one item. A received datagram becomes one packet carrying precisely the
/// filled prefix of the buffer and the sender's address; a failed receive
/// becomes one classified network error, and the sequence goes on.
pub fn udp_pull_bound(recv: UdpRecv) -> (r: Result<UDPPacket, AsyncListenerError>)
    requires
        recv matches UdpRecv::Datagram(buf, n, _) ==> n <= buf@.len(),
    ensures
        (recv matches UdpRecv::Datagram(buf, n, peer) ==> (
            r matches Ok(p) && p.data@ == buf@.take(n as int) && p.addr == peer
        )),
        (recv matches UdpRecv::Failed(m) ==> (
            r matches Err(e) && e is NetworkError && e.spec_message() == m@
        )),
{
    match recv {
        UdpRecv::Datagram(buf, n, peer) => {
            let data = extract_payload(&buf, n);
            Ok(UDPPacket::new(data, peer))
        }
        UdpRecv::Failed(m) => Err(AsyncListenerError::network_error(m.as_str())),
    }
}

} // verus!
