use vstd::prelude::*;
use crate::error::AsyncListenerError;
use crate::network::PeerAddr;
use crate::network::extract_payload;

verus! {

/// One byte chunk read from an accepted connection: the bytes and the
/// peer's address. Ownership passes to the consumer on yield.
#[derive(Debug)]
pub struct TCPPacket {
    pub data: Vec<u8>,
    pub addr: PeerAddr,
}

impl TCPPacket {
    pub fn new(data: Vec<u8>, addr: PeerAddr) -> (r: Self)
        ensures
            r.data@ == data@,
            r.addr == addr,
    {
        TCPPacket { data, addr }
    }
}

/// The outcome of one non-blocking read on an accepted connection, as
/// plain values: the receive buffer with the number of bytes filled, a
/// would-block indication (no data ready yet), or a failure diagnostic.
#[derive(Debug)]
pub enum TcpRead {
    Bytes(Vec<u8>, usize),
    WouldBlock,
    Failed(String),
}

/// What the source does after one read attempt: deliver one item to the
/// consumer, or retry the read without yielding anything.
#[derive(Debug)]
pub enum TcpPull {
    Deliver(Result<TCPPacket, AsyncListenerError>),
    Retry,
}

/// One pull while the bind has failed. The listener stays in the failed
/// state and every pull yields the same classified network error — never a
/// packet.
pub fn tcp_pull_unbound(bind_failure: &str) -> (r: Result<TCPPacket, AsyncListenerError>)
    ensures
        r matches Err(e) && e is NetworkError && e.spec_message() == bind_failure@,
{
    Err(AsyncListenerError::network_error(bind_failure))
}

/// Decide one read attempt on an accepted connection. A successful read
/// yields exactly one packet carrying precisely the filled prefix of the
/// buffer and the peer's address. A would-block read is transient and
/// invisible to the consumer: the source retries without yielding, and
/// only then — so no spurious item is ever produced. Any other read
/// failure yields one classified network error; the listener loop
/// continues with the next connection rather than ending the sequence.
pub fn tcp_pull_bound(read: TcpRead, peer: PeerAddr) -> (r: TcpPull)
    requires
        read matches TcpRead::Bytes(buf, n) ==> n <= buf@.len(),
    ensures
        (read matches TcpRead::Bytes(buf, n) ==> (
            r matches TcpPull::Deliver(item) && item matches Ok(p)
                && p.data@ == buf@.take(n as int) && p.addr == peer
        )),
        read is WouldBlock <==> r is Retry,
        (read matches TcpRead::Failed(m) ==> (
            r matches TcpPull::Deliver(item) && item matches Err(e)
                && e is NetworkError && e.spec_message() == m@
        )),
{
    match read {
        TcpRead::Bytes(buf, n) => {
            let data = extract_payload(&buf, n);
            TcpPull::Deliver(Ok(TCPPacket::new(data, peer)))
        }
        TcpRead::WouldBlock => TcpPull::Retry,
        TcpRead::Failed(m) => {
            TcpPull::Deliver(Err(AsyncListenerError::network_error(m.as_str())))
        }
    }
}

} // verus!
