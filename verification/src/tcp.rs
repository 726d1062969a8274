//! The TCP transport: where a connector connects to, and who a connected stream
//! says it is connected to.

use vstd::prelude::*;

use crate::transport::ConnectedStream;

verus! {

/// The address of a socket: an IP address, as a number, and a port.
#[derive(Debug, Clone, Copy, PartialEq, Eq, Structural)]
pub enum SocketAddress {
    V4 { ipv4: u32, port: u16 },
    V6 { ipv6: u128, port: u16, flowinfo: u32, scope_id: u32 },
}

/// Connects to one address.
#[derive(Debug, Clone, Copy, PartialEq, Eq, Structural)]
pub struct TcpConnector {
    addr: SocketAddress,
}

/// A connected stream: `inner_stream`, and the address that it was connected for.
pub struct TcpConnectedStream<T> {
    remote_address: SocketAddress,
    inner_stream: T,
}

impl View for TcpConnector {
    type V = SocketAddress;

    closed spec fn view(&self) -> SocketAddress {
        self.addr
    }
}

impl<T> View for TcpConnectedStream<T> {
    type V = (SocketAddress, T);

    closed spec fn view(&self) -> (SocketAddress, T) {
        (self.remote_address, self.inner_stream)
    }
}

impl TcpConnector {
    /// A connector to `addr`.
    pub fn new(addr: SocketAddress) -> (connector: TcpConnector)
        ensures
            connector@ == addr,
    {
        TcpConnector { addr }
    }

    /// The address to connect to, whoever it is for.
    pub fn addr(&self) -> (addr: SocketAddress)
        ensures
            addr == self@,
    {
        self.addr
    }

    /// What connecting for `incoming_addr` comes to, given what came of connecting
    /// to `addr`. The stream goes by the address that it was connected for, not by
    /// the one that was connected to.
    pub fn connect<T, E>(&self, incoming_addr: SocketAddress, dialed: Result<T, E>) -> (res: Result<
        TcpConnectedStream<T>,
        E,
    >)
        ensures
            dialed matches Ok(inner_stream) ==> {
                &&& res matches Ok(stream)
                &&& stream@ == (incoming_addr, inner_stream)
                &&& stream.peer() == Some(incoming_addr)
            },
            dialed matches Err(err) ==> res == Err::<TcpConnectedStream<T>, E>(err),
    {
        match dialed {
            Ok(inner_stream) => Ok(
                TcpConnectedStream { remote_address: incoming_addr, inner_stream },
            ),
            Err(err) => Err(err),
        }
    }
}

impl<T> TcpConnectedStream<T> {
    /// The address that the stream gives as that of its peer.
    pub open spec fn peer(self) -> Option<SocketAddress> {
        Some(self@.0)
    }

    /// The address of the peer.
    pub fn remote_addr(&self) -> (addr: Option<SocketAddress>)
        ensures
            addr == self.peer(),
            addr == Some(self@.0),
    {
        Some(self.remote_address)
    }

    /// The stream to read from and to write to. Whatever is done with it, the peer
    /// stays the same.
    pub fn inner_stream(&mut self) -> (inner_stream: &mut T)
        ensures
            *inner_stream == old(self)@.1,
            final(self)@ == (old(self)@.0, *final(inner_stream)),
            final(self).peer() == old(self).peer(),
    {
        &mut self.inner_stream
    }
}

impl<T: Send + 'static> ConnectedStream for TcpConnectedStream<T> {

}

} // verus!
