use oak_launcher::tcp::{SocketAddress, TcpConnector};

const LOCAL: SocketAddress = SocketAddress::V4 { ipv4: 0x7f00_0001, port: 8080 };
const PEER: SocketAddress = SocketAddress::V6 { ipv6: 1, port: 443, flowinfo: 2, scope_id: 3 };

#[test]
fn connector_connects_to_its_own_address() {
    assert_eq!(TcpConnector::new(LOCAL).addr(), LOCAL);
    assert_eq!(TcpConnector::new(PEER).addr(), PEER);
}

#[test]
fn stream_goes_by_the_incoming_address() {
    let dialed: Result<&str, u8> = Ok("stream");
    let mut stream = TcpConnector::new(LOCAL).connect(PEER, dialed).ok().unwrap();
    assert_eq!(stream.remote_addr(), Some(PEER));
    assert_eq!(*stream.inner_stream(), "stream");
}

#[test]
fn failure_to_connect_is_passed_on() {
    let dialed: Result<&str, u8> = Err(7);
    assert_eq!(TcpConnector::new(LOCAL).connect(PEER, dialed).err(), Some(7));
}

#[test]
fn use_of_the_stream_leaves_the_peer() {
    let dialed: Result<u32, u8> = Ok(1);
    let mut stream = TcpConnector::new(LOCAL).connect(PEER, dialed).ok().unwrap();
    *stream.inner_stream() = 2;
    assert_eq!(*stream.inner_stream(), 2);
    assert_eq!(stream.remote_addr(), Some(PEER));
}
