use oak_launcher::transport::{Opt, Transport, TransportParseError, DEFAULT_TRANSPORT};
use std::str::FromStr;

#[test]
fn lower_case_names_are_parsed() {
    assert_eq!(Transport::from_str("tcp"), Ok(Transport::Tcp));
    assert_eq!(Transport::from_str("uds"), Ok(Transport::Uds));
}

#[test]
fn case_is_ignored() {
    assert_eq!("TCP".parse(), Ok(Transport::Tcp));
    assert_eq!("tCp".parse(), Ok(Transport::Tcp));
    assert_eq!("Uds".parse(), Ok(Transport::Uds));
    assert_eq!("UDS".parse(), Ok(Transport::Uds));
}

#[test]
fn other_names_are_refused() {
    for name in ["", "tcp ", " uds", "udp", "tc", "tcpp", "unix", "\u{ff34}\u{ff23}\u{ff30}", "ud\u{17f}"] {
        assert_eq!(Transport::from_str(name), Err(TransportParseError {}));
    }
}

#[test]
fn lowered_names_are_matched_as_they_are() {
    assert_eq!(Transport::from_lowercase("tcp"), Ok(Transport::Tcp));
    assert_eq!(Transport::from_lowercase("uds"), Ok(Transport::Uds));
    assert_eq!(Transport::from_lowercase("TCP"), Err(TransportParseError {}));
    assert_eq!(Transport::from_lowercase(""), Err(TransportParseError {}));
}

#[test]
fn error_text() {
    assert_eq!(TransportParseError {}.to_string(), "Invalid transport");
}

#[test]
fn transport_defaults_to_tcp() {
    assert_eq!(DEFAULT_TRANSPORT, "tcp");
    assert_eq!(Opt::from_argument(None), Ok(Opt { transport: Transport::Tcp }));
}

#[test]
fn option_selects_transport() {
    assert_eq!(Opt::from_argument(Some("Uds")), Ok(Opt { transport: Transport::Uds }));
    assert_eq!(Opt::from_argument(Some("TCP")), Ok(Opt { transport: Transport::Tcp }));
    assert_eq!(Opt::from_argument(Some("quic")), Err(TransportParseError {}));
}
