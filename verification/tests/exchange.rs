use sntp_client::error::{ErrorKind, NtpError};
use sntp_client::exchange::{
    accept_reply, local_endpoint, network_failure, select_server, Endpoint, Exchange,
    ExchangeState, IpAddress, NetworkStep,
};
use sntp_client::packet::{Leap, Mode, Packet};
use sntp_client::sync::evaluate_reply;
use sntp_client::timestamp::{TimeStamp, UnixTime};

fn at(secs: u64, nanos: u32) -> UnixTime {
    UnixTime::new(secs, nanos).expect("nanoseconds below one second")
}

fn server() -> Endpoint {
    Endpoint { ip: IpAddress::V4(0xc0a8_0001), port: 123 }
}

fn reply() -> Packet {
    Packet {
        flags: Packet::flags(Leap::LastHas61, 4, Mode::Server),
        stratum: 2,
        org: TimeStamp::encode(at(10, 0)),
        rec: TimeStamp::encode(at(10, 5_000_000)),
        xmt: TimeStamp::encode(at(10, 6_000_000)),
        ..Packet::default()
    }
}

#[test]
fn the_first_resolved_address_is_the_server() {
    let other = Endpoint { ip: IpAddress::V6(1), port: 123 };
    assert_eq!(select_server(&[server(), other]).unwrap(), server());
    assert_eq!(select_server(&[other, server()]).unwrap(), other);
    assert_eq!(select_server(&[other]).unwrap(), other);
}

#[test]
fn no_resolved_address_is_an_error() {
    let error = select_server(&[]).unwrap_err();
    assert_eq!(error.kind(), ErrorKind::AddressResolution);
    assert_eq!(error.to_string(), "Invalid server address");
}

#[test]
fn the_socket_binds_to_the_servers_address_family() {
    assert_eq!(local_endpoint(&server()), Endpoint { ip: IpAddress::V4(0), port: 0 });
    let v6 = Endpoint { ip: IpAddress::V6(0x2001_0db8 << 96 | 1), port: 123 };
    assert_eq!(local_endpoint(&v6), Endpoint { ip: IpAddress::V6(0), port: 0 });
}

#[test]
fn a_reply_of_the_server_is_accepted() {
    assert_eq!(accept_reply(&server(), &server(), &reply().encode()).unwrap(), reply());
}

#[test]
fn a_reply_from_another_address_is_unexpected() {
    let stranger = Endpoint { ip: IpAddress::V4(0xc0a8_0002), port: 123 };
    let error = accept_reply(&server(), &stranger, &reply().encode()).unwrap_err();
    assert_eq!(error.kind(), ErrorKind::UnexpectedReply);
    assert_eq!(error.to_string(), "Unexpected reply");
}

#[test]
fn a_reply_from_another_port_is_unexpected() {
    let stranger = Endpoint { port: 124, ..server() };
    let error = accept_reply(&server(), &stranger, &reply().encode()).unwrap_err();
    assert_eq!(error.kind(), ErrorKind::UnexpectedReply);
}

#[test]
fn a_reply_from_the_other_address_family_is_unexpected() {
    let stranger = Endpoint { ip: IpAddress::V6(0xc0a8_0001), port: 123 };
    let error = accept_reply(&server(), &stranger, &reply().encode()).unwrap_err();
    assert_eq!(error.kind(), ErrorKind::UnexpectedReply);
}

#[test]
fn a_truncated_reply_is_unexpected() {
    let bytes = reply().encode();
    for size in [0usize, 1, 47] {
        let error = accept_reply(&server(), &server(), &bytes[..size]).unwrap_err();
        assert_eq!(error.kind(), ErrorKind::UnexpectedReply);
        assert_eq!(error.to_string(), "Unexpected reply");
    }
}

#[test]
fn a_reply_that_is_too_long_is_unexpected() {
    let mut bytes = reply().encode();
    bytes.push(0);
    let error = accept_reply(&server(), &server(), &bytes).unwrap_err();
    assert_eq!(error.kind(), ErrorKind::UnexpectedReply);
}

#[test]
fn an_exchange_begins_idle() {
    let exchange = Exchange::new(server());
    assert_eq!(exchange, Exchange { server: server(), state: ExchangeState::Idle });
}

#[test]
fn sending_gives_the_bytes_of_the_request_and_awaits_the_reply() {
    let mut exchange = Exchange::new(server());
    let request = Packet::client_packet_at(TimeStamp::encode(at(10, 0)));
    let bytes = exchange.send(&request);
    assert_eq!(bytes, request.encode());
    assert_eq!(bytes.len(), 48);
    assert_eq!(exchange, Exchange { server: server(), state: ExchangeState::AwaitingReply });
}

#[test]
fn the_servers_reply_ends_the_exchange() {
    let mut exchange = Exchange::new(server());
    exchange.send(&Packet::client_packet_at(TimeStamp::encode(at(10, 0))));
    let packet = exchange.receive(&server(), &reply().encode()).unwrap();
    assert_eq!(packet, reply());
    assert_eq!(exchange.state, ExchangeState::Idle);
    let result = evaluate_reply(&packet, at(10, 2_000_000), at(11, 0)).unwrap();
    assert_eq!(result.offset, 4_500_000);
    assert_eq!(result.delay, 1_000_000);
    assert_eq!(result.estimated_time, 11_004_500_000);
    assert_eq!(result.leap, Leap::LastHas61);
}

#[test]
fn an_unexpected_datagram_ends_the_exchange_too() {
    let stranger = Endpoint { port: 1, ..server() };
    let mut exchange = Exchange::new(server());
    exchange.send(&Packet::client_packet_at(TimeStamp::encode(at(10, 0))));
    let error = exchange.receive(&stranger, &reply().encode()).unwrap_err();
    assert_eq!(error.kind(), ErrorKind::UnexpectedReply);
    assert_eq!(exchange.state, ExchangeState::Idle);
    exchange.send(&Packet::client_packet_at(TimeStamp::encode(at(10, 0))));
    let error = exchange.receive(&server(), &reply().encode()[..47]).unwrap_err();
    assert_eq!(error.kind(), ErrorKind::UnexpectedReply);
    assert_eq!(error.to_string(), "Unexpected reply");
    assert_eq!(exchange.state, ExchangeState::Idle);
}

#[test]
fn a_datagram_that_no_request_went_before_is_unexpected() {
    let mut exchange = Exchange::new(server());
    let error = exchange.receive(&server(), &reply().encode()).unwrap_err();
    assert_eq!(error.kind(), ErrorKind::UnexpectedReply);
    assert_eq!(exchange.state, ExchangeState::Idle);
    exchange.send(&Packet::default());
    assert!(exchange.receive(&server(), &reply().encode()).is_ok());
    let error = exchange.receive(&server(), &reply().encode()).unwrap_err();
    assert_eq!(error.kind(), ErrorKind::UnexpectedReply);
}

#[test]
fn a_failed_step_ends_the_exchange() {
    let mut exchange = Exchange::new(server());
    exchange.send(&Packet::default());
    let error = exchange.fail(NetworkStep::Receive, String::from("connection reset"));
    assert_eq!(error.kind(), ErrorKind::Socket);
    assert_eq!(error.to_string(), "connection reset");
    assert_eq!(exchange, Exchange { server: server(), state: ExchangeState::Idle });
    exchange.send(&Packet::default());
    assert_eq!(exchange.state, ExchangeState::AwaitingReply);
    assert!(exchange.receive(&server(), &reply().encode()).is_ok());
}

#[test]
fn the_sender_is_checked_before_the_content() {
    let stranger = Endpoint { port: 1, ..server() };
    let bad = Packet { stratum: 0, ..reply() };
    let error = accept_reply(&server(), &stranger, &bad.encode()).unwrap_err();
    assert_eq!(error.kind(), ErrorKind::UnexpectedReply);
    let packet = accept_reply(&server(), &server(), &bad.encode()).unwrap();
    let error = evaluate_reply(&packet, at(10, 0), at(10, 0)).unwrap_err();
    assert_eq!(error.kind(), ErrorKind::InvalidReplyContent);
}

#[test]
fn a_request_sent_back_is_discarded() {
    let request = Packet::client_packet_at(TimeStamp::encode(at(10, 0)));
    let packet = accept_reply(&server(), &server(), &request.encode()).unwrap();
    let error = evaluate_reply(&packet, at(10, 0), at(10, 0)).unwrap_err();
    assert_eq!(error.kind(), ErrorKind::InvalidReplyContent);
}

#[test]
fn a_failed_step_is_a_failure_of_its_kind() {
    let error = network_failure(NetworkStep::Resolve, String::from("no such host"));
    assert_eq!(error.kind(), ErrorKind::AddressResolution);
    assert_eq!(error.to_string(), "no such host");
    for step in [NetworkStep::Bind, NetworkStep::Send, NetworkStep::Receive] {
        let error = network_failure(step, String::from("network is unreachable"));
        assert_eq!(error.kind(), ErrorKind::Socket);
        assert_eq!(error.to_string(), "network is unreachable");
    }
}

#[test]
fn errors_carry_kind_and_message() {
    let error = NtpError::from_string(ErrorKind::Socket, String::from("connection refused"));
    assert_eq!(error.kind(), ErrorKind::Socket);
    assert_eq!(error.message(), "connection refused");
    assert_eq!(error.to_string(), "connection refused");
    let error = NtpError::from_slice(ErrorKind::AddressResolution, "no such host");
    assert_eq!(error.kind(), ErrorKind::AddressResolution);
    assert_eq!(error.message(), "no such host");
    assert_eq!(error.to_string(), "no such host");
    assert_eq!(error.kind, ErrorKind::AddressResolution);
    assert_eq!(error.msg, "no such host");
}
