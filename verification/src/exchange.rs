//! The decisions of one exchange with the server: whom to ask, where to bind,
//! which datagram counts as the answer, and where the exchange stands.
//!
//! The socket is the caller's. The caller reports what it did and what came
//! in, and is told what to send and what the exchange came to.

use crate::error::{fixed_message, ErrorKind, NtpError};
use crate::packet::{Packet, NTP_PACKET_SIZE};
use vstd::prelude::*;

verus! {

/// An internet address: the 32 bits of version 4, or the 128 bits of
/// version 6.
#[derive(Clone, Copy, Debug, PartialEq, Eq, Structural)]
pub enum IpAddress {
    V4(u32),
    V6(u128),
}

/// An address and a port.
#[derive(Clone, Copy, Debug, PartialEq, Eq, Structural)]
pub struct Endpoint {
    pub ip: IpAddress,
    pub port: u16,
}

/// The steps of an exchange that the network can fail.
#[derive(Clone, Copy, Debug, PartialEq, Eq, Structural)]
pub enum NetworkStep {
    /// Resolving the server's name.
    Resolve,
    /// Binding the local socket.
    Bind,
    /// Sending the request.
    Send,
    /// Waiting for a datagram.
    Receive,
}

/// The kind of failure that a failed step is: a name that does not resolve is
/// a failure of address resolution, every other step is the socket's.
pub open spec fn failure_kind(step: NetworkStep) -> ErrorKind {
    match step {
        NetworkStep::Resolve => ErrorKind::AddressResolution,
        _ => ErrorKind::Socket,
    }
}

/// Where a client of `server` binds its socket: the unspecified address of
/// the server's address family, and port 0, which leaves the choice of a port
/// to the system.
pub open spec fn bind_endpoint(server: Endpoint) -> Endpoint {
    Endpoint {
        ip: match server.ip {
            IpAddress::V4(_) => IpAddress::V4(0),
            IpAddress::V6(_) => IpAddress::V6(0),
        },
        port: 0,
    }
}

/// Whether a datagram of `size` bytes from `sender` is taken for the answer
/// of `server`: address and port are the server's, and the size is the
/// packet's to the byte.
pub open spec fn reply_expected(server: Endpoint, sender: Endpoint, size: nat) -> bool {
    sender.ip == server.ip && sender.port == server.port && size == NTP_PACKET_SIZE
}

/// Where an exchange stands.
#[derive(Clone, Copy, Debug, PartialEq, Eq, Structural)]
pub enum ExchangeState {
    /// Nothing has been sent, or the last exchange is over.
    Idle,
    /// The request has been sent and the server's answer is awaited.
    AwaitingReply,
}

/// One client's dealings with its server: one request out, one datagram in,
/// and then the next exchange, which knows nothing of the last.
#[derive(Clone, Copy, Debug, PartialEq, Eq, Structural)]
pub struct Exchange {
    /// The server that is asked, and the only sender that is listened to.
    pub server: Endpoint,
    /// Where the exchange stands.
    pub state: ExchangeState,
}

/// The failure that ends an exchange whose step `step` failed with the
/// system's message `msg`.
pub fn network_failure(step: NetworkStep, msg: String) -> (res: NtpError)
    ensures
        res.kind == failure_kind(step),
        res.msg@ == msg@,
{
    let kind = match step {
        NetworkStep::Resolve => ErrorKind::AddressResolution,
        _ => ErrorKind::Socket,
    };
    NtpError::from_string(kind, msg)
}

/// The server to ask: the first address that its name resolved to. Fails
/// where the name resolved to no address.
pub fn select_server(resolved: &[Endpoint]) -> (res: Result<Endpoint, NtpError>)
    ensures
        match res {
            Ok(server) => resolved@.len() > 0 && server == resolved@[0],
            Err(e) => resolved@.len() == 0 && e.kind == ErrorKind::AddressResolution && e.msg@
                == "Invalid server address"@,
        },
{
    if resolved.len() == 0 {
        return Err(NtpError::from_slice(ErrorKind::AddressResolution, "Invalid server address"));
    }
    Ok(resolved[0])
}

/// Where a client of `server` binds its socket.
pub fn local_endpoint(server: &Endpoint) -> (res: Endpoint)
    ensures
        res == bind_endpoint(*server),
{
    let ip = match server.ip {
        IpAddress::V4(_) => IpAddress::V4(0),
        IpAddress::V6(_) => IpAddress::V6(0),
    };
    Endpoint { ip, port: 0 }
}

/// Takes a datagram for the server's answer and reads the packet in it.
/// Fails where the sender's address or port is not the server's, or the
/// datagram has not the packet's size.
pub fn accept_reply(server: &Endpoint, sender: &Endpoint, datagram: &[u8]) -> (res: Result<
    Packet,
    NtpError,
>)
    ensures
        match res {
            Ok(packet) => reply_expected(*server, *sender, datagram@.len()) && packet
                == Packet::of_wire(datagram@),
            Err(e) => !reply_expected(*server, *sender, datagram@.len()) && e.kind
                == ErrorKind::UnexpectedReply && fixed_message(e.kind) == Some(e.msg@),
        },
        *sender != *server ==> res is Err,
        datagram@.len() < NTP_PACKET_SIZE ==> res is Err,
{
    if sender.ip != server.ip || sender.port != server.port || datagram.len() != NTP_PACKET_SIZE {
        return Err(NtpError::from_slice(ErrorKind::UnexpectedReply, "Unexpected reply"));
    }
    match Packet::decode(datagram) {
        Some(packet) => Ok(packet),
        None => Err(NtpError::from_slice(ErrorKind::UnexpectedReply, "Unexpected reply")),
    }
}

impl Exchange {
    /// The dealings of a client with `server`, before anything is sent.
    pub fn new(server: Endpoint) -> (res: Exchange)
        ensures
            res == (Exchange { server, state: ExchangeState::Idle }),
    {
        Exchange { server, state: ExchangeState::Idle }
    }

    /// Begins an exchange: the bytes to send to the server. From then on the
    /// answer is awaited; an exchange that was under way is forgotten.
    pub fn send(&mut self, request: &Packet) -> (res: Vec<u8>)
        ensures
            *final(self) == (Exchange {
                server: old(self).server,
                state: ExchangeState::AwaitingReply,
            }),
            res@ == request.wire(),
            res@.len() == NTP_PACKET_SIZE,
    {
        self.state = ExchangeState::AwaitingReply;
        request.encode()
    }

    /// Ends an exchange with the datagram that came in: the server's reply,
    /// if an answer was awaited and the datagram is the server's and of the
    /// packet's size. Any other datagram is unexpected, and the exchange is
    /// over all the same: there is no second try.
    pub fn receive(&mut self, sender: &Endpoint, datagram: &[u8]) -> (res: Result<Packet, NtpError>)
        ensures
            *final(self) == (Exchange { server: old(self).server, state: ExchangeState::Idle }),
            match res {
                Ok(packet) => old(self).state == ExchangeState::AwaitingReply && reply_expected(
                    old(self).server,
                    *sender,
                    datagram@.len(),
                ) && packet == Packet::of_wire(datagram@),
                Err(e) => (old(self).state == ExchangeState::Idle || !reply_expected(
                    old(self).server,
                    *sender,
                    datagram@.len(),
                )) && e.kind == ErrorKind::UnexpectedReply && fixed_message(e.kind) == Some(e.msg@),
            },
    {
        let awaited = match self.state {
            ExchangeState::AwaitingReply => true,
            ExchangeState::Idle => false,
        };
        self.state = ExchangeState::Idle;
        if !awaited {
            return Err(NtpError::from_slice(ErrorKind::UnexpectedReply, "Unexpected reply"));
        }
        accept_reply(&self.server, sender, datagram)
    }

    /// Ends an exchange whose step `step` failed with the system's message
    /// `msg`: the failure to report. The exchange is over; the next one may
    /// begin.
    pub fn fail(&mut self, step: NetworkStep, msg: String) -> (res: NtpError)
        ensures
            *final(self) == (Exchange { server: old(self).server, state: ExchangeState::Idle }),
            res.kind == failure_kind(step),
            res.msg@ == msg@,
    {
        self.state = ExchangeState::Idle;
        network_failure(step, msg)
    }
}

} // verus!
