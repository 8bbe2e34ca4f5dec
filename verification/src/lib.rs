//! A minimal SNTP unicast client core: the wire codec for timestamps and
//! packets, the rules a server reply has to meet, and the four-timestamp
//! computation of clock offset and round-trip delay.
//!
//! The library does no input or output. A caller picks the server with
//! [`exchange::select_server`], sends what [`exchange::Exchange::send`] makes
//! of [`Packet::new_client_packet`], hands the datagram that comes back to
//! [`exchange::Exchange::receive`], and the reply, with the local clock's
//! reading at its arrival, to [`sync::evaluate_reply`].

pub mod calendar;
pub mod error;
pub mod exchange;
pub mod packet;
pub mod sync;
pub mod timestamp;
pub mod wire;

pub use error::{ErrorKind, NtpError};
pub use exchange::{Endpoint, Exchange, ExchangeState, IpAddress};
pub use packet::{Leap, Mode, Packet, NTP_PACKET_SIZE, NTP_VERSION};
pub use sync::SyncResult;
pub use timestamp::{TimeStamp, UnixTime, NTP_TO_UNIX_SECONDS};
