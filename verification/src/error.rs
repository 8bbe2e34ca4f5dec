//! The ways a synchronisation can fail.

use vstd::prelude::*;

verus! {

/// What went wrong.
#[derive(Clone, Copy, Debug, PartialEq, Eq, Structural)]
pub enum ErrorKind {
    /// The server's name could not be resolved, or resolved to no address.
    AddressResolution,
    /// Binding the socket, sending or receiving failed.
    Socket,
    /// A datagram came from another sender, or is not of the packet's size.
    UnexpectedReply,
    /// The reply breaks a rule on its mode, stratum or timestamps.
    InvalidReplyContent,
    /// A timestamp of the reply stands for no instant.
    TimestampDecode,
}

/// The message that every failure of a kind carries; none for the kinds
/// whose message is the system's own.
pub open spec fn fixed_message(kind: ErrorKind) -> Option<Seq<char>> {
    match kind {
        ErrorKind::AddressResolution => None,
        ErrorKind::Socket => None,
        ErrorKind::UnexpectedReply => Some("Unexpected reply"@),
        ErrorKind::InvalidReplyContent => Some("Incorrect server reply content, discarded"@),
        ErrorKind::TimestampDecode => Some("Failed to decode timestamps from reply"@),
    }
}

/// A failure: its kind and a message for the reader.
#[derive(Debug)]
pub struct NtpError {
    pub kind: ErrorKind,
    pub msg: String,
}

impl NtpError {
    /// The failure of kind `kind` with the message `msg`.
    pub fn from_string(kind: ErrorKind, msg: String) -> (res: NtpError)
        ensures
            res.kind == kind,
            res.msg@ == msg@,
    {
        NtpError { kind, msg }
    }

    /// The failure of kind `kind` with a copy of the message `msg`.
    pub fn from_slice(kind: ErrorKind, msg: &str) -> (res: NtpError)
        ensures
            res.kind == kind,
            res.msg@ == msg@,
    {
        Self::from_string(kind, msg.to_owned())
    }

    /// The failure's kind.
    pub fn kind(&self) -> (res: ErrorKind)
        ensures
            res == self.kind,
    {
        self.kind
    }

    /// The failure's message.
    pub fn message(&self) -> (res: &str)
        ensures
            res@ == self.msg@,
    {
        self.msg.as_str()
    }

    /// The failure's message, as the text that a reader is shown.
    pub fn to_string(&self) -> (res: String)
        ensures
            res@ == self.msg@,
    {
        self.msg.clone()
    }
}

} // verus!
