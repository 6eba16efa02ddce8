//! The failures that reach the caller of the core.

use vstd::prelude::*;

verus! {

/// How a command on the control session can fail.
#[derive(Debug, Copy, Clone, Eq, PartialEq, Structural)]
pub enum ProtocolError {
    /// The transport is unusable.
    Disconnected,
    /// The server's reply was malformed, or it was an error reply.
    Protocol,
}

/// What the client of the control session can report, before it is sorted
/// into the two kinds of `ProtocolError`.
#[derive(Debug, Copy, Clone, Eq, PartialEq, Structural)]
pub enum SessionFault {
    /// The server closed the connection, or none was ever made.
    ConnectionClosed,
    /// Reading from or writing to the socket failed.
    Transport,
    /// The server could not make sense of the command.
    CommandRejected,
    /// The server answered with an error.
    ServerFailure,
    /// The reply held a value that could not be read.
    MalformedReply,
}

impl ProtocolError {
    /// The kind a fault is reported as: `Disconnected` where the transport
    /// is at fault, `Protocol` where the server's reply is.
    pub open spec fn kind_of(fault: SessionFault) -> ProtocolError {
        match fault {
            SessionFault::ConnectionClosed => ProtocolError::Disconnected,
            SessionFault::Transport => ProtocolError::Disconnected,
            SessionFault::CommandRejected => ProtocolError::Protocol,
            SessionFault::ServerFailure => ProtocolError::Protocol,
            SessionFault::MalformedReply => ProtocolError::Protocol,
        }
    }

    pub fn from_fault(fault: SessionFault) -> (error: ProtocolError)
        ensures
            error == ProtocolError::kind_of(fault),
    {
        match fault {
            SessionFault::ConnectionClosed => ProtocolError::Disconnected,
            SessionFault::Transport => ProtocolError::Disconnected,
            SessionFault::CommandRejected => ProtocolError::Protocol,
            SessionFault::ServerFailure => ProtocolError::Protocol,
            SessionFault::MalformedReply => ProtocolError::Protocol,
        }
    }

    /// Whether the error may be answered by reconnecting and trying again.
    pub fn is_disconnected(&self) -> (b: bool)
        ensures
            b == (*self == ProtocolError::Disconnected),
    {
        match self {
            ProtocolError::Disconnected => true,
            ProtocolError::Protocol => false,
        }
    }
}

/// Every failure that the core hands to its caller.
#[derive(Debug, Copy, Clone, Eq, PartialEq, Structural)]
pub enum AppError {
    /// A command on the control session failed.
    Mpd(ProtocolError),
    /// The blob cache holds nothing for the release asked for.
    NotFound,
    /// A file of the blob cache could not be read or written.
    IoError,
    /// The lookup service could not be reached.
    RemoteUnavailable,
}

impl AppError {
    /// A short name for the failure, for a log line.
    pub fn message(&self) -> (text: String)
        ensures
            text@ == AppError::message_of(*self)@,
    {
        match self {
            AppError::Mpd(ProtocolError::Disconnected) => String::from_str("mpd: disconnected"),
            AppError::Mpd(ProtocolError::Protocol) => String::from_str("mpd: protocol error"),
            AppError::NotFound => String::from_str("artwork not found"),
            AppError::IoError => String::from_str("artwork cache i/o error"),
            AppError::RemoteUnavailable => String::from_str("lookup service unavailable"),
        }
    }

    pub open spec fn message_of(error: AppError) -> &'static str {
        match error {
            AppError::Mpd(ProtocolError::Disconnected) => "mpd: disconnected",
            AppError::Mpd(ProtocolError::Protocol) => "mpd: protocol error",
            AppError::NotFound => "artwork not found",
            AppError::IoError => "artwork cache i/o error",
            AppError::RemoteUnavailable => "lookup service unavailable",
        }
    }
}

} // verus!
