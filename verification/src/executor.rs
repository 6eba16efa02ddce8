//! Carrying out a command on the single control session, with reconnects.
//!
//! The session itself is the caller's. The executor decides what the
//! caller does next: send the command, reconnect to the target address, or
//! return. One executor serves one command at a time.

use vstd::prelude::*;
use crate::error::ProtocolError;

verus! {

/// How often a command is tried again after the session was found
/// disconnected.
pub const MAX_RETRIES: u8 = 3;

/// What the caller of the executor has to do next.
#[derive(Debug, PartialEq, Eq)]
pub enum Directive<R> {
    /// Send the command on the session.
    Send,
    /// Reconnect the session to the target address, then report how that
    /// went.
    Reconnect,
    /// Hand this result to whoever asked for the command.
    Return(Result<R, ProtocolError>),
}

/// What follows a reply when the command was retried `retries` times
/// before: a response is returned; an error of the protocol is returned
/// at once; a disconnected session is reconnected while retries are left,
/// and is reported once they are used up.
pub open spec fn reply_directive<R>(retries: nat, reply: Result<R, ProtocolError>) -> Directive<R> {
    match reply {
        Ok(response) => Directive::Return(Ok(response)),
        Err(ProtocolError::Protocol) => Directive::Return(Err(ProtocolError::Protocol)),
        Err(ProtocolError::Disconnected) => if retries < MAX_RETRIES {
            Directive::Reconnect
        } else {
            Directive::Return(Err(ProtocolError::Disconnected))
        },
    }
}

/// The retries made once the reply is dealt with.
pub open spec fn retries_after<R>(retries: nat, reply: Result<R, ProtocolError>) -> nat {
    if reply_directive(retries, reply) is Reconnect {
        retries + 1
    } else {
        retries
    }
}

/// What follows an attempt to reconnect: the command is sent again, also
/// where the session is still disconnected, which the next reply will then
/// show; an error of the protocol is returned at once.
pub open spec fn reconnect_directive<R>(outcome: Result<(), ProtocolError>) -> Directive<R> {
    match outcome {
        Err(ProtocolError::Protocol) => Directive::Return(Err(ProtocolError::Protocol)),
        _ => Directive::Send,
    }
}

/// The retry policy around the control session, and the address that the
/// session is to be connected to.
#[derive(Debug, Clone, PartialEq, Eq)]
pub struct ResilientExecutor {
    address: String,
    retries: u8,
}

impl ResilientExecutor {
    /// The target address.
    pub closed spec fn target(&self) -> Seq<char> {
        self.address@
    }

    /// How often the command at hand was retried.
    pub closed spec fn retries(&self) -> nat {
        self.retries as nat
    }

    /// An executor for the session to `address`.
    pub fn new(address: String) -> (executor: ResilientExecutor)
        ensures
            executor.target() == address@,
            executor.retries() == 0,
    {
        ResilientExecutor { address, retries: 0 }
    }

    /// The address to connect and reconnect to.
    pub fn address<'a>(&'a self) -> (address: &'a str)
        ensures
            address@ == self.target(),
    {
        self.address.as_str()
    }

    /// How often the command at hand was retried.
    pub fn retries_made(&self) -> (n: u8)
        ensures
            n == self.retries(),
    {
        self.retries
    }

    /// Sets the address that the next connect or reconnect goes to.
    pub fn set_address(&mut self, address: String)
        ensures
            final(self).target() == address@,
            final(self).retries() == old(self).retries(),
    {
        self.address = address;
    }

    /// Takes up a new command: it is to be sent, and no retry is made yet.
    pub fn begin<R>(&mut self) -> (directive: Directive<R>)
        ensures
            directive == Directive::<R>::Send,
            final(self).retries() == 0,
            final(self).target() == old(self).target(),
    {
        self.retries = 0;
        Directive::Send
    }

    /// Decides what follows the reply to the command.
    pub fn on_reply<R>(&mut self, reply: Result<R, ProtocolError>) -> (directive: Directive<R>)
        ensures
            directive == reply_directive(old(self).retries(), reply),
            final(self).retries() == retries_after(old(self).retries(), reply),
            final(self).target() == old(self).target(),
    {
        match reply {
            Ok(response) => Directive::Return(Ok(response)),
            Err(ProtocolError::Protocol) => Directive::Return(Err(ProtocolError::Protocol)),
            Err(ProtocolError::Disconnected) => {
                if self.retries < MAX_RETRIES {
                    self.retries = self.retries + 1;
                    Directive::Reconnect
                } else {
                    Directive::Return(Err(ProtocolError::Disconnected))
                }
            },
        }
    }

    /// Decides what follows an attempt to reconnect. The target address is
    /// the executor's own and stays what it is.
    pub fn on_reconnect<R>(&self, outcome: Result<(), ProtocolError>) -> (directive: Directive<R>)
        ensures
            directive == reconnect_directive::<R>(outcome),
    {
        match outcome {
            Err(ProtocolError::Protocol) => Directive::Return(Err(ProtocolError::Protocol)),
            _ => Directive::Send,
        }
    }
}

/// How the execution of one command went.
pub struct Execution<R> {
    /// What was returned; nothing while the session has not answered.
    pub result: Option<Result<R, ProtocolError>>,
    /// How often the command was sent.
    pub sends: nat,
    /// How often the session was reconnected.
    pub reconnects: nat,
}

/// The execution of a command on a session that answers the sends with
/// `replies` and the reconnects with `links`, in their order, after
/// `retries` retries were made.
pub open spec fn execute<R>(
    retries: nat,
    replies: Seq<Result<R, ProtocolError>>,
    links: Seq<Result<(), ProtocolError>>,
) -> Execution<R>
    decreases replies.len(),
{
    if replies.len() == 0 {
        Execution { result: None, sends: 0, reconnects: 0 }
    } else {
        match reply_directive(retries, replies[0]) {
            Directive::Return(result) => Execution { result: Some(result), sends: 1, reconnects: 0 },
            _ => if links.len() == 0 {
                Execution { result: None, sends: 1, reconnects: 0 }
            } else {
                match reconnect_directive::<R>(links[0]) {
                    Directive::Return(result) => Execution {
                        result: Some(result),
                        sends: 1,
                        reconnects: 1,
                    },
                    _ => {
                        let rest = execute(
                            retries_after(retries, replies[0]),
                            replies.drop_first(),
                            links.drop_first(),
                        );
                        Execution {
                            result: rest.result,
                            sends: rest.sends + 1,
                            reconnects: rest.reconnects + 1,
                        }
                    },
                }
            },
        }
    }
}

/// Whatever the session answers, a command is sent at most four times and
/// the session is reconnected at most three times; a session that answers
/// that often has the command return.
pub proof fn lemma_execution_is_bounded<R>(
    retries: nat,
    replies: Seq<Result<R, ProtocolError>>,
    links: Seq<Result<(), ProtocolError>>,
)
    requires
        retries <= MAX_RETRIES,
    ensures
        execute(retries, replies, links).sends <= MAX_RETRIES - retries + 1,
        execute(retries, replies, links).reconnects <= MAX_RETRIES - retries,
        replies.len() > MAX_RETRIES - retries && links.len() >= MAX_RETRIES - retries ==> execute(
            retries,
            replies,
            links,
        ).result is Some,
    decreases replies.len(),
{
    if replies.len() > 0 && reply_directive(retries, replies[0]) is Reconnect && links.len() > 0
        && reconnect_directive::<R>(links[0]) is Send {
        lemma_execution_is_bounded(retries + 1, replies.drop_first(), links.drop_first());
    }
}

/// A session that answers every send with `Disconnected`, whether its
/// reconnects succeed or find it disconnected as well: the command is sent
/// four times, the session is reconnected exactly three times, and the
/// caller is told that it is disconnected.
pub proof fn lemma_disconnected_session_gives_up<R>(
    retries: nat,
    replies: Seq<Result<R, ProtocolError>>,
    links: Seq<Result<(), ProtocolError>>,
)
    requires
        retries <= MAX_RETRIES,
        replies.len() > MAX_RETRIES - retries,
        links.len() >= MAX_RETRIES - retries,
        forall|i: int| 0 <= i < replies.len() ==> replies[i] == Err::<R, ProtocolError>(
            ProtocolError::Disconnected,
        ),
        forall|i: int| 0 <= i < links.len() ==> links[i] != Err::<(), ProtocolError>(
            ProtocolError::Protocol,
        ),
    ensures
        execute(retries, replies, links).result == Some(
            Err::<R, ProtocolError>(ProtocolError::Disconnected),
        ),
        execute(retries, replies, links).reconnects == MAX_RETRIES - retries,
        execute(retries, replies, links).sends == MAX_RETRIES - retries + 1,
    decreases replies.len(),
{
    if retries < MAX_RETRIES {
        lemma_disconnected_session_gives_up(retries + 1, replies.drop_first(), links.drop_first());
    }
}

/// Only a disconnected session is answered by a reconnect: a response and
/// an error of the protocol are returned as they are, without a retry.
pub proof fn lemma_only_disconnects_are_retried<R>(retries: nat, reply: Result<R, ProtocolError>)
    ensures
        reply_directive(retries, reply) is Reconnect ==> reply == Err::<R, ProtocolError>(
            ProtocolError::Disconnected,
        ) && retries < MAX_RETRIES,
        !(reply_directive(retries, reply) is Send),
        reply != Err::<R, ProtocolError>(ProtocolError::Disconnected) ==> reply_directive(
            retries,
            reply,
        ) == Directive::Return(reply),
{
}

} // verus!
