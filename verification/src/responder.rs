//! The responder's side of an exchange: one read, at most one reply.

use vstd::prelude::*;

verus! {

/// The size of the buffer that either side reads into.
pub const READ_BUFFER_CAPACITY: usize = 8192;

/// The value of every byte of a reply.
pub const FILLER: u8 = 1;

/// How the one read on an accepted connection ended.
#[derive(Clone, Copy, Debug, PartialEq, Eq, Structural)]
pub enum Inbound {
    /// The read returned `count` bytes; zero means that the peer closed.
    Read { count: usize },
    /// The read failed.
    Failed,
}

/// What the handler of a connection does after its one read.
#[derive(Debug)]
pub enum Reaction {
    /// Write these bytes, then let the connection close.
    Reply(Vec<u8>),
    /// Record that the read brought no bytes, write nothing and let the
    /// connection close.
    LogEmptyRead,
    /// Record the failed read, write nothing and let the connection close.
    LogReadError,
}

/// How an attempt to accept a connection ended.
#[derive(Clone, Copy, Debug, PartialEq, Eq, Structural)]
pub enum Accepted {
    /// A connection was accepted.
    Connection,
    /// Accepting failed.
    Failed,
}

/// What the listener does after an attempt to accept.
#[derive(Clone, Copy, Debug, PartialEq, Eq, Structural)]
pub enum ListenerStep {
    /// Hand the connection to a handler of its own and accept again.
    Serve,
    /// Stop listening for good.
    Stop,
}

/// The length of the reply to a request of which `count` bytes were read.
pub open spec fn reply_len(count: nat) -> nat {
    count / 2
}

/// The reply to a request of which `count` bytes were read: half as many
/// bytes, each of them the filler, whatever the request held.
pub open spec fn reply_bytes(count: nat) -> Seq<u8> {
    Seq::new(reply_len(count), |i: int| FILLER)
}

impl Reaction {
    /// Whether the reaction puts the read on record.
    pub open spec fn records(self) -> bool {
        self is LogEmptyRead || self is LogReadError
    }

    /// The bytes that the reaction writes to the connection.
    pub open spec fn written(self) -> Seq<u8> {
        match self {
            Reaction::Reply(bytes) => bytes@,
            _ => Seq::empty(),
        }
    }
}

/// What the handler owes after a read that ended as `inbound`.
pub open spec fn reaction_fits(inbound: Inbound, reaction: Reaction) -> bool {
    match inbound {
        Inbound::Read { count } => if count > 0 {
            reaction matches Reaction::Reply(bytes) && bytes@ == reply_bytes(count as nat)
        } else {
            reaction is LogEmptyRead
        },
        Inbound::Failed => reaction is LogReadError,
    }
}

/// Builds the reply to a request of which `count` bytes were read.
pub fn reply(count: usize) -> (bytes: Vec<u8>)
    ensures
        bytes@ == reply_bytes(count as nat),
{
    let len: usize = count / 2;
    let mut bytes: Vec<u8> = Vec::new();
    let mut filled: usize = 0;
    while filled < len
        invariant
            filled <= len,
            bytes@ == Seq::new(filled as nat, |i: int| FILLER),
        decreases len - filled,
    {
        bytes.push(FILLER);
        filled = filled + 1;
        assert(bytes@ =~= Seq::new(filled as nat, |i: int| FILLER));
    }
    bytes
}

/// Decides what the handler of a connection does after its one read: a reply
/// to a request that brought bytes, and otherwise a record and no write, be it
/// that the read brought nothing or that it failed.
pub fn respond(inbound: Inbound) -> (reaction: Reaction)
    ensures
        reaction_fits(inbound, reaction),
        reaction.records() <==> !(inbound matches Inbound::Read { count } && count > 0),
        reaction.records() ==> reaction.written().len() == 0,
{
    match inbound {
        Inbound::Read { count } => {
            if count > 0 {
                Reaction::Reply(reply(count))
            } else {
                Reaction::LogEmptyRead
            }
        },
        Inbound::Failed => Reaction::LogReadError,
    }
}

/// Decides what the listener does after an attempt to accept: it serves every
/// connection, and the first failure ends it.
pub fn after_accept(accepted: Accepted) -> (step: ListenerStep)
    ensures
        step == (match accepted {
            Accepted::Connection => ListenerStep::Serve,
            Accepted::Failed => ListenerStep::Stop,
        }),
{
    match accepted {
        Accepted::Connection => ListenerStep::Serve,
        Accepted::Failed => ListenerStep::Stop,
    }
}

} // verus!
