//! The messages that client handles and the worker exchange.
//!
//! Every command carries a channel of its own for the answer. The worker
//! serves the commands one at a time, in the order in which they arrive,
//! and answers each exactly once.

use crate::data::{Ticket, TicketDraft, TicketId};
use crate::store::{added, lookup, next_id};
use std::sync::mpsc::SyncSender;
use vstd::prelude::*;

verus! {

/// Why a request to the store brought no answer.
#[derive(Clone, Copy, Debug, PartialEq, Eq, Structural)]
pub enum SendFailure {
    /// The request could not be handed over: the worker no longer listens.
    Disconnected,
    /// The request was handed over, but its reply channel was dropped
    /// without a reply.
    Abandoned,
}

/// A request to the worker, with the channel on which the answer is due.
#[allow(inconsistent_fields)]
pub enum Command {
    Insert { draft: TicketDraft, response_channel: SyncSender<Result<TicketId, SendFailure>> },
    Get { id: TicketId, response_channel: SyncSender<Result<Option<Ticket>, SendFailure>> },
}

/// The worker's answer to a command, with the channel that it goes to.
#[allow(inconsistent_fields)]
pub enum Reply {
    Inserted { id: TicketId, response_channel: SyncSender<Result<TicketId, SendFailure>> },
    Found {
        ticket: Option<Ticket>,
        response_channel: SyncSender<Result<Option<Ticket>, SendFailure>>,
    },
}

/// The command that asks the worker to store `draft` and to answer on
/// `response_channel`.
pub fn insert_command(
    draft: TicketDraft,
    response_channel: SyncSender<Result<TicketId, SendFailure>>,
) -> (command: Command)
    ensures
        command == (Command::Insert { draft, response_channel }),
{
    Command::Insert { draft, response_channel }
}

/// The command that asks the worker for the ticket stored under `id` and
/// to answer on `response_channel`.
pub fn get_command(
    id: TicketId,
    response_channel: SyncSender<Result<Option<Ticket>, SendFailure>>,
) -> (command: Command)
    ensures
        command == (Command::Get { id, response_channel }),
{
    Command::Get { id, response_channel }
}

/// The message that tells a caller the identifier of its new ticket.
pub fn inserted_message(id: TicketId) -> (message: Result<TicketId, SendFailure>)
    ensures
        message == Ok::<TicketId, SendFailure>(id),
{
    Ok(id)
}

/// The message that tells a caller what the store holds under the
/// identifier it asked for.
pub fn found_message(ticket: Option<Ticket>) -> (message: Result<Option<Ticket>, SendFailure>)
    ensures
        message == Ok::<Option<Ticket>, SendFailure>(ticket),
{
    Ok(ticket)
}

impl Command {
    /// The tickets of the store once the command was served on `tickets`:
    /// one more after an `Insert`, the same after a `Get`.
    pub open spec fn effect(self, tickets: Seq<Ticket>) -> Seq<Ticket> {
        match self {
            Command::Insert { draft, .. } => added(tickets, draft),
            Command::Get { .. } => tickets,
        }
    }

    /// The answer that is due when the command is served on `tickets`: the
    /// new ticket's identifier for an `Insert`, what is stored under the
    /// identifier for a `Get`; either goes to the command's own channel.
    pub open spec fn reply(self, tickets: Seq<Ticket>) -> Reply {
        match self {
            Command::Insert { response_channel, .. } => Reply::Inserted {
                id: next_id(tickets),
                response_channel,
            },
            Command::Get { id, response_channel } => Reply::Found {
                ticket: lookup(tickets, id),
                response_channel,
            },
        }
    }
}

} // verus!
