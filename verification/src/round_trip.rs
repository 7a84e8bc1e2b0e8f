//! What the callers get back, where the channels hand over what was sent.
//!
//! A client handle and the worker meet only through channels, so no
//! contract of the one can speak of the other. Their verified steps fit
//! together all the same: the handle sends the command that
//! `insert_command` or `get_command` makes, the worker answers it as
//! [`reply_to`] says, and the handle returns what [`outcome_of`] makes of
//! the message that arrives. The lemmas here follow a request through
//! these steps, for the commands of one run of the worker in the order in
//! which it serves them.

use crate::client::outcome_of;
use crate::data::{Ticket, TicketId};
use crate::protocol::{Command, SendFailure};
use crate::worker::{
    issued, lemma_get_after_insert_finds_its_ticket, lemma_get_of_unissued_id_finds_nothing,
    lemma_insert_is_found_afterwards, lemma_inserts_do_not_collide, reply_to, served,
};
use vstd::prelude::*;

verus! {

/// What `insert` returns to the caller whose command is served at position
/// `at`, where that command was taken and its answer arrives.
pub open spec fn insert_outcome(tickets: Seq<Ticket>, commands: Seq<Command>, at: int) -> Result<
    TicketId,
    SendFailure,
> {
    outcome_of(Ok(()), Ok(Ok(reply_to(tickets, commands, at)->id)))
}

/// What `get` returns to the caller whose command is served at position
/// `at`, where that command was taken and its answer arrives.
pub open spec fn get_outcome(tickets: Seq<Ticket>, commands: Seq<Command>, at: int) -> Result<
    Option<Ticket>,
    SendFailure,
> {
    outcome_of(Ok(()), Ok(Ok(reply_to(tickets, commands, at)->ticket)))
}

/// An insert returns the identifier of its own ticket: no failure, and
/// under that identifier the store holds the ticket made from the draft.
pub proof fn lemma_insert_returns_its_ticket(
    tickets: Seq<Ticket>,
    commands: Seq<Command>,
    at: int,
)
    requires
        0 <= at < commands.len(),
        commands[at] is Insert,
        served(tickets, commands).len() <= usize::MAX,
    ensures
        insert_outcome(tickets, commands, at) == Ok::<TicketId, SendFailure>(
            issued(tickets, commands, at),
        ),
{
    lemma_insert_is_found_afterwards(tickets, commands, at);
}

/// A get for the identifier that an earlier insert returned returns that
/// insert's ticket, with the fields of its draft, whatever other requests
/// were served in between.
pub proof fn lemma_get_returns_what_insert_stored(
    tickets: Seq<Ticket>,
    commands: Seq<Command>,
    insert_at: int,
    get_at: int,
)
    requires
        0 <= insert_at < get_at < commands.len(),
        commands[insert_at] is Insert,
        commands[get_at] is Get,
        insert_outcome(tickets, commands, insert_at) == Ok::<TicketId, SendFailure>(
            commands[get_at]->id,
        ),
        served(tickets, commands).len() <= usize::MAX,
    ensures
        get_outcome(tickets, commands, get_at) matches Ok(Some(ticket)) && ticket.id
            == commands[get_at]->id && ticket.matches_draft(commands[insert_at]->draft),
{
    lemma_insert_is_found_afterwards(tickets, commands, insert_at);
    lemma_get_after_insert_finds_its_ticket(tickets, commands, insert_at, get_at);
}

/// A get on a store that started empty returns `Ok(None)`, and no failure,
/// where it asks for an identifier that no insert before it returned.
pub proof fn lemma_get_returns_none_for_unissued_id(commands: Seq<Command>, get_at: int)
    requires
        0 <= get_at < commands.len(),
        commands[get_at] is Get,
        served(Seq::<Ticket>::empty(), commands).len() <= usize::MAX,
        forall|at: int|
            0 <= at < get_at && commands[at] is Insert ==> #[trigger] insert_outcome(
                Seq::<Ticket>::empty(),
                commands,
                at,
            ) != Ok::<TicketId, SendFailure>(commands[get_at]->id),
    ensures
        get_outcome(Seq::<Ticket>::empty(), commands, get_at) == Ok::<
            Option<Ticket>,
            SendFailure,
        >(None),
{
    let empty = Seq::<Ticket>::empty();
    assert forall|at: int| 0 <= at < get_at && commands[at] is Insert implies #[trigger] issued(
        empty,
        commands,
        at,
    ) != commands[get_at]->id by {
        lemma_insert_is_found_afterwards(empty, commands, at);
        assert(insert_outcome(empty, commands, at) == Ok::<TicketId, SendFailure>(
            issued(empty, commands, at),
        ));
    }
    lemma_get_of_unissued_id_finds_nothing(commands, get_at);
}

/// Two inserts, from one handle or from two, return different
/// identifiers, also for equal drafts.
pub proof fn lemma_inserts_return_different_ids(
    tickets: Seq<Ticket>,
    commands: Seq<Command>,
    earlier: int,
    later: int,
)
    requires
        0 <= earlier < later < commands.len(),
        commands[earlier] is Insert,
        commands[later] is Insert,
        served(tickets, commands).len() <= usize::MAX,
    ensures
        insert_outcome(tickets, commands, earlier) is Ok,
        insert_outcome(tickets, commands, later) is Ok,
        insert_outcome(tickets, commands, earlier) != insert_outcome(tickets, commands, later),
{
    lemma_inserts_do_not_collide(tickets, commands, earlier, later);
    lemma_insert_is_found_afterwards(tickets, commands, earlier);
    lemma_insert_is_found_afterwards(tickets, commands, later);
}

} // verus!
