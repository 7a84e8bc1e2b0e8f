//! The worker's side of the store.
//!
//! The worker owns the store. It takes one command after the other from
//! the request channel, applies it and answers it, until the last client
//! handle is gone. [`serve_next`] is one such round; whoever runs the
//! worker calls it until it returns `false`.
//!
//! Since the commands are served one at a time, what a run of the worker
//! does is fixed by the commands and their order: [`served`] and
//! [`reply_to`] say how, and the lemmas below say what follows for the
//! callers.

use crate::data::{Ticket, TicketId};
use crate::protocol::{found_message, inserted_message, Command, Reply};
use crate::store::{lookup, next_id, well_formed, TicketStore};
use std::sync::mpsc::{Receiver, RecvError};
use vstd::prelude::*;

verus! {

/// Applies `command` to `store` and returns the answer that is due.
pub fn answer(store: &mut TicketStore, command: Command) -> (reply: Reply)
    ensures
        reply == command.reply(old(store)@),
        final(store)@ == command.effect(old(store)@),
        well_formed(old(store)@),
        well_formed(final(store)@),
{
    match command {
        Command::Insert { draft, response_channel } => {
            let id = store.add_ticket(draft);
            Reply::Inserted { id, response_channel }
        },
        Command::Get { id, response_channel } => {
            let ticket = match store.get(id) {
                Some(found) => Some(found.clone()),
                None => None,
            };
            Reply::Found { ticket, response_channel }
        },
    }
}

/// Sends `reply` on its channel, as the message that [`inserted_message`]
/// or [`found_message`] makes of it. Whether the caller still waits for it
/// is not the worker's concern: a reply that cannot be sent is dropped.
fn deliver(reply: Reply) {
    match reply {
        Reply::Inserted { id, response_channel } => {
            let _ = response_channel.send(inserted_message(id));
        },
        Reply::Found { ticket, response_channel } => {
            let _ = response_channel.send(found_message(ticket));
        },
    }
}

/// One round of the worker, given what the request channel handed over.
/// A command is applied to `store` and answered, and the worker goes on. A
/// closed channel means that no client handle is left: the store stays as
/// it is, and the worker is to stop.
pub fn serve(store: &mut TicketStore, received: Result<Command, RecvError>) -> (running: bool)
    ensures
        running == received is Ok,
        received matches Ok(command) ==> final(store)@ == command.effect(old(store)@),
        received is Err ==> final(store)@ == old(store)@,
{
    match received {
        Ok(command) => {
            let reply = answer(store, command);
            deliver(reply);
            true
        },
        Err(_) => false,
    }
}

/// Waits for the next command on `receiver` and serves it. Returns `false`,
/// with the store as it was, once the channel is empty and every client
/// handle is gone.
///
/// Which command arrives is up to the clients. Whatever it is, the store
/// afterwards is what [`Command::effect`] makes of it.
pub fn serve_next(store: &mut TicketStore, receiver: &Receiver<Command>) -> (running: bool)
    ensures
        !running ==> final(store)@ == old(store)@,
        running ==> exists|command: Command| final(store)@ == command.effect(old(store)@),
{
    serve(store, receiver.recv())
}

/// The tickets of a store after the worker has served `commands`, first
/// to last, on a store that held `tickets`.
pub open spec fn served(tickets: Seq<Ticket>, commands: Seq<Command>) -> Seq<Ticket>
    decreases commands.len(),
{
    if commands.len() == 0 {
        tickets
    } else {
        commands.last().effect(served(tickets, commands.drop_last()))
    }
}

/// The answer to the command at position `at`: it is served on what the
/// commands before it have left.
pub open spec fn reply_to(tickets: Seq<Ticket>, commands: Seq<Command>, at: int) -> Reply {
    commands[at].reply(served(tickets, commands.take(at)))
}

/// The identifier that an insert at position `at` is answered with.
pub open spec fn issued(tickets: Seq<Ticket>, commands: Seq<Command>, at: int) -> TicketId {
    next_id(served(tickets, commands.take(at)))
}

/// Serving `commands` is serving those before `at` and then the rest.
pub proof fn lemma_served_in_two_parts(tickets: Seq<Ticket>, commands: Seq<Command>, at: int)
    requires
        0 <= at <= commands.len(),
    ensures
        served(tickets, commands) == served(
            served(tickets, commands.take(at)),
            commands.skip(at),
        ),
    decreases commands.len(),
{
    if at == commands.len() {
        assert(commands.take(at) == commands);
    } else {
        lemma_served_in_two_parts(tickets, commands.drop_last(), at);
        assert(commands.drop_last().take(at) == commands.take(at));
        assert(commands.drop_last().skip(at) == commands.skip(at).drop_last());
        assert(commands.skip(at).last() == commands.last());
    }
}

/// Serving removes and changes nothing: the tickets that the store held
/// are those that it holds first afterwards.
pub proof fn lemma_serving_keeps_tickets(tickets: Seq<Ticket>, commands: Seq<Command>)
    ensures
        tickets.is_prefix_of(served(tickets, commands)),
    decreases commands.len(),
{
    if commands.len() > 0 {
        lemma_serving_keeps_tickets(tickets, commands.drop_last());
    }
}

/// A store that is well formed stays so, as long as it holds no more
/// tickets than a vector can hold.
pub proof fn lemma_serving_keeps_well_formed(tickets: Seq<Ticket>, commands: Seq<Command>)
    requires
        well_formed(tickets),
        served(tickets, commands).len() <= usize::MAX,
    ensures
        well_formed(served(tickets, commands)),
    decreases commands.len(),
{
    if commands.len() > 0 {
        lemma_serving_keeps_tickets(served(tickets, commands.drop_last()), seq![commands.last()]);
        assert(seq![commands.last()].drop_last() == Seq::<Command>::empty());
        lemma_serving_keeps_well_formed(tickets, commands.drop_last());
    }
}

/// Identifiers are stable: what is found under an identifier stays under
/// it, unchanged, whatever the worker serves afterwards.
pub proof fn lemma_found_tickets_stay(
    tickets: Seq<Ticket>,
    commands: Seq<Command>,
    id: TicketId,
)
    requires
        lookup(tickets, id) is Some,
    ensures
        lookup(served(tickets, commands), id) == lookup(tickets, id),
{
    lemma_serving_keeps_tickets(tickets, commands);
}

/// An insert is answered with an identifier that finds its ticket, the one
/// made from its draft, once all the commands are served.
pub proof fn lemma_insert_is_found_afterwards(
    tickets: Seq<Ticket>,
    commands: Seq<Command>,
    at: int,
)
    requires
        0 <= at < commands.len(),
        commands[at] is Insert,
        served(tickets, commands).len() <= usize::MAX,
    ensures
        reply_to(tickets, commands, at) is Inserted,
        reply_to(tickets, commands, at)->id == issued(tickets, commands, at),
        issued(tickets, commands, at).0 == served(tickets, commands.take(at)).len(),
        lookup(served(tickets, commands), issued(tickets, commands, at)) == Some(
            Ticket::from_draft(issued(tickets, commands, at), commands[at]->draft),
        ),
{
    let before = served(tickets, commands.take(at));
    let after = served(tickets, commands.take(at + 1));
    assert(commands.take(at + 1).drop_last() == commands.take(at));
    assert(commands.take(at + 1).last() == commands[at]);
    assert(after == commands[at].effect(before));
    lemma_served_in_two_parts(tickets, commands, at + 1);
    lemma_serving_keeps_tickets(after, commands.skip(at + 1));
    assert(served(tickets, commands)[before.len() as int] == after[before.len() as int]);
}

/// Every insert gets a ticket of its own. Of two inserts, the later is
/// answered with another identifier than the earlier, and once all the
/// commands are served each identifier finds the ticket made from its own
/// draft: neither has taken the other's place.
pub proof fn lemma_inserts_do_not_collide(
    tickets: Seq<Ticket>,
    commands: Seq<Command>,
    earlier: int,
    later: int,
)
    requires
        0 <= earlier < later < commands.len(),
        commands[earlier] is Insert,
        commands[later] is Insert,
        served(tickets, commands).len() <= usize::MAX,
    ensures
        issued(tickets, commands, earlier) != issued(tickets, commands, later),
        lookup(served(tickets, commands), issued(tickets, commands, earlier)) == Some(
            Ticket::from_draft(issued(tickets, commands, earlier), commands[earlier]->draft),
        ),
        lookup(served(tickets, commands), issued(tickets, commands, later)) == Some(
            Ticket::from_draft(issued(tickets, commands, later), commands[later]->draft),
        ),
{
    lemma_insert_is_found_afterwards(tickets, commands, earlier);
    lemma_insert_is_found_afterwards(tickets, commands, later);
    let upto = commands.take(later);
    lemma_serving_keeps_tickets(served(tickets, upto), commands.skip(later));
    lemma_served_in_two_parts(tickets, commands, later);
    assert(upto.take(earlier) == commands.take(earlier));
    lemma_insert_is_found_afterwards(tickets, upto, earlier);
}

/// A get that asks for the identifier that an earlier insert was answered
/// with is answered with that insert's ticket, which carries the fields of
/// its draft, whatever was served in between.
pub proof fn lemma_get_after_insert_finds_its_ticket(
    tickets: Seq<Ticket>,
    commands: Seq<Command>,
    insert_at: int,
    get_at: int,
)
    requires
        0 <= insert_at < get_at < commands.len(),
        commands[insert_at] is Insert,
        commands[get_at] is Get,
        commands[get_at]->id == issued(tickets, commands, insert_at),
        served(tickets, commands).len() <= usize::MAX,
    ensures
        reply_to(tickets, commands, get_at) is Found,
        reply_to(tickets, commands, get_at)->ticket == Some(
            Ticket::from_draft(commands[get_at]->id, commands[insert_at]->draft),
        ),
        Ticket::from_draft(commands[get_at]->id, commands[insert_at]->draft).matches_draft(
            commands[insert_at]->draft,
        ),
{
    let upto = commands.take(get_at);
    lemma_served_in_two_parts(tickets, commands, get_at);
    lemma_serving_keeps_tickets(served(tickets, upto), commands.skip(get_at));
    assert(upto.take(insert_at) == commands.take(insert_at));
    lemma_insert_is_found_afterwards(tickets, upto, insert_at);
}

/// Every ticket that serving has added was added by one of the inserts,
/// under the identifier that this insert was answered with.
pub proof fn lemma_added_tickets_come_from_inserts(
    tickets: Seq<Ticket>,
    commands: Seq<Command>,
    position: int,
)
    requires
        tickets.len() <= position < served(tickets, commands).len(),
    ensures
        exists|at: int|
            0 <= at < commands.len() && commands[at] is Insert && #[trigger] served(
                tickets,
                commands.take(at),
            ).len() == position,
    decreases commands.len(),
{
    let rest = commands.drop_last();
    if position < served(tickets, rest).len() {
        lemma_added_tickets_come_from_inserts(tickets, rest, position);
        let at = choose|at: int|
            0 <= at < rest.len() && rest[at] is Insert && #[trigger] served(
                tickets,
                rest.take(at),
            ).len() == position;
        assert(rest.take(at) == commands.take(at));
    } else {
        let at = commands.len() - 1;
        assert(commands.take(at) == rest);
    }
}

/// A get on a store that started empty is answered with `None` where it
/// asks for an identifier that no insert before it was answered with.
pub proof fn lemma_get_of_unissued_id_finds_nothing(commands: Seq<Command>, get_at: int)
    requires
        0 <= get_at < commands.len(),
        commands[get_at] is Get,
        served(Seq::<Ticket>::empty(), commands).len() <= usize::MAX,
        forall|at: int|
            0 <= at < get_at && commands[at] is Insert ==> #[trigger] issued(
                Seq::<Ticket>::empty(),
                commands,
                at,
            ) != commands[get_at]->id,
    ensures
        reply_to(Seq::<Ticket>::empty(), commands, get_at) is Found,
        reply_to(Seq::<Ticket>::empty(), commands, get_at)->ticket is None,
{
    let empty = Seq::<Ticket>::empty();
    let upto = commands.take(get_at);
    let asked = commands[get_at]->id;
    if asked.0 < served(empty, upto).len() {
        lemma_added_tickets_come_from_inserts(empty, upto, asked.0 as int);
        let at = choose|at: int|
            0 <= at < upto.len() && upto[at] is Insert && #[trigger] served(
                empty,
                upto.take(at),
            ).len() == asked.0;
        assert(upto.take(at) == commands.take(at));
        lemma_served_in_two_parts(empty, commands, get_at);
        lemma_serving_keeps_tickets(served(empty, upto), commands.skip(get_at));
        lemma_insert_is_found_afterwards(empty, upto, at);
        assert(issued(empty, commands, at) == asked);
    }
}

} // verus!
