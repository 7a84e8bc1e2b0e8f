//! The ticket collection that the worker owns.
//!
//! A store is modelled by the sequence of its tickets in the order in which
//! they were added. Identifiers are handed out in that order, starting at
//! zero, so the ticket at position `i` carries the identifier `i`: no two
//! tickets share an identifier, and a ticket keeps the one it was given.

use crate::data::{Ticket, TicketDraft, TicketId};
use vstd::prelude::*;

verus! {

/// Every ticket sits at the position that its identifier names.
pub open spec fn numbered(tickets: Seq<Ticket>) -> bool {
    forall|i: int| 0 <= i < tickets.len() ==> (#[trigger] tickets[i]).id.0 == i
}

/// What the tickets of a store always satisfy: they are numbered, and no
/// more than a vector can hold.
pub open spec fn well_formed(tickets: Seq<Ticket>) -> bool {
    numbered(tickets) && tickets.len() <= usize::MAX
}

/// The identifier that the next ticket added to `tickets` gets.
pub open spec fn next_id(tickets: Seq<Ticket>) -> TicketId {
    TicketId(tickets.len() as u64)
}

/// The tickets of a store after `draft` was added to `tickets`.
pub open spec fn added(tickets: Seq<Ticket>, draft: TicketDraft) -> Seq<Ticket> {
    tickets.push(Ticket::from_draft(next_id(tickets), draft))
}

/// The ticket that `tickets` holds under `id`, if any.
pub open spec fn lookup(tickets: Seq<Ticket>, id: TicketId) -> Option<Ticket> {
    if id.0 < tickets.len() {
        Some(tickets[id.0 as int])
    } else {
        None
    }
}

/// An in-memory collection of tickets, each found again by its identifier.
pub struct TicketStore {
    tickets: Vec<Ticket>,
}

impl View for TicketStore {
    type V = Seq<Ticket>;

    closed spec fn view(&self) -> Seq<Ticket> {
        self.tickets@
    }
}

impl TicketStore {
    #[verifier::type_invariant]
    spec fn tickets_are_numbered(self) -> bool {
        numbered(self.tickets@)
    }

    /// An empty store.
    pub fn new() -> (store: TicketStore)
        ensures
            store@ == Seq::<Ticket>::empty(),
    {
        TicketStore { tickets: Vec::new() }
    }

    /// Stores the ticket that `draft` describes, after all the others, and
    /// returns the identifier it was given.
    pub fn add_ticket(&mut self, draft: TicketDraft) -> (id: TicketId)
        ensures
            well_formed(old(self)@),
            id == next_id(old(self)@),
            final(self)@ == added(old(self)@, draft),
            well_formed(final(self)@),
    {
        proof {
            use_type_invariant(&*self);
        }
        // The tickets are moved out while the vector grows, so that the
        // store is numbered at every point where `push` could unwind.
        let mut tickets: Vec<Ticket> = Vec::new();
        core::mem::swap(&mut self.tickets, &mut tickets);
        let id = TicketId(tickets.len() as u64);
        tickets.push(Ticket { id, title: draft.title, description: draft.description });
        assert(tickets@.len() == tickets.len());
        self.tickets = tickets;
        id
    }

    /// The ticket stored under `id`, or `None` where the store has not
    /// handed out `id`.
    pub fn get(&self, id: TicketId) -> (found: Option<&Ticket>)
        ensures
            well_formed(self@),
            match found {
                Some(ticket) => lookup(self@, id) == Some(*ticket),
                None => lookup(self@, id) is None,
            },
    {
        proof {
            use_type_invariant(self);
        }
        if id.0 < self.tickets.len() as u64 {
            Some(&self.tickets[id.0 as usize])
        } else {
            None
        }
    }
}

/// An empty store holds no ticket under any identifier.
pub proof fn lemma_empty_store_finds_nothing(id: TicketId)
    ensures
        lookup(Seq::<Ticket>::empty(), id) is None,
{
}

/// What is found under an identifier is the ticket that carries it, and
/// something is found exactly under the identifiers handed out so far.
pub proof fn lemma_found_ticket_carries_its_id(tickets: Seq<Ticket>, id: TicketId)
    requires
        well_formed(tickets),
    ensures
        lookup(tickets, id) matches Some(ticket) ==> ticket.id == id,
        lookup(tickets, id) is Some <==> exists|i: int|
            0 <= i < tickets.len() && (#[trigger] tickets[i]).id == id,
        lookup(tickets, id) is Some <==> id.0 < next_id(tickets).0,
{
    if lookup(tickets, id) is Some {
        assert(tickets[id.0 as int].id == id);
    }
}

/// A ticket that was just added is found under the identifier it was
/// given, with the fields of its draft.
pub proof fn lemma_added_ticket_is_found(tickets: Seq<Ticket>, draft: TicketDraft)
    requires
        well_formed(tickets),
    ensures
        numbered(added(tickets, draft)),
        lookup(tickets, next_id(tickets)) is None,
        lookup(added(tickets, draft), next_id(tickets)) == Some(
            Ticket::from_draft(next_id(tickets), draft),
        ),
        Ticket::from_draft(next_id(tickets), draft).matches_draft(draft),
{
}

/// Adding a ticket changes nothing that was there: whatever was found
/// under an identifier before is found under it afterwards, and the new
/// ticket's identifier is none of theirs.
pub proof fn lemma_add_keeps_earlier_tickets(
    tickets: Seq<Ticket>,
    draft: TicketDraft,
    earlier: TicketId,
)
    requires
        well_formed(tickets),
        lookup(tickets, earlier) is Some,
    ensures
        earlier != next_id(tickets),
        lookup(added(tickets, draft), earlier) == lookup(tickets, earlier),
{
}

/// Two tickets added one after the other get different identifiers, and
/// each is found under its own: neither takes the other's place.
pub proof fn lemma_two_adds_do_not_collide(
    tickets: Seq<Ticket>,
    first: TicketDraft,
    second: TicketDraft,
)
    requires
        well_formed(tickets),
        well_formed(added(tickets, first)),
    ensures
        next_id(tickets) != next_id(added(tickets, first)),
        lookup(added(added(tickets, first), second), next_id(tickets)) == Some(
            Ticket::from_draft(next_id(tickets), first),
        ),
        lookup(added(added(tickets, first), second), next_id(added(tickets, first))) == Some(
            Ticket::from_draft(next_id(added(tickets, first)), second),
        ),
{
    lemma_added_ticket_is_found(tickets, first);
    lemma_added_ticket_is_found(added(tickets, first), second);
    lemma_add_keeps_earlier_tickets(added(tickets, first), second, next_id(tickets));
}

} // verus!
