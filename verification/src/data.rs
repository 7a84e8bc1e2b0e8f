//! The records that the store keeps and the requests to create them.

use crate::title::TicketTitle;
use vstd::prelude::*;
use vstd::std_specs::cmp::PartialEqSpecImpl;

verus! {

/// The identifier that the store gives a ticket when it is added.
#[derive(Clone, Copy, Debug, PartialEq, Eq, Hash, Structural)]
pub struct TicketId(pub u64);

/// What a caller hands in to have a ticket created.
#[derive(Debug)]
pub struct TicketDraft {
    pub title: TicketTitle,
    pub description: String,
}

/// A ticket as the store keeps it.
#[derive(Debug)]
pub struct Ticket {
    pub id: TicketId,
    pub title: TicketTitle,
    pub description: String,
}

impl Ticket {
    /// The ticket that `draft` becomes under the identifier `id`.
    pub open spec fn from_draft(id: TicketId, draft: TicketDraft) -> Ticket {
        Ticket { id, title: draft.title, description: draft.description }
    }

    /// Whether the ticket carries the fields of `draft`, text for text.
    pub open spec fn matches_draft(self, draft: TicketDraft) -> bool {
        self.title@ == draft.title@ && self.description@ == draft.description@
    }
}

impl Clone for TicketDraft {
    fn clone(&self) -> (copy: Self)
        ensures
            copy == *self,
    {
        TicketDraft { title: self.title.clone(), description: self.description.clone() }
    }
}

impl Clone for Ticket {
    fn clone(&self) -> (copy: Self)
        ensures
            copy == *self,
    {
        Ticket {
            id: self.id,
            title: self.title.clone(),
            description: self.description.clone(),
        }
    }
}

impl PartialEq for TicketDraft {
    fn eq(&self, other: &Self) -> (equal: bool) {
        self.title == other.title && self.description == other.description
    }
}

impl PartialEqSpecImpl for TicketDraft {
    open spec fn obeys_eq_spec() -> bool {
        true
    }

    open spec fn eq_spec(&self, other: &Self) -> bool {
        self.title@ == other.title@ && self.description@ == other.description@
    }
}

impl PartialEq for Ticket {
    fn eq(&self, other: &Self) -> (equal: bool) {
        self.id == other.id && self.title == other.title && self.description == other.description
    }
}

impl PartialEqSpecImpl for Ticket {
    open spec fn obeys_eq_spec() -> bool {
        true
    }

    open spec fn eq_spec(&self, other: &Self) -> bool {
        self.id == other.id && self.title@ == other.title@ && self.description@
            == other.description@
    }
}

} // verus!
