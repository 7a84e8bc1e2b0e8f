//! The callers' side of the store: a handle that sends commands to the
//! worker and waits for its replies.
//!
//! What a request returns is decided by the worker at the other end of the
//! channel, so the functions that make a request promise nothing of it.
//! [`handed_over`] says how a request goes on from what the request channel
//! returned, and [`settle`] how its outcome follows from what the reply
//! channel handed over.

use crate::data::{Ticket, TicketDraft, TicketId};
use crate::protocol::{get_command, insert_command, Command, SendFailure};
use std::sync::mpsc::{sync_channel, Receiver, RecvError, SendError, SyncSender};
use vstd::prelude::*;

verus! {

/// How many replies the channel made for one request can hold.
pub const REPLY_CAPACITY: usize = 1;

/// A handle on the store. Handles made by `clone` talk to the same worker,
/// which stops once the last of them is dropped.
pub struct TicketStoreClient {
    sender: SyncSender<Command>,
}

impl Clone for TicketStoreClient {
    fn clone(&self) -> (copy: Self) {
        TicketStoreClient { sender: self.sender.clone() }
    }
}

/// A request that was handed to the worker and whose reply is still due.
#[verifier::reject_recursive_types(T)]
pub struct PendingReply<T> {
    receiver: Receiver<Result<T, SendFailure>>,
}

/// What a request returns, given what the request channel returned for its
/// command and what the reply channel handed over: `Disconnected` where
/// the command was not taken; else the worker's reply, unaltered, where
/// one arrived, and `Abandoned` where the reply channel closed without one.
pub open spec fn outcome_of<T>(
    sent: Result<(), SendError<Command>>,
    received: Result<Result<T, SendFailure>, RecvError>,
) -> Result<T, SendFailure> {
    match sent {
        Err(_) => Err(SendFailure::Disconnected),
        Ok(_) => match received {
            Ok(reply) => reply,
            Err(_) => Err(SendFailure::Abandoned),
        },
    }
}

/// What a request goes on with, given what the request channel returned
/// for its command and the receiving end of its reply channel: it waits on
/// that end where the command was taken, and fails as `Disconnected` where
/// it was not.
pub fn handed_over<T>(
    sent: Result<(), SendError<Command>>,
    receiver: Receiver<Result<T, SendFailure>>,
) -> (outcome: Result<PendingReply<T>, SendFailure>)
    ensures
        sent is Ok ==> (outcome matches Ok(pending) && pending.receiver() == receiver),
        sent is Err ==> (outcome matches Err(failure) && failure == SendFailure::Disconnected),
{
    match sent {
        Ok(_) => Ok(PendingReply { receiver }),
        Err(_) => Err(SendFailure::Disconnected),
    }
}

/// What a request ends with, given what its reply channel handed over: the
/// worker's reply where one arrived, `Abandoned` where the channel closed
/// without one.
pub fn settle<T>(received: Result<Result<T, SendFailure>, RecvError>) -> (outcome: Result<
    T,
    SendFailure,
>)
    ensures
        received matches Ok(reply) ==> outcome == reply,
        received is Err ==> outcome == Err::<T, SendFailure>(SendFailure::Abandoned),
        outcome == outcome_of(Ok(()), received),
{
    match received {
        Ok(reply) => reply,
        Err(_) => Err(SendFailure::Abandoned),
    }
}

/// Makes the request channel, which holds up to `capacity` commands, and
/// returns a handle on its sending end together with its receiving end,
/// which is the worker's.
pub fn connect(capacity: usize) -> (ends: (TicketStoreClient, Receiver<Command>)) {
    let (sender, receiver) = sync_channel(capacity);
    (TicketStoreClient::new(sender), receiver)
}

impl<T> PendingReply<T> {
    /// The receiving end of the channel on which the reply is due.
    pub closed spec fn receiver(self) -> Receiver<Result<T, SendFailure>> {
        self.receiver
    }

    /// Waits until the worker has answered the request, or has dropped it.
    /// The outcome is what [`outcome_of`] makes of what the reply channel
    /// hands over.
    pub fn wait(self) -> (outcome: Result<T, SendFailure>)
        ensures
            exists|received: Result<Result<T, SendFailure>, RecvError>|
                outcome == #[trigger] outcome_of(Ok(()), received),
    {
        settle(self.receiver.recv())
    }
}

impl TicketStoreClient {
    /// The sending end of the request channel that the handle holds.
    pub closed spec fn sender(self) -> SyncSender<Command> {
        self.sender
    }

    /// A handle that sends its commands on `sender`.
    pub fn new(sender: SyncSender<Command>) -> (client: TicketStoreClient)
        ensures
            client.sender() == sender,
    {
        TicketStoreClient { sender }
    }

    /// Hands the worker the request to store `draft`, waiting while the
    /// request channel is full, and returns without waiting for the reply.
    pub fn request_insert(&self, draft: TicketDraft) -> (outcome: Result<
        PendingReply<TicketId>,
        SendFailure,
    >)
        ensures
            outcome matches Err(failure) ==> failure == SendFailure::Disconnected,
    {
        let (response_sender, response_receiver) = sync_channel(REPLY_CAPACITY);
        let command = insert_command(draft, response_sender);
        handed_over(self.sender.send(command), response_receiver)
    }

    /// Hands the worker the request for the ticket stored under `id`,
    /// waiting while the request channel is full, and returns without
    /// waiting for the reply.
    pub fn request_get(&self, id: TicketId) -> (outcome: Result<
        PendingReply<Option<Ticket>>,
        SendFailure,
    >)
        ensures
            outcome matches Err(failure) ==> failure == SendFailure::Disconnected,
    {
        let (response_sender, response_receiver) = sync_channel(REPLY_CAPACITY);
        let command = get_command(id, response_sender);
        handed_over(self.sender.send(command), response_receiver)
    }

    /// Asks the worker to store `draft` and waits for the identifier that
    /// the new ticket was given.
    pub fn insert(&self, draft: TicketDraft) -> (outcome: Result<TicketId, SendFailure>)
        ensures
            outcome == Err::<TicketId, SendFailure>(SendFailure::Disconnected) || exists|
                received: Result<Result<TicketId, SendFailure>, RecvError>,
            |
                outcome == #[trigger] outcome_of(Ok(()), received),
    {
        match self.request_insert(draft) {
            Ok(pending) => pending.wait(),
            Err(failure) => Err(failure),
        }
    }

    /// Asks the worker for a copy of the ticket stored under `id` and waits
    /// for it; `Ok(None)` where the store holds no ticket under `id`.
    pub fn get(&self, id: TicketId) -> (outcome: Result<Option<Ticket>, SendFailure>)
        ensures
            outcome == Err::<Option<Ticket>, SendFailure>(SendFailure::Disconnected) || exists|
                received: Result<Result<Option<Ticket>, SendFailure>, RecvError>,
            |
                outcome == #[trigger] outcome_of(Ok(()), received),
    {
        match self.request_get(id) {
            Ok(pending) => pending.wait(),
            Err(failure) => Err(failure),
        }
    }
}

} // verus!
