//! A ticket store that one worker owns and any number of client handles
//! reach through a bounded channel, together with the validated title that
//! its tickets carry.

pub mod channel;
pub mod client;
pub mod data;
pub mod protocol;
pub mod round_trip;
pub mod store;
pub mod title;
pub mod worker;

pub use client::{connect, handed_over, settle, PendingReply, TicketStoreClient};
pub use data::{Ticket, TicketDraft, TicketId};
pub use protocol::{
    found_message, get_command, insert_command, inserted_message, Command, Reply, SendFailure,
};
pub use store::TicketStore;
pub use title::{InvalidTitleError, TicketTitle, MAX_TITLE_BYTES};
pub use worker::{answer, serve_next};
