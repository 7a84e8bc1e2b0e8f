use std::convert::TryFrom;
use std::sync::mpsc::{sync_channel, RecvError};
use ticket_store::data::{TicketDraft, TicketId};
use ticket_store::protocol::{Command, Reply};
use ticket_store::store::TicketStore;
use ticket_store::title::TicketTitle;
use ticket_store::worker::{answer, serve, serve_next};

fn draft(title: &str, description: &str) -> TicketDraft {
    TicketDraft {
        title: TicketTitle::try_from(title).unwrap(),
        description: description.to_string(),
    }
}

#[test]
fn an_insert_is_answered_with_the_new_identifier() {
    let mut store = TicketStore::new();
    let (response_channel, _replies) = sync_channel(1);
    let reply = answer(
        &mut store,
        Command::Insert {
            draft: draft("A title", "A description"),
            response_channel,
        },
    );
    match reply {
        Reply::Inserted { id, .. } => {
            assert_eq!(id, TicketId(0));
            assert_eq!(store.get(id).unwrap().title.as_str(), "A title");
        }
        Reply::Found { .. } => panic!("an insert is not answered with a ticket"),
    }
}

#[test]
fn a_get_is_answered_with_a_copy_of_the_ticket() {
    let mut store = TicketStore::new();
    let id = store.add_ticket(draft("A title", "A description"));
    let (response_channel, _replies) = sync_channel(1);
    let reply = answer(&mut store, Command::Get { id, response_channel });
    match reply {
        Reply::Found { ticket, .. } => {
            assert_eq!(ticket.as_ref(), store.get(id));
            assert_eq!(ticket.unwrap().description, "A description");
        }
        Reply::Inserted { .. } => panic!("a get is not answered with an identifier"),
    }
    assert!(store.get(TicketId(1)).is_none());
}

#[test]
fn a_get_for_an_unknown_identifier_is_answered_with_nothing() {
    let mut store = TicketStore::new();
    let (response_channel, _replies) = sync_channel(1);
    let reply = answer(
        &mut store,
        Command::Get {
            id: TicketId(5),
            response_channel,
        },
    );
    assert!(matches!(reply, Reply::Found { ticket: None, .. }));
}

#[test]
fn commands_are_served_in_the_order_they_were_sent() {
    let (requests, receiver) = sync_channel(4);
    let (first_channel, first_replies) = sync_channel(1);
    let (second_channel, second_replies) = sync_channel(1);
    let (third_channel, third_replies) = sync_channel(1);
    requests
        .send(Command::Get {
            id: TicketId(0),
            response_channel: first_channel,
        })
        .unwrap();
    requests
        .send(Command::Insert {
            draft: draft("A title", "A description"),
            response_channel: second_channel,
        })
        .unwrap();
    requests
        .send(Command::Get {
            id: TicketId(0),
            response_channel: third_channel,
        })
        .unwrap();
    drop(requests);

    let mut store = TicketStore::new();
    let mut rounds = 0;
    while serve_next(&mut store, &receiver) {
        rounds += 1;
    }
    assert_eq!(rounds, 3);
    assert_eq!(first_replies.recv().unwrap(), Ok(None));
    assert_eq!(second_replies.recv().unwrap(), Ok(TicketId(0)));
    let found = third_replies.recv().unwrap().unwrap().unwrap();
    assert_eq!(found.id, TicketId(0));
    assert_eq!(found.title.as_str(), "A title");
    // Each command was answered once, and no more.
    assert!(first_replies.recv().is_err());
    assert!(second_replies.recv().is_err());
    assert!(third_replies.recv().is_err());
}

#[test]
fn the_worker_stops_when_no_sender_is_left() {
    let (requests, receiver) = sync_channel::<Command>(2);
    drop(requests);
    let mut store = TicketStore::new();
    assert!(!serve_next(&mut store, &receiver));
    assert!(!serve_next(&mut store, &receiver));
    assert!(store.get(TicketId(0)).is_none());
}

#[test]
fn a_caller_that_went_away_does_not_stop_the_worker() {
    let (requests, receiver) = sync_channel(2);
    let (response_channel, replies) = sync_channel(1);
    drop(replies);
    requests
        .send(Command::Insert {
            draft: draft("A title", ""),
            response_channel,
        })
        .unwrap();
    let mut store = TicketStore::new();
    assert!(serve_next(&mut store, &receiver));
    assert_eq!(store.get(TicketId(0)).unwrap().title.as_str(), "A title");
    drop(requests);
    assert!(!serve_next(&mut store, &receiver));
}

#[test]
fn a_round_with_a_command_applies_it_and_goes_on() {
    let mut store = TicketStore::new();
    let (response_channel, replies) = sync_channel(1);
    let running = serve(
        &mut store,
        Ok(Command::Insert {
            draft: draft("A title", "A description"),
            response_channel,
        }),
    );
    assert!(running);
    assert_eq!(replies.recv().unwrap(), Ok(TicketId(0)));
    assert_eq!(store.get(TicketId(0)).unwrap().description, "A description");

    let (response_channel, replies) = sync_channel(1);
    let running = serve(
        &mut store,
        Ok(Command::Get {
            id: TicketId(0),
            response_channel,
        }),
    );
    assert!(running);
    let found = replies.recv().unwrap().unwrap().unwrap();
    assert_eq!(&found, store.get(TicketId(0)).unwrap());
    assert!(store.get(TicketId(1)).is_none());
}

#[test]
fn a_round_on_a_closed_channel_stops_the_worker() {
    let mut store = TicketStore::new();
    let id = store.add_ticket(draft("A title", ""));
    assert!(!serve(&mut store, Err(RecvError)));
    assert_eq!(store.get(id).unwrap().title.as_str(), "A title");
    assert!(store.get(TicketId(1)).is_none());
}

#[test]
fn the_messages_carry_the_answer_as_a_success() {
    assert_eq!(
        ticket_store::protocol::inserted_message(TicketId(7)),
        Ok(TicketId(7))
    );
    assert_eq!(ticket_store::protocol::found_message(None), Ok(None));
    let mut store = TicketStore::new();
    let id = store.add_ticket(draft("A title", "A description"));
    let ticket = store.get(id).unwrap().clone();
    assert_eq!(
        ticket_store::protocol::found_message(Some(ticket.clone())),
        Ok(Some(ticket))
    );
}

#[test]
fn the_commands_carry_what_the_caller_gave() {
    let (response_channel, replies) = sync_channel(1);
    let command =
        ticket_store::protocol::insert_command(draft("A title", "A description"), response_channel);
    match command {
        Command::Insert {
            draft: sent,
            response_channel,
        } => {
            assert_eq!(sent, draft("A title", "A description"));
            response_channel.send(Ok(TicketId(2))).unwrap();
            assert_eq!(replies.recv().unwrap(), Ok(TicketId(2)));
        }
        Command::Get { .. } => panic!("an insert was asked for"),
    }

    let (response_channel, replies) = sync_channel(1);
    let command = ticket_store::protocol::get_command(TicketId(11), response_channel);
    match command {
        Command::Get {
            id,
            response_channel,
        } => {
            assert_eq!(id, TicketId(11));
            response_channel.send(Ok(None)).unwrap();
            assert_eq!(replies.recv().unwrap(), Ok(None));
        }
        Command::Insert { .. } => panic!("a get was asked for"),
    }
}
