use std::convert::TryFrom;
use ticket_store::title::{InvalidTitleError, TicketTitle, MAX_TITLE_BYTES};

#[test]
fn test_try_from_string() {
    let title = TicketTitle::try_from("A title".to_string()).unwrap();
    assert_eq!(title.as_str(), "A title");
}

#[test]
fn test_try_from_empty_string() {
    let err = TicketTitle::try_from("".to_string()).unwrap_err();
    assert_eq!(err.to_string(), "The title cannot be empty");
}

#[test]
fn test_try_from_long_string() {
    let title =
        "A title that's definitely longer than what should be allowed in a development ticket"
            .to_string();
    let err = TicketTitle::try_from(title).unwrap_err();
    assert_eq!(err.to_string(), "The title cannot be longer than 50 bytes");
}

#[test]
fn test_try_from_str() {
    let title = TicketTitle::try_from("A title").unwrap();
    assert_eq!(title.as_str(), "A title");
}

#[test]
fn empty_str_is_refused_as_empty() {
    assert_eq!(TicketTitle::try_from("").unwrap_err(), InvalidTitleError::Empty);
    assert_eq!(
        TicketTitle::try_from(String::new()).unwrap_err(),
        InvalidTitleError::Empty
    );
}

#[test]
fn long_str_is_refused_as_too_long() {
    let text =
        "A title that's definitely longer than what should be allowed in a development ticket";
    let err = TicketTitle::try_from(text).unwrap_err();
    assert_eq!(err, InvalidTitleError::TooLong);
    assert_eq!(err.to_string(), "The title cannot be longer than 50 bytes");
}

#[test]
fn one_byte_is_enough() {
    let title = TicketTitle::try_from("a").unwrap();
    assert_eq!(title.as_str(), "a");
}

#[test]
fn the_limit_itself_is_accepted() {
    assert_eq!(MAX_TITLE_BYTES, 50);
    let text = "x".repeat(50);
    let title = TicketTitle::try_from(text.clone()).unwrap();
    assert_eq!(title.as_str(), text);
    let title = TicketTitle::try_from(text.as_str()).unwrap();
    assert_eq!(title.as_str(), text);
}

#[test]
fn one_byte_over_the_limit_is_refused() {
    let text = "x".repeat(51);
    assert_eq!(
        TicketTitle::try_from(text.as_str()).unwrap_err(),
        InvalidTitleError::TooLong
    );
    assert_eq!(
        TicketTitle::try_from(text).unwrap_err(),
        InvalidTitleError::TooLong
    );
}

#[test]
fn the_limit_counts_bytes_not_characters() {
    // 25 characters of two bytes each: 50 bytes.
    let fits = "é".repeat(25);
    assert_eq!(fits.len(), 50);
    assert_eq!(TicketTitle::try_from(fits.as_str()).unwrap().as_str(), fits);
    // 17 characters of three bytes each: 51 bytes.
    let too_long = "€".repeat(17);
    assert_eq!(too_long.len(), 51);
    assert_eq!(
        TicketTitle::try_from(too_long).unwrap_err(),
        InvalidTitleError::TooLong
    );
    // 13 characters of four bytes each: 52 bytes.
    let too_long = "𝄞".repeat(13);
    assert_eq!(
        TicketTitle::try_from(too_long.as_str()).unwrap_err(),
        InvalidTitleError::TooLong
    );
}

#[test]
fn the_text_is_kept_as_it_is() {
    let text = "  Spaces, tabs\tand CASE stay  ";
    let title = TicketTitle::try_from(text).unwrap();
    assert_eq!(title.as_str(), text);
    let title = TicketTitle::try_from(text.to_string()).unwrap();
    assert_eq!(title.as_str(), text);
}

#[test]
fn the_same_text_gives_equal_titles() {
    let first = TicketTitle::try_from("A title").unwrap();
    let second = TicketTitle::try_from("A title").unwrap();
    let third = TicketTitle::try_from("A title".to_string()).unwrap();
    assert_eq!(first, second);
    assert_eq!(first, third);
    assert!(first == second);
    assert_ne!(first, TicketTitle::try_from("Another title").unwrap());
}

#[test]
fn a_clone_equals_the_title_it_was_made_from() {
    let title = TicketTitle::try_from("A title").unwrap();
    let copy = title.clone();
    assert_eq!(copy, title);
    assert_eq!(copy.as_str(), "A title");
}

#[test]
fn each_error_has_its_message() {
    assert_eq!(
        InvalidTitleError::Empty.to_string(),
        "The title cannot be empty"
    );
    assert_eq!(
        InvalidTitleError::TooLong.to_string(),
        "The title cannot be longer than 50 bytes"
    );
}
