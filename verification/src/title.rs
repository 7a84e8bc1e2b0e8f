//! Ticket titles: text that is known to be non-empty and at most
//! [`MAX_TITLE_BYTES`] bytes long in UTF-8.

use vstd::prelude::*;
use vstd::std_specs::cmp::PartialEqSpec;
use vstd::std_specs::convert::TryFromSpecImpl;
use vstd::utf8::{encode_scalar, encode_utf8};

verus! {

/// The largest number of bytes that a title may take.
pub const MAX_TITLE_BYTES: usize = 50;

/// The number of bytes that `text` takes in UTF-8.
pub open spec fn byte_len(text: Seq<char>) -> nat {
    encode_utf8(text).len()
}

/// Whether `text` may stand as a title.
pub open spec fn is_valid_title(text: Seq<char>) -> bool {
    0 < byte_len(text) <= MAX_TITLE_BYTES
}

/// Why a text was refused as a title.
#[derive(Clone, Copy, Debug, PartialEq, Eq, Structural)]
pub enum InvalidTitleError {
    /// The text holds no bytes.
    Empty,
    /// The text holds more than [`MAX_TITLE_BYTES`] bytes.
    TooLong,
}

/// What validating `text` gives: the text itself where it may stand as a
/// title, and otherwise the reason why it may not.
pub open spec fn validated(text: Seq<char>) -> Result<Seq<char>, InvalidTitleError> {
    if byte_len(text) == 0 {
        Err(InvalidTitleError::Empty)
    } else if byte_len(text) > MAX_TITLE_BYTES {
        Err(InvalidTitleError::TooLong)
    } else {
        Ok(text)
    }
}

/// A text takes no bytes exactly when it holds no characters.
pub proof fn lemma_no_bytes_iff_no_chars(text: Seq<char>)
    ensures
        byte_len(text) == 0 <==> text.len() == 0,
{
    if text.len() > 0 {
        assert(encode_scalar(text[0] as u32).len() >= 1);
    }
}

impl InvalidTitleError {
    /// The message that goes with the error.
    pub open spec fn message(self) -> Seq<char> {
        match self {
            InvalidTitleError::Empty => "The title cannot be empty"@,
            InvalidTitleError::TooLong => "The title cannot be longer than 50 bytes"@,
        }
    }

    /// The error's message, as an owned string.
    pub fn to_string(&self) -> (text: String)
        ensures
            text@ == self.message(),
    {
        match self {
            InvalidTitleError::Empty => "The title cannot be empty".to_string(),
            InvalidTitleError::TooLong => "The title cannot be longer than 50 bytes".to_string(),
        }
    }
}

/// A validated ticket title. It is made by conversion from a `String` or a
/// `&str` and never changes afterwards.
#[derive(Debug)]
pub struct TicketTitle(String);

impl View for TicketTitle {
    type V = Seq<char>;

    closed spec fn view(&self) -> Seq<char> {
        self.0@
    }
}

/// The outcome of a conversion, with the title replaced by its text.
pub open spec fn outcome_view(outcome: Result<TicketTitle, InvalidTitleError>) -> Result<
    Seq<char>,
    InvalidTitleError,
> {
    match outcome {
        Ok(title) => Ok(title@),
        Err(error) => Err(error),
    }
}

impl TicketTitle {
    #[verifier::type_invariant]
    spec fn holds_valid_text(self) -> bool {
        is_valid_title(self.0@)
    }

    /// The title's text, which is the text it was made from.
    pub fn as_str(&self) -> (text: &str)
        ensures
            text@ == self@,
            is_valid_title(text@),
    {
        proof {
            use_type_invariant(self);
        }
        self.0.as_str()
    }
}

impl TryFrom<String> for TicketTitle {
    type Error = InvalidTitleError;

    /// Takes `value` as a title, unchanged, if it is neither empty nor
    /// longer than [`MAX_TITLE_BYTES`] bytes.
    fn try_from(value: String) -> (outcome: Result<TicketTitle, InvalidTitleError>)
        ensures
            outcome_view(outcome) == validated(value@),
    {
        proof {
            lemma_no_bytes_iff_no_chars(value@);
        }
        if value.as_str().is_empty() {
            Err(InvalidTitleError::Empty)
        } else if value.as_str().as_bytes().len() > MAX_TITLE_BYTES {
            Err(InvalidTitleError::TooLong)
        } else {
            Ok(TicketTitle(value))
        }
    }
}

impl TryFromSpecImpl<String> for TicketTitle {
    open spec fn obeys_try_from_spec() -> bool {
        true
    }

    closed spec fn try_from_spec(value: String) -> Result<Self, Self::Error> {
        match validated(value@) {
            Ok(_) => Ok(TicketTitle(value)),
            Err(error) => Err(error),
        }
    }
}

impl<'a> TryFrom<&'a str> for TicketTitle {
    type Error = InvalidTitleError;

    /// Takes a copy of `value` as a title if it is neither empty nor longer
    /// than [`MAX_TITLE_BYTES`] bytes.
    fn try_from(value: &'a str) -> (outcome: Result<TicketTitle, InvalidTitleError>)
        ensures
            outcome_view(outcome) == validated(value@),
    {
        proof {
            lemma_no_bytes_iff_no_chars(value@);
        }
        if value.is_empty() {
            Err(InvalidTitleError::Empty)
        } else if value.as_bytes().len() > MAX_TITLE_BYTES {
            Err(InvalidTitleError::TooLong)
        } else {
            Ok(TicketTitle(value.to_string()))
        }
    }
}

/// The conversion allocates the string that the title holds, so its result
/// is fixed by its `ensures` up to the title's text, not as a value.
impl<'a> TryFromSpecImpl<&'a str> for TicketTitle {
    open spec fn obeys_try_from_spec() -> bool {
        false
    }

    open spec fn try_from_spec(value: &'a str) -> Result<Self, Self::Error> {
        arbitrary()
    }
}

impl Clone for TicketTitle {
    fn clone(&self) -> (copy: Self)
        ensures
            copy == *self,
    {
        proof {
            use_type_invariant(self);
        }
        TicketTitle(self.0.clone())
    }
}

impl PartialEq for TicketTitle {
    fn eq(&self, other: &Self) -> (equal: bool) {
        self.0 == other.0
    }
}

/// Two titles are equal when their texts are.
impl vstd::std_specs::cmp::PartialEqSpecImpl for TicketTitle {
    open spec fn obeys_eq_spec() -> bool {
        true
    }

    open spec fn eq_spec(&self, other: &Self) -> bool {
        self@ == other@
    }
}

/// Converting is repeatable: whatever two conversions of one accepted text
/// return, both are titles, both hold that text, and `==` finds them
/// equal.
pub proof fn lemma_same_text_gives_equal_titles(
    text: Seq<char>,
    first: Result<TicketTitle, InvalidTitleError>,
    second: Result<TicketTitle, InvalidTitleError>,
)
    requires
        is_valid_title(text),
        outcome_view(first) == validated(text),
        outcome_view(second) == validated(text),
    ensures
        first matches Ok(one) && second matches Ok(other) && one@ == text && other@ == text
            && one.eq_spec(&other),
{
}

} // verus!
