//! What the verifier is told about the bounded channels of
//! `std::sync::mpsc`. Nothing here is proved, and nothing is promised of
//! what a channel hands over: that depends on the threads at its other end.

use std::sync::mpsc::{Receiver, RecvError, SendError, SyncSender};
use vstd::prelude::*;

verus! {

/// `std::sync::mpsc::SyncSender`, the sending end of a bounded channel,
/// carried as an opaque value.
#[verifier::external_type_specification]
#[verifier::external_body]
#[verifier::reject_recursive_types(T)]
pub struct ExSyncSender<T>(SyncSender<T>);

/// `std::sync::mpsc::Receiver`, the receiving end of a channel, carried as
/// an opaque value.
#[verifier::external_type_specification]
#[verifier::external_body]
#[verifier::reject_recursive_types(T)]
pub struct ExReceiver<T>(Receiver<T>);

/// `std::sync::mpsc::SendError`, which hands back a value that could not be
/// sent because the receiving end is gone.
#[verifier::external_type_specification]
#[verifier::external_body]
#[verifier::reject_recursive_types(T)]
pub struct ExSendError<T>(SendError<T>);

/// `std::sync::mpsc::RecvError`, which says that a channel is empty and all
/// its senders are gone.
#[verifier::external_type_specification]
#[verifier::external_body]
pub struct ExRecvError(RecvError);

/// `std::sync::mpsc::sync_channel` makes the two ends of a channel that
/// holds up to `bound` values. Nothing is claimed of the ends.
pub assume_specification<T>[ std::sync::mpsc::sync_channel::<T> ](bound: usize) -> (ends: (
    SyncSender<T>,
    Receiver<T>,
));

/// `SyncSender::send` waits for room in the channel and hands `t` over, or
/// fails once the receiving end is gone. Which of the two happens is not
/// claimed.
pub assume_specification<T>[ SyncSender::<T>::send ](sender: &SyncSender<T>, t: T) -> (sent:
    Result<(), SendError<T>>);

/// `SyncSender::clone` makes another sending end of the same channel.
/// Nothing is claimed of it.
pub assume_specification<T>[ <SyncSender<T> as Clone>::clone ](sender: &SyncSender<T>) -> (copy:
    SyncSender<T>);

/// `Receiver::recv` waits for the next value, or fails once the channel is
/// empty and every sender is gone. Which of the two happens, and which
/// value arrives, is not claimed.
pub assume_specification<T>[ Receiver::<T>::recv ](receiver: &Receiver<T>) -> (received: Result<
    T,
    RecvError,
>);

} // verus!
