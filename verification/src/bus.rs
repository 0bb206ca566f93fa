//! Trusted boundary to tokio's synchronization primitives: the broadcast
//! channel that fans a room's events out to its subscribers, and the async
//! mutex that callers wrap each room in.

use vstd::prelude::*;
use crate::events::ChannelError;
use crate::events::Event;

verus! {

#[verifier::external_type_specification]
#[verifier::external_body]
#[verifier::reject_recursive_types(T)]
pub struct ExBroadcastSender<T>(tokio::sync::broadcast::Sender<T>);

#[verifier::external_type_specification]
#[verifier::external_body]
#[verifier::reject_recursive_types(T)]
pub struct ExBroadcastReceiver<T>(tokio::sync::broadcast::Receiver<T>);

#[verifier::external_type_specification]
#[verifier::external_body]
#[verifier::reject_recursive_types(T)]
pub struct ExTokioMutex<T: ?Sized>(tokio::sync::Mutex<T>);

/// Relies on tokio::sync::broadcast::channel: makes a fresh bus of the given
/// capacity. It panics when the capacity is 0 or above half of usize::MAX, so
/// those capacities are required away.
pub assume_specification<T: Clone>[ tokio::sync::broadcast::channel::<T> ](
    capacity: usize,
) -> (tokio::sync::broadcast::Sender<T>, tokio::sync::broadcast::Receiver<T>)
    requires
        0 < capacity <= usize::MAX / 2,
;

/// Relies on tokio::sync::broadcast::Sender::subscribe: a fresh receiver on
/// the same bus, which sees every value sent after this call. What it will
/// receive depends on the other tasks, so nothing is stated of the result.
pub assume_specification<T>[ tokio::sync::broadcast::Sender::<T>::subscribe ](
    sender: &tokio::sync::broadcast::Sender<T>,
) -> tokio::sync::broadcast::Receiver<T>;

/// Relies on tokio's Clone for broadcast::Sender: the clone is another handle
/// on the same shared bus (it copies the one shared pointer inside), so it is
/// the same value to the logic.
pub assume_specification<T>[ <tokio::sync::broadcast::Sender<T> as Clone>::clone ](
    sender: &tokio::sync::broadcast::Sender<T>,
) -> (r: tokio::sync::broadcast::Sender<T>)
    ensures
        r == *sender,
;

/// Relies on tokio::sync::broadcast::Sender::send: it never blocks; it hands
/// the event to every current subscriber's queue and fails only when there is
/// no subscriber at all. Whether it fails depends on concurrent subscribers,
/// so nothing is stated of the result.
#[verifier::external_body]
pub(crate) fn send_event(
    sender: &tokio::sync::broadcast::Sender<Event>,
    event: Event,
) -> (r: Result<(), ChannelError>) {
    match sender.send(event) {
        Ok(_) => Ok(()),
        Err(_) => Err(ChannelError),
    }
}

/// Relies on tokio::sync::Mutex::new: wraps a value in an async lock. The
/// lock is opaque here; only unverified callers open it.
#[verifier::external_body]
pub(crate) fn new_lock<T>(value: T) -> tokio::sync::Mutex<T> {
    tokio::sync::Mutex::new(value)
}

} // verus!
