use tokio::sync::mpsc::{UnboundedReceiver, UnboundedSender};
use vstd::prelude::*;

verus! {

#[verifier::external_type_specification]
#[verifier::external_body]
#[verifier::reject_recursive_types(T)]
pub struct ExUnboundedSender<T>(UnboundedSender<T>);

#[verifier::external_type_specification]
#[verifier::external_body]
#[verifier::reject_recursive_types(T)]
pub struct ExUnboundedReceiver<T>(UnboundedReceiver<T>);

/// Relies on tokio's `unbounded_channel`: a fresh queue, as its sending and
/// its receiving half.
pub assume_specification<T>[ tokio::sync::mpsc::unbounded_channel::<T> ]() -> (
    UnboundedSender<T>,
    UnboundedReceiver<T>,
);

/// Relies on tokio's `Clone` for `UnboundedSender`: one more handle on the
/// same shared channel, as `Arc::clone` is.
pub assume_specification<T>[ <UnboundedSender<T> as Clone>::clone ](
    tx: &UnboundedSender<T>,
) -> (r: UnboundedSender<T>)
    ensures
        r == *tx,
;

/// Relies on tokio's `UnboundedSender::send`: it never waits, and when the
/// receiving half is gone it hands the message back inside its error.
#[verifier::external_body]
pub(crate) fn send_message<T>(tx: &UnboundedSender<T>, message: T) -> (r: Result<(), T>)
    ensures
        r matches Err(m) ==> m == message,
{
    tx.send(message).map_err(|e| e.0)
}

} // verus!
