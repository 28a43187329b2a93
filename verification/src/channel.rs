//! The sending half of the unbounded queues that link the components.

use tokio::sync::mpsc::UnboundedSender;
use vstd::prelude::*;

verus! {

/// `tokio::sync::mpsc::UnboundedSender`, carried through as an opaque handle.
#[verifier::external_type_specification]
#[verifier::external_body]
#[verifier::reject_recursive_types(T)]
pub struct ExUnboundedSender<T>(UnboundedSender<T>);

/// Calls `UnboundedSender::send`, which never waits. Nothing is claimed about
/// whether the message is accepted: that depends on whether the receiving
/// half is still open. When it is refused, the error hands the very message
/// back, and so does this function.
#[verifier::external_body]
pub(crate) fn send_or_return<T>(sender: &UnboundedSender<T>, message: T) -> (outcome: Result<(), T>)
    ensures
        outcome matches Err(returned) ==> returned == message,
{
    match sender.send(message) {
        Ok(()) => Ok(()),
        Err(refused) => Err(refused.0),
    }
}

} // verus!
