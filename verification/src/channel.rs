//! The sending half of a session's outbound queue, which the `tokio` crate
//! provides. Nothing in this file is proved.

use vstd::prelude::*;

verus! {

/// `tokio::sync::mpsc::UnboundedSender`, the handle through which texts are
/// put on a connection's outbound queue. The verifier sees nothing inside it.
#[verifier::external_type_specification]
#[verifier::external_body]
#[verifier::reject_recursive_types(T)]
pub struct ExUnboundedSender<T>(tokio::sync::mpsc::UnboundedSender<T>);

/// `UnboundedSender::clone`: the copy is a handle to the same queue.
pub assume_specification<T>[ <tokio::sync::mpsc::UnboundedSender<T> as Clone>::clone ](
    tx: &tokio::sync::mpsc::UnboundedSender<T>,
) -> (r: tokio::sync::mpsc::UnboundedSender<T>)
    ensures
        r == *tx,
;

/// Calls `UnboundedSender::send`, which never waits. The result tells whether
/// the queue took the text: it refuses once its receiving half is closed or
/// gone, which no argument shows, so nothing is promised of the result.
#[verifier::external_body]
pub(crate) fn channel_send(tx: &tokio::sync::mpsc::UnboundedSender<String>, text: String) -> (accepted:
    bool) {
    tx.send(text).is_ok()
}

} // verus!
