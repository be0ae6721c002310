//! What the control application may ask of the directory: send a message to
//! one session, send one to all, list the sessions.

use crate::message::{envelope_text, WsMessage};
use crate::registry::{line_view, lists, offered_once, with_delivery, Registry};
use crate::session::AntigravityState;
use vstd::prelude::*;

verus! {

/// Why a message was not accepted for delivery.
#[derive(Debug, Clone, Copy, PartialEq, Eq, Structural)]
pub enum SendError {
    /// No session is registered under the id, or the session has vanished:
    /// its outbound queue no longer takes anything.
    NotConnected,
    /// The message could not be printed as text.
    Unprintable,
}

/// What a sender is told, given what became of the attempt: `None` where no
/// session was found, otherwise whether its queue took the text.
pub open spec fn verdict(attempt: Option<bool>) -> Result<(), SendError> {
    match attempt {
        Some(true) => Ok(()),
        _ => Err(SendError::NotConnected),
    }
}

/// Tells a sender what became of an attempt to deliver.
pub fn verdict_of(attempt: Option<bool>) -> (r: Result<(), SendError>)
    ensures
        r == verdict(attempt),
{
    match attempt {
        Some(true) => Ok(()),
        _ => Err(SendError::NotConnected),
    }
}

/// Sends a message to the session `window_id`. `Ok` means that the session's
/// outbound queue took the text, not that the client has read it.
///
/// Where no such session is registered, or the message cannot be printed,
/// nothing changes. Otherwise the text is offered once to that session's
/// queue and to no other; the result tells whether the queue took it.
pub fn send_to_extension(registry: &mut Registry, window_id: &str, msg: WsMessage) -> (r: Result<
    (),
    SendError,
>)
    ensures
        !old(registry)@.contains_key(window_id@) ==> r == Err::<(), SendError>(
            SendError::NotConnected,
        ) && final(registry)@ == old(registry)@,
        old(registry)@.contains_key(window_id@) ==> match envelope_text(msg@) {
            None => r == Err::<(), SendError>(SendError::Unprintable) && final(registry)@ == old(
                registry,
            )@,
            Some(text) => (r is Ok || r == Err::<(), SendError>(SendError::NotConnected))
                && final(registry)@ == old(registry)@.insert(
                window_id@,
                with_delivery(old(registry)@[window_id@], text, r is Ok),
            ),
        },
{
    if !registry.contains(window_id) {
        return Err(SendError::NotConnected);
    }
    match msg.to_text() {
        Some(text) => verdict_of(registry.deliver(window_id, text)),
        None => Err(SendError::Unprintable),
    }
}

/// Lists every registered session with its workspace label and the status it
/// last reported. The order is that of the directory.
pub fn get_connected_extensions(registry: &Registry) -> (r: Vec<
    (String, String, Option<AntigravityState>),
>)
    ensures
        registry@.dom().finite(),
        r@.len() == registry@.dom().len(),
        lists(r@.map_values(|line| line_view(line)), registry@),
{
    registry.snapshot()
}

/// Sends a message to every registered session: the same text is offered
/// once to each session's outbound queue, whatever the other queues do with
/// it. A message that cannot be printed is sent to nobody.
pub fn broadcast(registry: &mut Registry, msg: WsMessage)
    ensures
        final(registry)@.dom() == old(registry)@.dom(),
        match envelope_text(msg@) {
            Some(text) => forall|id: Seq<char>| #[trigger]
                old(registry)@.contains_key(id) ==> offered_once(
                    old(registry)@[id],
                    final(registry)@[id],
                    text,
                ),
            None => final(registry)@ == old(registry)@,
        },
{
    match msg.to_text() {
        Some(text) => registry.deliver_all(text.as_str()),
        None => {},
    }
}

} // verus!
