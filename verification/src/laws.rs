//! What holds of the directory and of every connection, whatever the
//! sessions do. Each statement is over the values that the contracts of the
//! other modules speak of.

use crate::connection::{dispatch, step, EventView, OutcomeView, StateView, Step};
use crate::message::{envelope_of_text, kind_of, MessageKind, WsMessageView};
use crate::registry::{fresh_record, lists, Line, RecordView};
use crate::session::{info_of, AntigravityStateView, ExtensionInfoView};
use tokio::sync::mpsc::UnboundedSender;
use vstd::prelude::*;

verus! {

/// Registering an id twice leaves one record under it: that of the second
/// registration, with the second connection's queue, no status and an empty
/// outbox. The directory has as many entries as after the first registration.
pub proof fn law_registration_replaces(
    sessions: Map<Seq<char>, RecordView>,
    first: ExtensionInfoView,
    first_queue: UnboundedSender<String>,
    second: ExtensionInfoView,
    second_queue: UnboundedSender<String>,
)
    requires
        sessions.dom().finite(),
        first.window_id == second.window_id,
    ensures
        ({
            let once = sessions.insert(first.window_id, fresh_record(first, first_queue));
            let twice = once.insert(second.window_id, fresh_record(second, second_queue));
            &&& twice == sessions.insert(second.window_id, fresh_record(second, second_queue))
            &&& twice[second.window_id] == fresh_record(second, second_queue)
            &&& twice.dom() == once.dom()
            &&& twice.dom().len() == once.dom().len()
        }),
{
    let once = sessions.insert(first.window_id, fresh_record(first, first_queue));
    let twice = once.insert(second.window_id, fresh_record(second, second_queue));
    assert(twice =~= sessions.insert(second.window_id, fresh_record(second, second_queue)));
    assert(twice.dom() =~= once.dom());
}

/// The same, told of two connections that each send a well-formed `hello`
/// with the same session id: the second one owns the record.
pub proof fn law_second_hello_wins(
    sessions: Map<Seq<char>, RecordView>,
    first_state: StateView,
    first_queue: UnboundedSender<String>,
    first: WsMessageView,
    second_state: StateView,
    second_queue: UnboundedSender<String>,
    second: WsMessageView,
)
    requires
        kind_of(first.msg_type) == MessageKind::Hello,
        kind_of(second.msg_type) == MessageKind::Hello,
        info_of(first.payload) is Some,
        info_of(second.payload) is Some,
        info_of(first.payload)->0.window_id == info_of(second.payload)->0.window_id,
    ensures
        ({
            let info = info_of(second.payload)->0;
            let once = dispatch(first_state, sessions, first_queue, first);
            let twice = dispatch(second_state, once.sessions, second_queue, second);
            &&& twice.state == StateView::Registered(info.window_id)
            &&& twice.sessions == sessions.insert(info.window_id, fresh_record(info, second_queue))
            &&& twice.sessions.dom() == once.sessions.dom()
        }),
{
    let info = info_of(second.payload)->0;
    let once = dispatch(first_state, sessions, first_queue, first);
    let twice = dispatch(second_state, once.sessions, second_queue, second);
    assert(twice.sessions =~= sessions.insert(info.window_id, fresh_record(info, second_queue)));
    assert(twice.sessions.dom() =~= once.sessions.dom());
}

/// On a connection that has not registered, a frame that is not a
/// well-formed `hello` changes neither the connection nor the directory. So a
/// `stateChanged` sent before `hello` creates no record.
pub proof fn law_state_needs_registration(
    sessions: Map<Seq<char>, RecordView>,
    outbound: UnboundedSender<String>,
    text: Seq<char>,
)
    requires
        match envelope_of_text(text) {
            Some(msg) => kind_of(msg.msg_type) != MessageKind::Hello,
            None => true,
        },
    ensures
        step(StateView::Unregistered, sessions, outbound, EventView::Text(text)).state
            == StateView::Unregistered,
        step(StateView::Unregistered, sessions, outbound, EventView::Text(text)).sessions
            == sessions,
{
}

/// A status report replaces the one before it as a whole: after two reports
/// the record holds the second, and nothing of the first.
pub proof fn law_last_report_wins(
    sessions: Map<Seq<char>, RecordView>,
    id: Seq<char>,
    first: AntigravityStateView,
    second: AntigravityStateView,
)
    requires
        sessions.contains_key(id),
    ensures
        ({
            let once = sessions.insert(id, RecordView { state: Some(first), ..sessions[id] });
            let twice = once.insert(id, RecordView { state: Some(second), ..once[id] });
            twice == sessions.insert(id, RecordView { state: Some(second), ..sessions[id] })
        }),
{
    let once = sessions.insert(id, RecordView { state: Some(first), ..sessions[id] });
    let twice = once.insert(id, RecordView { state: Some(second), ..once[id] });
    assert(twice =~= sessions.insert(id, RecordView { state: Some(second), ..sessions[id] }));
}

/// Whether an event ends a connection.
pub open spec fn closes(event: EventView) -> bool {
    event is PeerClosed || event is TransportError || event is Shutdown
}

/// When a registered connection closes, by the peer, by a failure of the
/// transport or by the server, the connection is closed for good and its id
/// is gone from the directory and from every listing of it. Nothing else in
/// the directory changes.
pub proof fn law_disconnect_cleans_up(
    sessions: Map<Seq<char>, RecordView>,
    outbound: UnboundedSender<String>,
    id: Seq<char>,
    event: EventView,
    listing: Seq<Line>,
)
    requires
        closes(event),
        lists(listing, step(StateView::Registered(id), sessions, outbound, event).sessions),
    ensures
        step(StateView::Registered(id), sessions, outbound, event).state == StateView::Closed,
        step(StateView::Registered(id), sessions, outbound, event).sessions == sessions.remove(
            id,
        ),
        !step(StateView::Registered(id), sessions, outbound, event).sessions.contains_key(id),
        forall|i: int| 0 <= i < listing.len() ==> (#[trigger] listing[i]).0 != id,
{
}

/// A listing has one line for each session of the directory, no more and no
/// fewer.
pub proof fn law_listing_counts_sessions(listing: Seq<Line>, sessions: Map<Seq<char>, RecordView>)
    requires
        lists(listing, sessions),
    ensures
        sessions.dom().finite(),
        sessions.dom().len() == listing.len(),
{
    let ids = listing.map_values(|line: Line| line.0);
    assert(ids.no_duplicates()) by {
        assert forall|i: int, j: int| 0 <= i < ids.len() && 0 <= j < ids.len() && i != j implies ids[i]
            != ids[j] by {
            if i < j {
                assert(listing[i].0 != listing[j].0);
            } else {
                assert(listing[j].0 != listing[i].0);
            }
        }
    }
    assert(ids.to_set() =~= sessions.dom()) by {
        assert forall|id: Seq<char>| ids.to_set().contains(id) <==> sessions.dom().contains(
            id,
        ) by {
            if ids.to_set().contains(id) {
                let i = choose|i: int| 0 <= i < ids.len() && ids[i] == id;
                assert(sessions.contains_key(listing[i].0));
            }
            if sessions.contains_key(id) {
                let i = choose|i: int| 0 <= i < listing.len() && (#[trigger] listing[i]).0 == id;
                assert(ids[i] == id);
            }
        }
    }
    ids.unique_seq_to_set();
    vstd::seq_lib::seq_to_set_is_finite(ids);
}

/// A closed connection stays closed, and no event on it touches the directory.
pub proof fn law_closed_is_final(
    sessions: Map<Seq<char>, RecordView>,
    outbound: UnboundedSender<String>,
    event: EventView,
)
    ensures
        step(StateView::Closed, sessions, outbound, event) == (Step {
            state: StateView::Closed,
            sessions,
            outcome: OutcomeView::Ignored,
        }),
{
}

/// An envelope of an unknown type changes neither the connection nor the
/// directory; in particular it never closes the connection.
pub proof fn law_unknown_type_is_inert(
    state: StateView,
    sessions: Map<Seq<char>, RecordView>,
    outbound: UnboundedSender<String>,
    text: Seq<char>,
)
    requires
        envelope_of_text(text) is Some,
        kind_of(envelope_of_text(text)->0.msg_type) == MessageKind::Unknown,
    ensures
        step(state, sessions, outbound, EventView::Text(text)).state == state,
        step(state, sessions, outbound, EventView::Text(text)).sessions == sessions,
{
}

/// No frame, whatever it holds, closes a connection: only the transport's
/// own events do.
pub proof fn law_frames_never_close(
    state: StateView,
    sessions: Map<Seq<char>, RecordView>,
    outbound: UnboundedSender<String>,
    event: EventView,
)
    requires
        !(state is Closed),
        !closes(event),
    ensures
        !(step(state, sessions, outbound, event).state is Closed),
{
}

/// The type name `totallyUnknown` is of no known kind.
pub proof fn law_totally_unknown()
    ensures
        kind_of("totallyUnknown"@) == MessageKind::Unknown,
{
    reveal_strlit("totallyUnknown");
    reveal_strlit("hello");
    reveal_strlit("stateChanged");
    reveal_strlit("state");
    reveal_strlit("result");
    reveal_strlit("error");
    reveal_strlit("pong");
    reveal_strlit("simulateEnter");
    assert("totallyUnknown"@.len() == 14);
}

} // verus!
