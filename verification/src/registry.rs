//! The directory of live sessions: at most one record per session id.

use crate::channel::channel_send;
use crate::message::text_is;
use crate::session::{
    AntigravityState, AntigravityStateView, ExtensionInfo, ExtensionInfoView,
};
use tokio::sync::mpsc::UnboundedSender;
use vstd::prelude::*;

verus! {

/// One attempt to put a text on a session's outbound queue.
pub struct Delivery {
    /// The text that was offered.
    pub text: Seq<char>,
    /// Whether the queue took it.
    pub accepted: bool,
}

/// What the directory holds for one session.
pub struct ConnectedExtension {
    info: ExtensionInfo,
    sender: UnboundedSender<String>,
    last_state: Option<AntigravityState>,
    deliveries: Ghost<Seq<Delivery>>,
}

/// Mathematical value of a [`ConnectedExtension`].
pub struct RecordView {
    /// Identity given at registration.
    pub info: ExtensionInfoView,
    /// Handle of the session's outbound queue.
    pub sender: UnboundedSender<String>,
    /// Status last reported, if any.
    pub state: Option<AntigravityStateView>,
    /// Every attempt to put a text on the queue through this record, in order.
    pub outbox: Seq<Delivery>,
}

/// The value of an optional status report.
pub open spec fn state_view(state: Option<AntigravityState>) -> Option<AntigravityStateView> {
    match state {
        Some(s) => Some(s@),
        None => None,
    }
}

/// The record that a registration creates: no status yet, nothing offered yet.
pub open spec fn fresh_record(info: ExtensionInfoView, sender: UnboundedSender<String>) -> RecordView {
    RecordView { info, sender, state: None, outbox: Seq::empty() }
}

/// The record `before` with one more attempt in its outbox.
pub open spec fn with_delivery(before: RecordView, text: Seq<char>, accepted: bool) -> RecordView {
    RecordView { outbox: before.outbox.push(Delivery { text, accepted }), ..before }
}

impl View for ConnectedExtension {
    type V = RecordView;

    closed spec fn view(&self) -> RecordView {
        RecordView {
            info: self.info@,
            sender: self.sender,
            state: state_view(self.last_state),
            outbox: self.deliveries@,
        }
    }
}

impl ConnectedExtension {
    /// A record for a session that has just registered.
    pub fn new(info: ExtensionInfo, sender: UnboundedSender<String>) -> (r: ConnectedExtension)
        ensures
            r@ == fresh_record(info@, sender),
    {
        ConnectedExtension { info, sender, last_state: None, deliveries: Ghost(Seq::empty()) }
    }

    /// The identity that the session gave when it registered.
    pub fn info(&self) -> (r: &ExtensionInfo)
        ensures
            r@ == self@.info,
    {
        &self.info
    }

    /// The status that the session last reported, if it has reported one.
    pub fn last_state(&self) -> (r: Option<&AntigravityState>)
        ensures
            match r {
                Some(state) => self@.state == Some(state@),
                None => self@.state.is_none(),
            },
    {
        self.last_state.as_ref()
    }

    /// Offers a text to the session's outbound queue and tells whether the
    /// queue took it. The attempt is added to the record's outbox either way.
    pub fn deliver(&mut self, text: String) -> (accepted: bool)
        ensures
            final(self)@ == with_delivery(old(self)@, text@, accepted),
    {
        let ghost offered = text@;
        let accepted = channel_send(&self.sender, text);
        proof {
            self.deliveries@ = self.deliveries@.push(Delivery { text: offered, accepted });
        }
        accepted
    }
}

/// Whether some record of `entries` has the id `id`.
spec fn has_id(entries: Seq<RecordView>, id: Seq<char>) -> bool {
    exists|i: int| 0 <= i < entries.len() && (#[trigger] entries[i]).info.window_id == id
}

/// The place of a record with the id `id` in `entries`.
spec fn index_of(entries: Seq<RecordView>, id: Seq<char>) -> int {
    choose|i: int| 0 <= i < entries.len() && (#[trigger] entries[i]).info.window_id == id
}

/// Whether no two records of `entries` share an id.
spec fn distinct_ids(entries: Seq<RecordView>) -> bool {
    forall|i: int, j: int|
        0 <= i < j < entries.len() ==> (#[trigger] entries[i]).info.window_id != (
        #[trigger] entries[j]).info.window_id
}

/// The map from session id to record that a list of records stands for.
spec fn directory(entries: Seq<RecordView>) -> Map<Seq<char>, RecordView> {
    Map::new(|id: Seq<char>| has_id(entries, id), |id: Seq<char>| entries[index_of(entries, id)])
}

/// In a list without repeated ids, each record is the one found under its id.
proof fn lemma_directory_at(entries: Seq<RecordView>, i: int)
    requires
        distinct_ids(entries),
        0 <= i < entries.len(),
    ensures
        has_id(entries, entries[i].info.window_id),
        index_of(entries, entries[i].info.window_id) == i,
        directory(entries).contains_key(entries[i].info.window_id),
        directory(entries)[entries[i].info.window_id] == entries[i],
{
    let id = entries[i].info.window_id;
    let j = index_of(entries, id);
    assert(0 <= j < entries.len() && entries[j].info.window_id == id);
}

/// Appending a record with a new id adds it to the directory.
proof fn lemma_directory_push(entries: Seq<RecordView>, record: RecordView)
    requires
        distinct_ids(entries),
        !has_id(entries, record.info.window_id),
    ensures
        distinct_ids(entries.push(record)),
        directory(entries.push(record)) == directory(entries).insert(
            record.info.window_id,
            record,
        ),
{
    let after = entries.push(record);
    assert(distinct_ids(after)) by {
        assert forall|i: int, j: int| 0 <= i < j < after.len() implies (#[trigger] after[i]).info.window_id
            != (#[trigger] after[j]).info.window_id by {
            if j < entries.len() {
                assert(after[i] == entries[i] && after[j] == entries[j]);
            } else {
                assert(after[i] == entries[i]);
            }
        }
    }
    assert forall|id: Seq<char>| has_id(after, id) <==> (has_id(entries, id) || id
        == record.info.window_id) by {
        if has_id(entries, id) {
            let i = index_of(entries, id);
            assert(after[i] == entries[i]);
        }
        if id == record.info.window_id {
            assert(after[entries.len() as int] == record);
        }
        if has_id(after, id) {
            let i = index_of(after, id);
            if i < entries.len() {
                assert(after[i] == entries[i]);
            }
        }
    }
    assert forall|id: Seq<char>| has_id(after, id) implies #[trigger] directory(after)[id]
        == directory(entries).insert(record.info.window_id, record)[id] by {
        let i = index_of(after, id);
        lemma_directory_at(after, i);
        if i < entries.len() {
            assert(after[i] == entries[i]);
            lemma_directory_at(entries, i);
        }
    }
    assert(directory(after) =~= directory(entries).insert(record.info.window_id, record));
}

/// Replacing a record by one with the same id replaces it in the directory.
proof fn lemma_directory_update(entries: Seq<RecordView>, i: int, record: RecordView)
    requires
        distinct_ids(entries),
        0 <= i < entries.len(),
        entries[i].info.window_id == record.info.window_id,
    ensures
        distinct_ids(entries.update(i, record)),
        directory(entries.update(i, record)) == directory(entries).insert(
            record.info.window_id,
            record,
        ),
{
    let after = entries.update(i, record);
    assert forall|a: int| 0 <= a < after.len() implies (#[trigger] after[a]).info.window_id
        == entries[a].info.window_id by {}
    assert(distinct_ids(after)) by {
        assert forall|a: int, b: int| 0 <= a < b < after.len() implies (#[trigger] after[a]).info.window_id
            != (#[trigger] after[b]).info.window_id by {
            assert(entries[a].info.window_id != entries[b].info.window_id);
        }
    }
    assert forall|id: Seq<char>| has_id(after, id) <==> has_id(entries, id) by {
        if has_id(entries, id) {
            let a = index_of(entries, id);
            assert(after[a].info.window_id == id);
        }
        if has_id(after, id) {
            let a = index_of(after, id);
            assert(entries[a].info.window_id == id);
        }
    }
    lemma_directory_at(entries, i);
    assert forall|id: Seq<char>| has_id(after, id) implies #[trigger] directory(after)[id]
        == directory(entries).insert(record.info.window_id, record)[id] by {
        let a = index_of(after, id);
        lemma_directory_at(after, a);
        lemma_directory_at(entries, a);
    }
    assert(directory(after) =~= directory(entries).insert(record.info.window_id, record));
}

/// Taking a record out of the list takes its id out of the directory.
proof fn lemma_directory_remove(entries: Seq<RecordView>, i: int)
    requires
        distinct_ids(entries),
        0 <= i < entries.len(),
    ensures
        distinct_ids(entries.remove(i)),
        directory(entries.remove(i)) == directory(entries).remove(entries[i].info.window_id),
{
    let after = entries.remove(i);
    let gone = entries[i].info.window_id;
    assert forall|a: int| 0 <= a < after.len() implies #[trigger] after[a] == entries[if a < i {
        a
    } else {
        a + 1
    }] by {}
    assert(distinct_ids(after)) by {
        assert forall|a: int, b: int| 0 <= a < b < after.len() implies (#[trigger] after[a]).info.window_id
            != (#[trigger] after[b]).info.window_id by {
            let a0 = if a < i { a } else { a + 1 };
            let b0 = if b < i { b } else { b + 1 };
            assert(after[a] == entries[a0] && after[b] == entries[b0]);
        }
    }
    assert forall|id: Seq<char>| has_id(after, id) <==> (has_id(entries, id) && id != gone) by {
        if has_id(entries, id) && id != gone {
            let a = index_of(entries, id);
            let a1 = if a < i { a } else { a - 1 };
            assert(after[a1] == entries[a]);
        }
        if has_id(after, id) {
            let a = index_of(after, id);
            let a0 = if a < i { a } else { a + 1 };
            assert(after[a] == entries[a0]);
            assert(entries[a0].info.window_id != entries[i].info.window_id);
        }
    }
    assert forall|id: Seq<char>| has_id(after, id) implies #[trigger] directory(after)[id]
        == directory(entries).remove(gone)[id] by {
        let a = index_of(after, id);
        let a0 = if a < i { a } else { a + 1 };
        assert(after[a] == entries[a0]);
        lemma_directory_at(after, a);
        lemma_directory_at(entries, a0);
    }
    assert(directory(after) =~= directory(entries).remove(gone));
}

/// A list without repeated ids stands for a finite directory with one entry
/// per record.
proof fn lemma_directory_len(entries: Seq<RecordView>)
    requires
        distinct_ids(entries),
    ensures
        directory(entries).dom().finite(),
        directory(entries).dom().len() == entries.len(),
    decreases entries.len(),
{
    if entries.len() == 0 {
        assert(directory(entries).dom() =~= Set::<Seq<char>>::empty());
    } else {
        let front = entries.drop_last();
        let last = entries.last();
        assert(entries =~= front.push(last));
        assert(distinct_ids(front)) by {
            assert forall|i: int, j: int| 0 <= i < j < front.len() implies (#[trigger] front[i]).info.window_id
                != (#[trigger] front[j]).info.window_id by {
                assert(front[i] == entries[i] && front[j] == entries[j]);
            }
        }
        assert(!has_id(front, last.info.window_id)) by {
            if has_id(front, last.info.window_id) {
                let i = index_of(front, last.info.window_id);
                assert(front[i] == entries[i]);
                assert(entries[i].info.window_id != entries[entries.len() - 1].info.window_id);
            }
        }
        lemma_directory_len(front);
        lemma_directory_push(front, last);
        assert(directory(entries).dom() =~= directory(front).dom().insert(last.info.window_id));
    }
}

/// Whether `after` is `before` with one more text offered to its queue, and
/// nothing else changed.
pub open spec fn offered_once(before: RecordView, after: RecordView, text: Seq<char>) -> bool {
    &&& after.info == before.info
    &&& after.sender == before.sender
    &&& after.state == before.state
    &&& after.outbox.len() == before.outbox.len() + 1
    &&& after.outbox.drop_last() == before.outbox
    &&& after.outbox.last().text == text
}

/// Two lists with the same ids in the same places stand for directories with
/// the same ids, each found at the same place.
proof fn lemma_directory_same_ids(before: Seq<RecordView>, after: Seq<RecordView>)
    requires
        distinct_ids(before),
        after.len() == before.len(),
        forall|i: int|
            0 <= i < before.len() ==> (#[trigger] after[i]).info.window_id
                == before[i].info.window_id,
    ensures
        distinct_ids(after),
        directory(after).dom() == directory(before).dom(),
        forall|id: Seq<char>| #[trigger]
            has_id(before, id) ==> index_of(after, id) == index_of(before, id),
{
    assert(distinct_ids(after)) by {
        assert forall|i: int, j: int| 0 <= i < j < after.len() implies (#[trigger] after[i]).info.window_id
            != (#[trigger] after[j]).info.window_id by {
            assert(before[i].info.window_id != before[j].info.window_id);
        }
    }
    assert forall|id: Seq<char>| has_id(after, id) <==> has_id(before, id) by {
        if has_id(before, id) {
            let i = index_of(before, id);
            assert(after[i].info.window_id == id);
        }
        if has_id(after, id) {
            let i = index_of(after, id);
            assert(before[i].info.window_id == id);
        }
    }
    assert(directory(after).dom() =~= directory(before).dom());
    assert forall|id: Seq<char>| #[trigger] has_id(before, id) implies index_of(after, id)
        == index_of(before, id) by {
        let i = index_of(before, id);
        assert(after[i].info.window_id == id);
        lemma_directory_at(after, i);
    }
}

/// One line of a listing: session id, workspace label, status last reported.
pub type Line = (Seq<char>, Seq<char>, Option<AntigravityStateView>);

/// Whether `listing` names every session of `sessions` exactly once, each
/// with its label and its status.
pub open spec fn lists(listing: Seq<Line>, sessions: Map<Seq<char>, RecordView>) -> bool {
    &&& forall|i: int, j: int|
        0 <= i < j < listing.len() ==> (#[trigger] listing[i]).0 != (#[trigger] listing[j]).0
    &&& forall|i: int|
        0 <= i < listing.len() ==> {
            let line = #[trigger] listing[i];
            &&& sessions.contains_key(line.0)
            &&& line.1 == sessions[line.0].info.workspace_name
            &&& line.2 == sessions[line.0].state
        }
    &&& forall|id: Seq<char>| #[trigger]
        sessions.contains_key(id) ==> exists|i: int|
            0 <= i < listing.len() && (#[trigger] listing[i]).0 == id
}

/// The value of one line of a listing.
pub open spec fn line_view(line: (String, String, Option<AntigravityState>)) -> Line {
    (line.0@, line.1@, state_view(line.2))
}

/// The directory of live sessions. Registering an id that is present
/// replaces its record, so no id is ever held twice.
pub struct Registry {
    sessions: Vec<ConnectedExtension>,
}

impl View for Registry {
    type V = Map<Seq<char>, RecordView>;

    closed spec fn view(&self) -> Map<Seq<char>, RecordView> {
        directory(self.entries())
    }
}

impl Registry {
    /// The records in the order in which the directory keeps them.
    spec fn entries(&self) -> Seq<RecordView> {
        self.sessions@.map_values(|r: ConnectedExtension| r@)
    }

    #[verifier::type_invariant]
    spec fn well_formed(&self) -> bool {
        distinct_ids(self.entries())
    }

    /// An empty directory.
    pub fn new() -> (r: Registry)
        ensures
            r@ == Map::<Seq<char>, RecordView>::empty(),
    {
        let r = Registry { sessions: Vec::new() };
        assert(r@ =~= Map::<Seq<char>, RecordView>::empty());
        r
    }

    /// Where the record of `id` stands, if there is one.
    fn position(&self, id: &str) -> (r: Option<usize>)
        ensures
            match r {
                Some(i) => i < self.entries().len() && self.entries()[i as int].info.window_id
                    == id@,
                None => !has_id(self.entries(), id@),
            },
            r.is_some() == self@.contains_key(id@),
    {
        let mut i: usize = 0;
        while i < self.sessions.len()
            invariant
                i <= self.sessions.len(),
                forall|j: int| 0 <= j < i ==> (#[trigger] self.entries()[j]).info.window_id != id@,
            decreases self.sessions.len() - i,
        {
            if text_is(&self.sessions[i].info.window_id, id) {
                assert(self.entries()[i as int].info.window_id == id@);
                return Some(i);
            }
            i += 1;
        }
        None
    }

    /// Whether a session is registered under `id`.
    pub fn contains(&self, id: &str) -> (r: bool)
        ensures
            r == self@.contains_key(id@),
    {
        self.position(id).is_some()
    }

    /// The record of the session `id`, if it is registered.
    pub fn get(&self, id: &str) -> (r: Option<&ConnectedExtension>)
        ensures
            match r {
                Some(record) => self@.contains_key(id@) && self@[id@] == record@,
                None => !self@.contains_key(id@),
            },
    {
        proof {
            use_type_invariant(self);
        }
        match self.position(id) {
            Some(i) => {
                proof {
                    lemma_directory_at(self.entries(), i as int);
                }
                Some(&self.sessions[i])
            },
            None => None,
        }
    }

    /// Enters a session under the id that `info` names. A record already
    /// held under that id is replaced; every other record stays as it is.
    pub fn register(&mut self, info: ExtensionInfo, sender: UnboundedSender<String>)
        ensures
            final(self)@ == old(self)@.insert(info@.window_id, fresh_record(info@, sender)),
    {
        proof {
            use_type_invariant(&*self);
        }
        let found = self.position(info.window_id.as_str());
        let record = ConnectedExtension::new(info, sender);
        let ghost before = self.entries();
        let mut sessions: Vec<ConnectedExtension> = Vec::new();
        core::mem::swap(&mut self.sessions, &mut sessions);
        match found {
            Some(i) => {
                proof {
                    lemma_directory_update(before, i as int, record@);
                }
                sessions[i] = record;
                assert(sessions@.map_values(|r: ConnectedExtension| r@) =~= before.update(
                    i as int,
                    record@,
                ));
            },
            None => {
                proof {
                    lemma_directory_push(before, record@);
                }
                sessions.push(record);
                assert(sessions@.map_values(|r: ConnectedExtension| r@) =~= before.push(record@));
            },
        }
        self.sessions = sessions;
    }

    /// The number of sessions registered.
    pub fn len(&self) -> (r: usize)
        ensures
            self@.dom().finite(),
            r == self@.dom().len(),
    {
        proof {
            use_type_invariant(self);
            lemma_directory_len(self.entries());
        }
        self.sessions.len()
    }

    /// Stores a status report for the session `id` in place of the one
    /// before, and tells whether the session was registered. For an id that
    /// is not registered nothing changes: no record is made.
    pub fn update_state(&mut self, id: &str, state: AntigravityState) -> (r: bool)
        ensures
            r == old(self)@.contains_key(id@),
            r ==> final(self)@ == old(self)@.insert(
                id@,
                RecordView { state: Some(state@), ..old(self)@[id@] },
            ),
            !r ==> final(self)@ == old(self)@,
    {
        proof {
            use_type_invariant(&*self);
        }
        match self.position(id) {
            Some(i) => {
                let ghost before = self.entries();
                let ghost record = RecordView { state: Some(state@), ..before[i as int] };
                proof {
                    lemma_directory_at(before, i as int);
                    lemma_directory_update(before, i as int, record);
                }
                let mut sessions: Vec<ConnectedExtension> = Vec::new();
                core::mem::swap(&mut self.sessions, &mut sessions);
                sessions[i].last_state = Some(state);
                assert(sessions@.map_values(|r: ConnectedExtension| r@) =~= before.update(
                    i as int,
                    record,
                ));
                self.sessions = sessions;
                true
            },
            None => false,
        }
    }

    /// Takes the session `id` out of the directory. Removing an id that is
    /// not registered changes nothing.
    pub fn remove(&mut self, id: &str)
        ensures
            final(self)@ == old(self)@.remove(id@),
    {
        proof {
            use_type_invariant(&*self);
        }
        match self.position(id) {
            Some(i) => {
                let ghost before = self.entries();
                proof {
                    lemma_directory_remove(before, i as int);
                }
                let mut sessions: Vec<ConnectedExtension> = Vec::new();
                core::mem::swap(&mut self.sessions, &mut sessions);
                sessions.remove(i);
                assert(sessions@.map_values(|r: ConnectedExtension| r@) =~= before.remove(i as int));
                self.sessions = sessions;
            },
            None => {
                assert(self@ =~= self@.remove(id@));
            },
        }
    }

    /// Offers `text` to the outbound queue of the session `id`. `None` where
    /// no such session is registered; otherwise whether the queue took the
    /// text. No other record changes.
    pub fn deliver(&mut self, id: &str, text: String) -> (r: Option<bool>)
        ensures
            r.is_some() == old(self)@.contains_key(id@),
            match r {
                Some(accepted) => final(self)@ == old(self)@.insert(
                    id@,
                    with_delivery(old(self)@[id@], text@, accepted),
                ),
                None => final(self)@ == old(self)@,
            },
    {
        proof {
            use_type_invariant(&*self);
        }
        match self.position(id) {
            Some(i) => {
                let ghost before = self.entries();
                proof {
                    lemma_directory_at(before, i as int);
                }
                let mut sessions: Vec<ConnectedExtension> = Vec::new();
                core::mem::swap(&mut self.sessions, &mut sessions);
                let accepted = sessions[i].deliver(text);
                proof {
                    lemma_directory_update(before, i as int, sessions[i as int]@);
                    assert(sessions@.map_values(|r: ConnectedExtension| r@) =~= before.update(
                        i as int,
                        sessions[i as int]@,
                    ));
                }
                self.sessions = sessions;
                Some(accepted)
            },
            None => None,
        }
    }

    /// Offers `text` once to the outbound queue of every session. A queue
    /// that refuses it does not keep the others from getting it.
    pub fn deliver_all(&mut self, text: &str)
        ensures
            final(self)@.dom() == old(self)@.dom(),
            forall|id: Seq<char>| #[trigger]
                old(self)@.contains_key(id) ==> offered_once(
                    old(self)@[id],
                    final(self)@[id],
                    text@,
                ),
    {
        proof {
            use_type_invariant(&*self);
        }
        let ghost before = self.entries();
        let mut sessions: Vec<ConnectedExtension> = Vec::new();
        core::mem::swap(&mut self.sessions, &mut sessions);
        let mut i: usize = 0;
        while i < sessions.len()
            invariant
                i <= sessions.len(),
                sessions@.len() == before.len(),
                forall|j: int| 0 <= j < i ==> offered_once(before[j], (#[trigger] sessions@[j])@, text@),
                forall|j: int| i <= j < sessions@.len() ==> (#[trigger] sessions@[j])@ == before[j],
            decreases sessions.len() - i,
        {
            let ghost prior = sessions@;
            let _ = sessions[i].deliver(text.to_owned());
            proof {
                let record = sessions@[i as int]@;
                assert(record.outbox.drop_last() =~= before[i as int].outbox);
                assert(offered_once(before[i as int], record, text@));
                assert forall|j: int| 0 <= j < i implies offered_once(
                    before[j],
                    (#[trigger] sessions@[j])@,
                    text@,
                ) by {
                    assert(sessions@[j] == prior[j]);
                }
            }
            i += 1;
        }
        let ghost after = sessions@.map_values(|r: ConnectedExtension| r@);
        proof {
            assert forall|j: int| 0 <= j < before.len() implies (#[trigger] after[j]).info.window_id
                == before[j].info.window_id by {
                assert(offered_once(before[j], sessions@[j]@, text@));
            }
            lemma_directory_same_ids(before, after);
            assert forall|id: Seq<char>| #[trigger] directory(before).contains_key(id) implies offered_once(
                directory(before)[id],
                directory(after)[id],
                text@,
            ) by {
                assert(has_id(before, id));
                let j = index_of(before, id);
                assert(offered_once(before[j], sessions@[j]@, text@));
            }
        }
        self.sessions = sessions;
    }

    /// Every session with its workspace label and the status it last
    /// reported, in the order in which the directory keeps them.
    pub fn snapshot(&self) -> (r: Vec<(String, String, Option<AntigravityState>)>)
        ensures
            self@.dom().finite(),
            r@.len() == self@.dom().len(),
            lists(r@.map_values(|line| line_view(line)), self@),
    {
        proof {
            use_type_invariant(self);
            lemma_directory_len(self.entries());
        }
        let mut out: Vec<(String, String, Option<AntigravityState>)> = Vec::new();
        let mut i: usize = 0;
        while i < self.sessions.len()
            invariant
                i <= self.sessions.len(),
                out@.len() == i,
                forall|j: int|
                    0 <= j < i ==> {
                        let line = line_view(#[trigger] out@[j]);
                        &&& line.0 == self.entries()[j].info.window_id
                        &&& line.1 == self.entries()[j].info.workspace_name
                        &&& line.2 == self.entries()[j].state
                    },
            decreases self.sessions.len() - i,
        {
            let record = &self.sessions[i];
            let state = match &record.last_state {
                Some(s) => Some(s.duplicate()),
                None => None,
            };
            assert(self.entries()[i as int] == record@);
            out.push((record.info.window_id.clone(), record.info.workspace_name.clone(), state));
            i += 1;
        }
        proof {
            let entries = self.entries();
            let listing = out@.map_values(|line| line_view(line));
            assert forall|a: int, b: int| 0 <= a < b < listing.len() implies (#[trigger] listing[a]).0
                != (#[trigger] listing[b]).0 by {
                assert(entries[a].info.window_id != entries[b].info.window_id);
            }
            assert forall|a: int| 0 <= a < listing.len() implies {
                let line = #[trigger] listing[a];
                &&& self@.contains_key(line.0)
                &&& line.1 == self@[line.0].info.workspace_name
                &&& line.2 == self@[line.0].state
            } by {
                lemma_directory_at(entries, a);
            }
            assert forall|id: Seq<char>| #[trigger] self@.contains_key(id) implies exists|a: int|
                0 <= a < listing.len() && (#[trigger] listing[a]).0 == id by {
                let a = index_of(entries, id);
                assert(listing[a].0 == id);
            }
        }
        out
    }
}

} // verus!
