//! The table of requests that wait for an answer: one single-use sender for
//! each correlation identifier.

use tokio::sync::oneshot::{Receiver, Sender};
use vstd::prelude::*;

verus! {

/// `tokio::sync::oneshot::Sender`, the end of a one-shot channel on which
/// the single value is sent.
#[verifier::external_type_specification]
#[verifier::external_body]
#[verifier::reject_recursive_types(T)]
pub struct ExSender<T>(tokio::sync::oneshot::Sender<T>);

/// `tokio::sync::oneshot::Receiver`, the end of a one-shot channel on which
/// the single value arrives.
#[verifier::external_type_specification]
#[verifier::external_body]
#[verifier::reject_recursive_types(T)]
pub struct ExReceiver<T>(tokio::sync::oneshot::Receiver<T>);

/// `tokio::sync::oneshot::error::RecvError`, what awaiting a receiver yields
/// when the sender was dropped without sending. The receiver cannot be
/// declared without it.
#[verifier::external_type_specification]
#[verifier::external_body]
pub struct ExRecvError(tokio::sync::oneshot::error::RecvError);

/// `tokio::sync::oneshot::channel` makes the two ends of a fresh channel.
/// Nothing is claimed of them.
pub assume_specification<T>[ tokio::sync::oneshot::channel::<T> ]() -> (ends: (
    tokio::sync::oneshot::Sender<T>,
    tokio::sync::oneshot::Receiver<T>,
));

/// `tokio::sync::oneshot::Sender::send` never waits. When the receiving end
/// is gone the value could not be sent, and the very same value comes back.
pub assume_specification<T>[ tokio::sync::oneshot::Sender::<T>::send ](
    sender: tokio::sync::oneshot::Sender<T>,
    value: T,
) -> (r: Result<(), T>)
    ensures
        r matches Err(returned) ==> returned == value,
;

/// One waiting request.
#[derive(Debug)]
struct PendingEntry {
    id: String,
    sender: Sender<String>,
}

/// The identifiers of the entries, in storage order.
spec fn ids(entries: Seq<PendingEntry>) -> Seq<Seq<char>> {
    entries.map_values(|e: PendingEntry| e.id@)
}

/// The mapping that a list of entries with distinct identifiers stands for.
spec fn table_of(entries: Seq<PendingEntry>) -> Map<Seq<char>, Sender<String>> {
    Map::new(
        |id: Seq<char>| ids(entries).contains(id),
        |id: Seq<char>| entries[ids(entries).index_of(id)].sender,
    )
}

proof fn lemma_entry_in_table(entries: Seq<PendingEntry>, i: int)
    requires
        ids(entries).no_duplicates(),
        0 <= i < entries.len(),
    ensures
        table_of(entries).contains_key(entries[i].id@),
        table_of(entries)[entries[i].id@] == entries[i].sender,
{
    let id = entries[i].id@;
    assert(ids(entries)[i] == id);
    let j = ids(entries).index_of(id);
    assert(ids(entries)[j] == id);
}

proof fn lemma_table_push(entries: Seq<PendingEntry>, entry: PendingEntry)
    requires
        ids(entries).no_duplicates(),
        !ids(entries).contains(entry.id@),
    ensures
        ids(entries.push(entry)).no_duplicates(),
        table_of(entries.push(entry)) == table_of(entries).insert(entry.id@, entry.sender),
{
    let after = entries.push(entry);
    assert(ids(after) =~= ids(entries).push(entry.id@));
    assert forall|i: int, j: int| 0 <= i < after.len() && 0 <= j < after.len() && i != j
        implies ids(after)[i] != ids(after)[j] by {
        if i < entries.len() {
            assert(ids(entries)[i] == ids(after)[i]);
        }
        if j < entries.len() {
            assert(ids(entries)[j] == ids(after)[j]);
        }
    }
    assert forall|id: Seq<char>| #[trigger]
        table_of(after).contains_key(id) <==> table_of(entries).insert(
            entry.id@,
            entry.sender,
        ).contains_key(id) by {
        if ids(entries).contains(id) {
            let i = ids(entries).index_of(id);
            assert(ids(after)[i] == id);
        }
        if id == entry.id@ {
            assert(ids(after)[entries.len() as int] == id);
        }
        if ids(after).contains(id) {
            let i = ids(after).index_of(id);
            if i < entries.len() {
                assert(ids(entries)[i] == id);
            }
        }
    }
    assert forall|id: Seq<char>| #[trigger] table_of(after).contains_key(id) implies table_of(
        after,
    )[id] == table_of(entries).insert(entry.id@, entry.sender)[id] by {
        let i = ids(after).index_of(id);
        assert(ids(after)[i] == id);
        lemma_entry_in_table(after, i);
        if i < entries.len() {
            assert(ids(entries)[i] == id);
            lemma_entry_in_table(entries, i);
        }
    }
    assert(table_of(after) =~= table_of(entries).insert(entry.id@, entry.sender));
}

proof fn lemma_table_remove(entries: Seq<PendingEntry>, i: int)
    requires
        ids(entries).no_duplicates(),
        0 <= i < entries.len(),
    ensures
        ids(entries.remove(i)).no_duplicates(),
        table_of(entries.remove(i)) == table_of(entries).remove(entries[i].id@),
{
    let after = entries.remove(i);
    let gone = entries[i].id@;
    assert(ids(after) =~= ids(entries).remove(i));
    assert forall|a: int, b: int| 0 <= a < after.len() && 0 <= b < after.len() && a != b
        implies ids(after)[a] != ids(after)[b] by {
        let a0 = if a < i { a } else { a + 1 };
        let b0 = if b < i { b } else { b + 1 };
        assert(ids(after)[a] == ids(entries)[a0]);
        assert(ids(after)[b] == ids(entries)[b0]);
    }
    assert forall|id: Seq<char>| #[trigger]
        table_of(after).contains_key(id) <==> table_of(entries).remove(gone).contains_key(
            id,
        ) by {
        if ids(after).contains(id) {
            let a = ids(after).index_of(id);
            let a0 = if a < i { a } else { a + 1 };
            assert(ids(entries)[a0] == id);
            assert(ids(entries)[i] == gone);
        }
        if ids(entries).contains(id) && id != gone {
            let k = ids(entries).index_of(id);
            assert(ids(entries)[i] == gone);
            let a = if k < i { k } else { k - 1 };
            assert(ids(after)[a] == id);
        }
    }
    assert forall|id: Seq<char>| #[trigger] table_of(after).contains_key(id) implies table_of(
        after,
    )[id] == table_of(entries).remove(gone)[id] by {
        let a = ids(after).index_of(id);
        assert(ids(after)[a] == id);
        lemma_entry_in_table(after, a);
        let a0 = if a < i { a } else { a + 1 };
        assert(ids(entries)[a0] == id);
        lemma_entry_in_table(entries, a0);
    }
    assert(table_of(after) =~= table_of(entries).remove(gone));
}

proof fn lemma_table_size(entries: Seq<PendingEntry>)
    requires
        ids(entries).no_duplicates(),
    ensures
        table_of(entries).dom().finite(),
        table_of(entries).dom().len() == entries.len(),
{
    ids(entries).unique_seq_to_set();
    vstd::seq_lib::seq_to_set_is_finite(ids(entries));
    assert(table_of(entries).dom() =~= ids(entries).to_set());
}

/// What became of a payload handed to [`PendingRequests::resolve`].
#[derive(Debug, Clone, PartialEq, Eq)]
pub enum Resolution {
    /// Nobody waits under that identifier: nothing was done.
    NoEntry,
    /// The entry was removed and its channel took the payload.
    Sent,
    /// The entry was removed, but its receiver had already gone away: the
    /// payload comes back undelivered.
    ReceiverGone(String),
}

/// The table of pending requests. It stands for a finite mapping from
/// correlation identifiers to the sender that answers each; no identifier is
/// held twice.
#[derive(Debug)]
pub struct PendingRequests {
    entries: Vec<PendingEntry>,
}

impl View for PendingRequests {
    type V = Map<Seq<char>, Sender<String>>;

    closed spec fn view(&self) -> Map<Seq<char>, Sender<String>> {
        table_of(self.entries@)
    }
}

impl Default for PendingRequests {
    fn default() -> (table: PendingRequests)
        ensures
            table.wf(),
            table@ == Map::<Seq<char>, Sender<String>>::empty(),
    {
        PendingRequests::new()
    }
}

impl PendingRequests {
    /// The invariant of the table: no identifier is held twice. Every
    /// table that this module hands out satisfies it.
    pub closed spec fn wf(&self) -> bool {
        ids(self.entries@).no_duplicates()
    }

    /// An empty table.
    pub fn new() -> (table: PendingRequests)
        ensures
            table.wf(),
            table@ == Map::<Seq<char>, Sender<String>>::empty(),
    {
        let table = PendingRequests { entries: Vec::new() };
        assert(table@ =~= Map::<Seq<char>, Sender<String>>::empty());
        table
    }

    fn find(&self, id: &str) -> (at: Option<usize>)
        ensures
            match at {
                Some(i) => i < self.entries@.len() && self.entries@[i as int].id@ == id@,
                None => !ids(self.entries@).contains(id@),
            },
    {
        let wanted = id.to_owned();
        let mut i: usize = 0;
        while i < self.entries.len()
            invariant
                i <= self.entries@.len(),
                wanted@ == id@,
                forall|j: int| 0 <= j < i ==> ids(self.entries@)[j] != id@,
            decreases self.entries@.len() - i,
        {
            if self.entries[i].id == wanted {
                return Some(i);
            }
            i += 1;
        }
        None
    }

    /// How many requests wait.
    pub fn len(&self) -> (n: usize)
        requires
            self.wf(),
        ensures
            self@.dom().finite(),
            n == self@.dom().len(),
    {
        proof {
            lemma_table_size(self.entries@);
        }
        self.entries.len()
    }

    /// Whether a request waits under `id`.
    pub fn contains(&self, id: &str) -> (held: bool)
        ensures
            held == self@.contains_key(id@),
    {
        match self.find(id) {
            Some(i) => {
                assert(ids(self.entries@)[i as int] == id@);
                true
            },
            None => false,
        }
    }

    /// Removes the entry under `id`, if there is one, and hands out its
    /// sender. Every other entry stays as it is.
    pub fn take(&mut self, id: &str) -> (sender: Option<Sender<String>>)
        requires
            old(self).wf(),
        ensures
            final(self).wf(),
            final(self)@ == old(self)@.remove(id@),
            sender == old(self)@.get(id@),
    {
        match self.find(id) {
            Some(i) => {
                proof {
                    lemma_entry_in_table(self.entries@, i as int);
                    lemma_table_remove(self.entries@, i as int);
                }
                let entry = self.entries.remove(i);
                Some(entry.sender)
            },
            None => {
                assert(self@.remove(id@) =~= self@);
                None
            },
        }
    }

    /// Stores `sender` under `id`. An entry that was there under the same
    /// identifier is replaced, and its sender is handed back.
    pub fn insert(&mut self, id: String, sender: Sender<String>) -> (displaced: Option<
        Sender<String>,
    >)
        requires
            old(self).wf(),
        ensures
            final(self).wf(),
            final(self)@ == old(self)@.insert(id@, sender),
            displaced == old(self)@.get(id@),
    {
        let displaced = self.take(id.as_str());
        proof {
            assert(!self@.contains_key(id@));
            assert(!ids(self.entries@).contains(id@));
        }
        let entry = PendingEntry { id, sender };
        proof {
            lemma_table_push(self.entries@, entry);
        }
        self.entries.push(entry);
        assert(self@ =~= old(self)@.insert(id@, sender));
        displaced
    }

    /// Opens a fresh one-shot channel, stores its sender under `id` and hands
    /// out the receiver. Every entry under another identifier stays as it is.
    pub fn register(&mut self, id: String) -> (receiver: Receiver<String>)
        requires
            old(self).wf(),
        ensures
            final(self).wf(),
            exists|sender: Sender<String>| final(self)@ == old(self)@.insert(id@, sender),
    {
        let (sender, receiver) = tokio::sync::oneshot::channel::<String>();
        let _ = self.insert(id, sender);
        receiver
    }

    /// Answers the request that waits under `id`: its entry is removed and
    /// `payload` is sent to it. Where nobody waits under `id` nothing happens.
    pub fn resolve(&mut self, id: &str, payload: String) -> (outcome: Resolution)
        requires
            old(self).wf(),
        ensures
            final(self).wf(),
            final(self)@ == old(self)@.remove(id@),
            !old(self)@.contains_key(id@) ==> final(self)@ == old(self)@,
            outcome is NoEntry <==> !old(self)@.contains_key(id@),
            outcome matches Resolution::ReceiverGone(returned) ==> returned@ == payload@,
    {
        match self.take(id) {
            Some(sender) => match sender.send(payload) {
                Ok(()) => Resolution::Sent,
                Err(returned) => Resolution::ReceiverGone(returned),
            },
            None => {
                assert(old(self)@.remove(id@) =~= old(self)@);
                Resolution::NoEntry
            },
        }
    }
}

/// Registering or answering one identifier leaves every request that waits
/// under another identifier as it was.
pub proof fn lemma_other_requests_untouched(
    table: Map<Seq<char>, Sender<String>>,
    id: Seq<char>,
    sender: Sender<String>,
    other: Seq<char>,
)
    requires
        other != id,
    ensures
        table.insert(id, sender).get(other) == table.get(other),
        table.remove(id).get(other) == table.get(other),
{
}

/// Registering under an identifier that nobody waits under overwrites
/// nothing: every earlier entry is still there, with the sender it had.
pub proof fn lemma_new_identifier_overwrites_nothing(
    table: Map<Seq<char>, Sender<String>>,
    id: Seq<char>,
    sender: Sender<String>,
)
    requires
        !table.contains_key(id),
    ensures
        forall|other: Seq<char>| #[trigger]
            table.contains_key(other) ==> table.insert(id, sender).get(other) == table.get(other),
        table.insert(id, sender).remove(id) == table,
{
    assert(table.insert(id, sender).remove(id) =~= table);
}

/// Requests under different identifiers never cross. Whatever the table
/// held before and in whichever order the two were registered, each
/// identifier leads to the sender registered under it, and answering one of
/// them leaves the other waiting with its own sender.
pub proof fn lemma_answers_do_not_cross(
    table: Map<Seq<char>, Sender<String>>,
    a: Seq<char>,
    sender_a: Sender<String>,
    b: Seq<char>,
    sender_b: Sender<String>,
)
    requires
        a != b,
    ensures
        table.insert(a, sender_a).insert(b, sender_b) == table.insert(b, sender_b).insert(
            a,
            sender_a,
        ),
        table.insert(a, sender_a).insert(b, sender_b).get(a) == Some(sender_a),
        table.insert(a, sender_a).insert(b, sender_b).get(b) == Some(sender_b),
        table.insert(a, sender_a).insert(b, sender_b).remove(a).get(b) == Some(sender_b),
        table.insert(a, sender_a).insert(b, sender_b).remove(b).get(a) == Some(sender_a),
        table.insert(a, sender_a).insert(b, sender_b).remove(a).remove(b) == table.remove(
            a,
        ).remove(b),
{
    assert(table.insert(a, sender_a).insert(b, sender_b) =~= table.insert(b, sender_b).insert(
        a,
        sender_a,
    ));
    assert(table.insert(a, sender_a).insert(b, sender_b).remove(a).remove(b) =~= table.remove(
        a,
    ).remove(b));
}

/// An identifier is answered once. After its entry was taken nobody waits
/// under it, so a second answer finds no entry and changes nothing.
pub proof fn lemma_second_answer_finds_nothing(table: Map<Seq<char>, Sender<String>>, id: Seq<char>)
    ensures
        !table.remove(id).contains_key(id),
        table.remove(id).get(id) == None::<Sender<String>>,
        table.remove(id).remove(id) == table.remove(id),
{
    assert(table.remove(id).remove(id) =~= table.remove(id));
}

/// Answering an identifier under which nobody waits changes nothing.
pub proof fn lemma_unknown_answer_changes_nothing(
    table: Map<Seq<char>, Sender<String>>,
    id: Seq<char>,
)
    requires
        !table.contains_key(id),
    ensures
        table.remove(id) == table,
        table.get(id) == None::<Sender<String>>,
{
    assert(table.remove(id) =~= table);
}

} // verus!
