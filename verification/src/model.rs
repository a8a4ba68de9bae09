//! What the ledger holds, as mathematical values, and the laws of its
//! append-only note threads.

use vstd::prelude::*;

use crate::identity::{bytes_lt, identity_lt};

verus! {

/// The fee configuration: who administers it, what storing a key and storing
/// a note cost, in which currency, and whether fees are burnt.
pub struct FeesView {
    pub admin: Option<Seq<char>>,
    pub store_keys: u128,
    pub store_notes: u128,
    pub denom: Seq<char>,
    pub burn_fees: bool,
}

/// A note: who sent it, its payload and when it was stored.
pub struct NoteView {
    pub sender: Seq<char>,
    pub note: Seq<u8>,
    pub timestamp: u64,
}

/// One note stored in the thread from `sender` to `recipient`.
pub struct StoreOp {
    pub recipient: Seq<char>,
    pub sender: Seq<char>,
    pub note: NoteView,
}

/// The records of a ledger.
///
/// `threads` maps (recipient, sender) to the number of notes of that thread;
/// `notes` maps (recipient, sender, index) to the note stored under it.
#[verifier::ext_equal]
pub struct LedgerState {
    pub fees: Option<FeesView>,
    pub keys: Map<Seq<char>, Seq<u8>>,
    pub threads: Map<(Seq<char>, Seq<char>), u64>,
    pub notes: Map<(Seq<char>, Seq<char>, u64), NoteView>,
}

/// The first index of a page of notes.
pub open spec fn page_start(start_after: Option<u64>) -> int {
    match start_after {
        Some(start) => start as int,
        None => 0,
    }
}

/// The index at which a page of notes ends: `limit` notes after its start,
/// and never beyond the `count` notes of the thread.
pub open spec fn page_end(count: u64, start_after: Option<u64>, limit: Option<u32>) -> int {
    match limit {
        Some(l) => if page_start(start_after) + l < count {
            page_start(start_after) + l
        } else {
            count as int
        },
        None => count as int,
    }
}

impl LedgerState {
    /// The ledger without any record.
    pub open spec fn empty() -> LedgerState {
        LedgerState { fees: None, keys: Map::empty(), threads: Map::empty(), notes: Map::empty() }
    }

    /// The ledger with its fee configuration replaced.
    pub open spec fn with_fees(self, fees: FeesView) -> LedgerState {
        LedgerState { fees: Some(fees), ..self }
    }

    /// The ledger with the encryption key of `identity` set to `key`.
    pub open spec fn with_key(self, identity: Seq<char>, key: Seq<u8>) -> LedgerState {
        LedgerState { keys: self.keys.insert(identity, key), ..self }
    }

    /// The encryption key of `identity`, if it has stored one.
    pub open spec fn key_of(self, identity: Seq<char>) -> Option<Seq<u8>> {
        if self.keys.contains_key(identity) {
            Some(self.keys[identity])
        } else {
            None
        }
    }

    /// Whether `caller` may replace the fee configuration.
    pub open spec fn administered_by(self, caller: Seq<char>) -> bool {
        self.fees matches Some(fees) && fees.admin == Some(caller)
    }

    /// Whether a thread from `sender` to `recipient` exists.
    pub open spec fn has_thread(self, recipient: Seq<char>, sender: Seq<char>) -> bool {
        self.threads.contains_key((recipient, sender))
    }

    /// The number of notes from `sender` to `recipient`: the next free index
    /// of their thread.
    pub open spec fn count(self, recipient: Seq<char>, sender: Seq<char>) -> u64 {
        if self.has_thread(recipient, sender) {
            self.threads[(recipient, sender)]
        } else {
            0
        }
    }

    /// The ledger with `count` recorded for the thread from `sender` to
    /// `recipient`.
    pub open spec fn with_count(
        self,
        recipient: Seq<char>,
        sender: Seq<char>,
        count: u64,
    ) -> LedgerState {
        LedgerState { threads: self.threads.insert((recipient, sender), count), ..self }
    }

    /// The ledger with `note` recorded under `index` of the thread from
    /// `sender` to `recipient`.
    pub open spec fn with_note_at(
        self,
        recipient: Seq<char>,
        sender: Seq<char>,
        index: u64,
        note: NoteView,
    ) -> LedgerState {
        LedgerState { notes: self.notes.insert((recipient, sender, index), note), ..self }
    }

    /// The ledger after `note` is appended to the thread from `sender` to
    /// `recipient`: it takes the next free index, and the count grows by one.
    pub open spec fn with_note(
        self,
        recipient: Seq<char>,
        sender: Seq<char>,
        note: NoteView,
    ) -> LedgerState {
        let index = self.count(recipient, sender);
        self.with_count(recipient, sender, (index + 1) as u64).with_note_at(
            recipient,
            sender,
            index,
            note,
        )
    }

    /// Whether every index from `start` up to `end` of the thread holds a note.
    pub open spec fn page_complete(
        self,
        recipient: Seq<char>,
        sender: Seq<char>,
        start: int,
        end: int,
    ) -> bool {
        forall|i: u64|
            start <= i < end ==> #[trigger] self.notes.contains_key((recipient, sender, i))
    }

    /// The notes of the thread under the indices from `start` up to `end`, in
    /// ascending order.
    pub open spec fn page(
        self,
        recipient: Seq<char>,
        sender: Seq<char>,
        start: int,
        end: int,
    ) -> Seq<NoteView> {
        if start < end {
            Seq::new(
                (end - start) as nat,
                |i: int| self.notes[(recipient, sender, (start + i) as u64)],
            )
        } else {
            Seq::empty()
        }
    }

    /// All notes from `sender` to `recipient`, in the order they were stored.
    pub open spec fn thread_notes(self, recipient: Seq<char>, sender: Seq<char>) -> Seq<NoteView> {
        self.page(recipient, sender, 0, self.count(recipient, sender) as int)
    }

    /// The identities that have a thread to `recipient`.
    pub open spec fn senders(self, recipient: Seq<char>) -> Set<Seq<char>> {
        Set::new(|sender: Seq<char>| self.has_thread(recipient, sender))
    }

    /// The invariant of the note threads: a thread exists only once it holds a
    /// note, and its notes stand under exactly the indices below its count.
    pub open spec fn consistent(self) -> bool {
        &&& forall|k: (Seq<char>, Seq<char>)| #[trigger]
            self.threads.contains_key(k) ==> self.threads[k] >= 1
        &&& forall|k: (Seq<char>, Seq<char>), i: u64|
            self.threads.contains_key(k) && i < self.threads[k]
                ==> #[trigger] self.notes.contains_key((k.0, k.1, i))
        &&& forall|n: (Seq<char>, Seq<char>, u64)| #[trigger]
            self.notes.contains_key(n) ==> self.threads.contains_key((n.0, n.1)) && n.2
                < self.threads[(n.0, n.1)]
    }

    /// Whether `after` keeps all that `self` holds: the fee configuration is
    /// still there, every key is still set, no thread has lost a note, and
    /// every note of a thread is as it was stored.
    pub open spec fn kept_by(self, after: LedgerState) -> bool {
        &&& self.fees is Some ==> after.fees is Some
        &&& forall|identity: Seq<char>| #[trigger]
            self.keys.contains_key(identity) ==> after.keys.contains_key(identity)
        &&& forall|k: (Seq<char>, Seq<char>)| #[trigger]
            self.threads.contains_key(k) ==> after.threads.contains_key(k) && self.threads[k]
                <= after.threads[k]
        &&& forall|n: (Seq<char>, Seq<char>, u64)| #[trigger]
            self.notes.contains_key(n) && n.2 < self.count(n.0, n.1) ==> after.notes.contains_key(
                n,
            ) && after.notes[n] == self.notes[n]
    }

    /// The ledger after the notes of `ops` are appended, first to last.
    pub open spec fn after_all(self, ops: Seq<StoreOp>) -> LedgerState
        decreases ops.len(),
    {
        if ops.len() == 0 {
            self
        } else {
            self.after_all(ops.drop_last()).with_note(
                ops.last().recipient,
                ops.last().sender,
                ops.last().note,
            )
        }
    }
}

/// Whether `names` lists the senders of `recipient`: each of them once, in
/// ascending order, and nobody else.
pub open spec fn is_sender_listing(
    state: LedgerState,
    recipient: Seq<char>,
    names: Seq<Seq<char>>,
) -> bool {
    &&& forall|i: int| 0 <= i < names.len() ==> state.has_thread(recipient, #[trigger] names[i])
    &&& forall|sender: Seq<char>| #[trigger]
        state.has_thread(recipient, sender) ==> names.contains(sender)
    &&& forall|i: int, j: int|
        0 <= i < j < names.len() ==> identity_lt(#[trigger] names[i], #[trigger] names[j])
}

/// The notes that `ops` append to the thread from `sender` to `recipient`, in
/// the order of `ops`.
pub open spec fn notes_for(ops: Seq<StoreOp>, recipient: Seq<char>, sender: Seq<char>) -> Seq<
    NoteView,
>
    decreases ops.len(),
{
    if ops.len() == 0 {
        Seq::empty()
    } else if ops.last().recipient == recipient && ops.last().sender == sender {
        notes_for(ops.drop_last(), recipient, sender).push(ops.last().note)
    } else {
        notes_for(ops.drop_last(), recipient, sender)
    }
}

/// Appending a note gives it the index that was the thread's count, raises
/// the count by one and leaves the thread's earlier notes in place.
pub proof fn law_append_extends_thread(
    state: LedgerState,
    recipient: Seq<char>,
    sender: Seq<char>,
    note: NoteView,
)
    requires
        state.count(recipient, sender) < u64::MAX,
    ensures
        state.with_note(recipient, sender, note).count(recipient, sender) == state.count(
            recipient,
            sender,
        ) + 1,
        state.with_note(recipient, sender, note).notes[(
            recipient,
            sender,
            state.count(recipient, sender),
        )] == note,
        state.with_note(recipient, sender, note).thread_notes(recipient, sender)
            == state.thread_notes(recipient, sender).push(note),
{
    let after = state.with_note(recipient, sender, note);
    assert(after.thread_notes(recipient, sender) =~= state.thread_notes(recipient, sender).push(
        note,
    ));
}

/// Appending a note to one thread changes neither the count nor the notes of
/// any other thread.
pub proof fn law_append_leaves_other_threads(
    state: LedgerState,
    recipient: Seq<char>,
    sender: Seq<char>,
    note: NoteView,
    other_recipient: Seq<char>,
    other_sender: Seq<char>,
)
    requires
        other_recipient != recipient || other_sender != sender,
    ensures
        state.with_note(recipient, sender, note).has_thread(other_recipient, other_sender)
            == state.has_thread(other_recipient, other_sender),
        state.with_note(recipient, sender, note).count(other_recipient, other_sender)
            == state.count(other_recipient, other_sender),
        state.with_note(recipient, sender, note).thread_notes(other_recipient, other_sender)
            == state.thread_notes(other_recipient, other_sender),
{
    let after = state.with_note(recipient, sender, note);
    assert(after.thread_notes(other_recipient, other_sender) =~= state.thread_notes(
        other_recipient,
        other_sender,
    ));
}

/// Appending a note keeps the threads consistent.
pub proof fn law_append_keeps_consistency(
    state: LedgerState,
    recipient: Seq<char>,
    sender: Seq<char>,
    note: NoteView,
)
    requires
        state.consistent(),
        state.count(recipient, sender) < u64::MAX,
    ensures
        state.with_note(recipient, sender, note).consistent(),
{
    let after = state.with_note(recipient, sender, note);
    let index = state.count(recipient, sender);
    assert forall|k: (Seq<char>, Seq<char>), i: u64|
        after.threads.contains_key(k) && i
            < after.threads[k] implies #[trigger] after.notes.contains_key((k.0, k.1, i)) by {
        if k == (recipient, sender) {
            if i < index {
                assert(state.threads.contains_key(k));
                assert(state.notes.contains_key((k.0, k.1, i)));
            }
        } else {
            assert(state.threads.contains_key(k));
            assert(state.notes.contains_key((k.0, k.1, i)));
        }
    }
    assert forall|n: (Seq<char>, Seq<char>, u64)| #[trigger]
        after.notes.contains_key(n) implies after.threads.contains_key((n.0, n.1)) && n.2
        < after.threads[(n.0, n.1)] by {
        if n != (recipient, sender, index) {
            assert(state.notes.contains_key(n));
        }
    }
}

/// In a consistent ledger the indices in use by a thread are exactly those
/// below its count: a contiguous range from 0, without gaps.
pub proof fn law_indices_are_contiguous(
    state: LedgerState,
    recipient: Seq<char>,
    sender: Seq<char>,
    index: u64,
)
    requires
        state.consistent(),
    ensures
        state.notes.contains_key((recipient, sender, index)) <==> index < state.count(
            recipient,
            sender,
        ),
{
    if state.notes.contains_key((recipient, sender, index)) {
        assert(state.threads.contains_key((recipient, sender)));
    }
    if index < state.count(recipient, sender) {
        assert(state.threads.contains_key((recipient, sender)));
        assert(state.notes.contains_key(((recipient, sender).0, (recipient, sender).1, index)));
    }
}

/// In a consistent ledger the senders of a recipient are exactly the
/// identities of which the recipient holds at least one note.
pub proof fn law_senders_hold_notes(state: LedgerState, recipient: Seq<char>, sender: Seq<char>)
    requires
        state.consistent(),
    ensures
        state.senders(recipient).contains(sender) <==> state.count(recipient, sender) >= 1,
        state.senders(recipient).contains(sender) <==> state.notes.contains_key(
            (recipient, sender, 0),
        ),
{
    law_indices_are_contiguous(state, recipient, sender, 0);
    if state.has_thread(recipient, sender) {
        assert(state.threads.contains_key((recipient, sender)));
    }
}

/// However the appends to different threads are interleaved, each thread
/// ends with its earlier notes followed by the notes appended to it, in
/// order, and with its count raised by their number.
pub proof fn law_threads_grow_independently(
    state: LedgerState,
    ops: Seq<StoreOp>,
    recipient: Seq<char>,
    sender: Seq<char>,
)
    requires
        state.count(recipient, sender) + notes_for(ops, recipient, sender).len() <= u64::MAX,
    ensures
        state.after_all(ops).count(recipient, sender) == state.count(recipient, sender)
            + notes_for(ops, recipient, sender).len(),
        state.after_all(ops).thread_notes(recipient, sender) == state.thread_notes(
            recipient,
            sender,
        ) + notes_for(ops, recipient, sender),
    decreases ops.len(),
{
    if ops.len() == 0 {
        assert(state.thread_notes(recipient, sender) + Seq::<NoteView>::empty()
            =~= state.thread_notes(recipient, sender));
    } else {
        let before = state.after_all(ops.drop_last());
        let op = ops.last();
        law_threads_grow_independently(state, ops.drop_last(), recipient, sender);
        if op.recipient == recipient && op.sender == sender {
            law_append_extends_thread(before, recipient, sender, op.note);
            assert(state.thread_notes(recipient, sender) + notes_for(
                ops.drop_last(),
                recipient,
                sender,
            ).push(op.note) =~= (state.thread_notes(recipient, sender) + notes_for(
                ops.drop_last(),
                recipient,
                sender,
            )).push(op.note));
        } else {
            law_append_leaves_other_threads(
                before,
                op.recipient,
                op.sender,
                op.note,
                recipient,
                sender,
            );
        }
    }
}

/// After any number of appends to an empty ledger, a thread counts exactly
/// the notes appended to it and lists them in the order they were appended.
pub proof fn law_count_matches_appends(ops: Seq<StoreOp>, recipient: Seq<char>, sender: Seq<char>)
    requires
        ops.len() <= u64::MAX,
    ensures
        LedgerState::empty().after_all(ops).count(recipient, sender) == notes_for(
            ops,
            recipient,
            sender,
        ).len(),
        LedgerState::empty().after_all(ops).thread_notes(recipient, sender) == notes_for(
            ops,
            recipient,
            sender,
        ),
{
    lemma_notes_for_len(ops, recipient, sender);
    law_threads_grow_independently(LedgerState::empty(), ops, recipient, sender);
    assert(Seq::<NoteView>::empty() + notes_for(ops, recipient, sender) =~= notes_for(
        ops,
        recipient,
        sender,
    ));
}

/// After any number of appends to a ledger without a thread from `sender` to
/// `recipient`, that thread counts exactly the notes appended to it and
/// lists them, also as a page without bounds, in the order they were
/// appended, whatever else the ledger holds.
pub proof fn law_new_thread_matches_appends(
    state: LedgerState,
    ops: Seq<StoreOp>,
    recipient: Seq<char>,
    sender: Seq<char>,
)
    requires
        !state.has_thread(recipient, sender),
        ops.len() <= u64::MAX,
    ensures
        state.after_all(ops).count(recipient, sender) == notes_for(ops, recipient, sender).len(),
        state.after_all(ops).thread_notes(recipient, sender) == notes_for(ops, recipient, sender),
        state.after_all(ops).page(
            recipient,
            sender,
            page_start(None),
            page_end(state.after_all(ops).count(recipient, sender), None, None),
        ) == notes_for(ops, recipient, sender),
{
    lemma_notes_for_len(ops, recipient, sender);
    law_threads_grow_independently(state, ops, recipient, sender);
    assert(state.thread_notes(recipient, sender) + notes_for(ops, recipient, sender)
        =~= notes_for(ops, recipient, sender));
}

/// After any number of appends to a consistent ledger the threads are
/// consistent, as long as the count of every thread can take the notes
/// appended to it.
pub proof fn law_appends_keep_any_consistency(state: LedgerState, ops: Seq<StoreOp>)
    requires
        state.consistent(),
        forall|recipient: Seq<char>, sender: Seq<char>|
            state.count(recipient, sender) + (#[trigger] notes_for(ops, recipient, sender)).len()
                <= u64::MAX,
    ensures
        state.after_all(ops).consistent(),
    decreases ops.len(),
{
    if ops.len() > 0 {
        let op = ops.last();
        let rest = ops.drop_last();
        assert forall|recipient: Seq<char>, sender: Seq<char>|
            state.count(recipient, sender) + (#[trigger] notes_for(rest, recipient, sender)).len()
                <= u64::MAX by {
            assert(notes_for(rest, recipient, sender).len() <= notes_for(
                ops,
                recipient,
                sender,
            ).len());
        }
        law_appends_keep_any_consistency(state, rest);
        assert(notes_for(ops, op.recipient, op.sender).len() == notes_for(
            rest,
            op.recipient,
            op.sender,
        ).len() + 1);
        law_threads_grow_independently(state, rest, op.recipient, op.sender);
        law_append_keeps_consistency(state.after_all(rest), op.recipient, op.sender, op.note);
    }
}

/// After any number of appends to an empty ledger the threads are consistent.
pub proof fn law_appends_keep_consistency(ops: Seq<StoreOp>)
    requires
        ops.len() <= u64::MAX,
    ensures
        LedgerState::empty().after_all(ops).consistent(),
{
    assert forall|recipient: Seq<char>, sender: Seq<char>|
        LedgerState::empty().count(recipient, sender) + (#[trigger] notes_for(
            ops,
            recipient,
            sender,
        )).len() <= u64::MAX by {
        lemma_notes_for_len(ops, recipient, sender);
    }
    law_appends_keep_any_consistency(LedgerState::empty(), ops);
}

/// A thread receives no more notes than were appended in all.
proof fn lemma_notes_for_len(ops: Seq<StoreOp>, recipient: Seq<char>, sender: Seq<char>)
    ensures
        notes_for(ops, recipient, sender).len() <= ops.len(),
    decreases ops.len(),
{
    if ops.len() > 0 {
        lemma_notes_for_len(ops.drop_last(), recipient, sender);
    }
}

/// Storing a key replaces the one stored before: only the last one is read.
pub proof fn law_last_key_wins(
    state: LedgerState,
    identity: Seq<char>,
    first: Seq<u8>,
    second: Seq<u8>,
)
    ensures
        state.with_key(identity, first).with_key(identity, second).key_of(identity) == Some(
            second,
        ),
        state.with_key(identity, first).with_key(identity, second) == state.with_key(
            identity,
            second,
        ),
{
    assert(state.keys.insert(identity, first).insert(identity, second) =~= state.keys.insert(
        identity,
        second,
    ));
}

/// Once the fee configuration names a new administrator, the new one may
/// replace it and nobody else may, the former administrator included.
pub proof fn law_admin_rotation(state: LedgerState, fees: FeesView, caller: Seq<char>)
    ensures
        state.with_fees(fees).administered_by(caller) <==> fees.admin == Some(caller),
{
}

/// In a consistent ledger every page of a thread is complete: each of its
/// indices holds a note.
pub proof fn law_pages_are_complete(
    state: LedgerState,
    recipient: Seq<char>,
    sender: Seq<char>,
    start_after: Option<u64>,
    limit: Option<u32>,
)
    requires
        state.consistent(),
    ensures
        state.page_complete(
            recipient,
            sender,
            page_start(start_after),
            page_end(state.count(recipient, sender), start_after, limit),
        ),
        page_end(state.count(recipient, sender), start_after, limit) <= state.count(
            recipient,
            sender,
        ),
{
    assert forall|i: u64|
        page_start(start_after) <= i < page_end(
            state.count(recipient, sender),
            start_after,
            limit,
        ) implies #[trigger] state.notes.contains_key((recipient, sender, i)) by {
        law_indices_are_contiguous(state, recipient, sender, i);
    }
}

/// Without bounds a page holds all notes of the thread.
pub proof fn law_unbounded_page_is_whole_thread(
    state: LedgerState,
    recipient: Seq<char>,
    sender: Seq<char>,
)
    ensures
        state.page(
            recipient,
            sender,
            page_start(None),
            page_end(state.count(recipient, sender), None, None),
        ) == state.thread_notes(recipient, sender),
{
}

/// No byte string comes before itself.
pub proof fn law_order_is_strict(a: Seq<u8>)
    ensures
        !bytes_lt(a, a),
    decreases a.len(),
{
    if a.len() > 0 {
        law_order_is_strict(a.drop_first());
    }
}

/// A listing of senders names nobody twice and names exactly the senders of
/// the recipient.
pub proof fn law_listing_is_the_sender_set(
    state: LedgerState,
    recipient: Seq<char>,
    names: Seq<Seq<char>>,
)
    requires
        is_sender_listing(state, recipient, names),
    ensures
        names.no_duplicates(),
        names.to_set() == state.senders(recipient),
{
    assert forall|i: int, j: int|
        0 <= i < names.len() && 0 <= j < names.len() && i != j implies names[i] != names[j] by {
        law_order_is_strict(vstd::utf8::encode_utf8(names[i]));
        if i < j {
            assert(identity_lt(names[i], names[j]));
        } else {
            assert(identity_lt(names[j], names[i]));
        }
    }
    assert forall|sender: Seq<char>|
        names.to_set().contains(sender) <==> state.senders(recipient).contains(sender) by {
        if names.to_set().contains(sender) {
            let i = choose|i: int| 0 <= i < names.len() && names[i] == sender;
            assert(state.has_thread(recipient, names[i]));
        }
        if state.senders(recipient).contains(sender) {
            assert(state.has_thread(recipient, sender));
            assert(names.contains(sender));
        }
    }
    assert(names.to_set() =~= state.senders(recipient));
}

/// What a ledger holds is kept through any number of changes that each keep
/// what was held before them.
pub proof fn law_keeping_is_transitive(first: LedgerState, second: LedgerState, third: LedgerState)
    requires
        first.kept_by(second),
        second.kept_by(third),
    ensures
        first.kept_by(third),
        first.kept_by(first),
{
    assert forall|k: (Seq<char>, Seq<char>)| #[trigger]
        first.threads.contains_key(k) implies third.threads.contains_key(k) && first.threads[k]
        <= third.threads[k] by {
        assert(second.threads.contains_key(k));
    }
    assert forall|n: (Seq<char>, Seq<char>, u64)| #[trigger]
        first.notes.contains_key(n) && n.2 < first.count(n.0, n.1) implies third.notes.contains_key(
        n,
    ) && third.notes[n] == first.notes[n] by {
        assert(first.threads.contains_key((n.0, n.1)));
        assert(second.threads.contains_key((n.0, n.1)));
        assert(second.notes.contains_key(n));
    }
}

} // verus!
