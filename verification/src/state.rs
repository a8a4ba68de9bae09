//! The records of the ledger in an ordered key-value store: the fee
//! configuration, the encryption keys, the note threads and their notes.

use cosmwasm_std::{Addr, Order, StdError, Storage, Timestamp, Uint128};
use vstd::prelude::*;

use crate::error::ContractError;
use crate::identity::{fits_in_key, Identity};
use crate::model::{
    is_sender_listing, law_append_keeps_consistency, page_end, page_start, FeesView, LedgerState,
    NoteView,
};

verus! {

/// The fee configuration.
#[derive(Debug, PartialEq)]
pub struct Fees {
    /// Who may change the fees and, unless they are burnt, receives them.
    /// Without an administrator the fees are burnt.
    pub admin: Option<String>,
    pub store_keys: u128,
    pub store_notes: u128,
    pub denom: String,
    /// Whether fees are burnt rather than paid to the administrator.
    pub burn_fees: bool,
}

impl View for Fees {
    type V = FeesView;

    open spec fn view(&self) -> FeesView {
        FeesView {
            admin: match self.admin {
                Some(admin) => Some(admin@),
                None => None,
            },
            store_keys: self.store_keys,
            store_notes: self.store_notes,
            denom: self.denom@,
            burn_fees: self.burn_fees,
        }
    }
}

impl Clone for Fees {
    fn clone(&self) -> (r: Self)
        ensures
            r@ == self@,
    {
        Fees {
            admin: match &self.admin {
                Some(admin) => Some(admin.clone()),
                None => None,
            },
            store_keys: self.store_keys,
            store_notes: self.store_notes,
            denom: self.denom.clone(),
            burn_fees: self.burn_fees,
        }
    }
}

/// What is kept of a thread: the number of its notes.
#[derive(Clone, Copy, Debug, PartialEq, Eq, Structural)]
pub struct NoteMeta {
    pub count: u64,
}

/// A note as it is stored.
#[derive(Debug, PartialEq)]
pub struct Note {
    pub sender: String,
    pub note: Vec<u8>,
    /// When the note was stored, in nanoseconds since the epoch.
    pub timestamp: u64,
}

impl View for Note {
    type V = NoteView;

    open spec fn view(&self) -> NoteView {
        NoteView { sender: self.sender@, note: self.note@, timestamp: self.timestamp }
    }
}

impl Clone for Note {
    fn clone(&self) -> (r: Self)
        ensures
            r@ == self@,
    {
        Note { sender: self.sender.clone(), note: self.note.clone(), timestamp: self.timestamp }
    }
}

/// The views of a list of notes, in order.
pub open spec fn note_views(notes: Seq<Note>) -> Seq<NoteView> {
    Seq::new(notes.len(), |i: int| notes[i]@)
}

/// The texts of a list of strings, in order.
pub open spec fn texts(names: Seq<String>) -> Seq<Seq<char>> {
    Seq::new(names.len(), |i: int| names[i]@)
}

/// An ordered key-value store that holds a ledger.
///
/// It stands for the store of the host, of which the verifier sees nothing.
/// What it holds is named by [`fee_record`], [`key_records`],
/// [`thread_records`], [`note_records`], [`records_intact`] and
/// [`holds_no_record`], and every access goes through a
/// function of this module whose contract is stated over those names and
/// taken on trust. The contracts rest on the host's store doing what
/// `cosmwasm_std::Storage` documents: a key holds what was last set under
/// it, and a range is walked in the order of the keys' bytes.
#[verifier::external_body]
pub struct Store<'a> {
    inner: &'a mut dyn Storage,
}

/// The fee configuration that the store holds, if it holds one that reads
/// back.
pub uninterp spec fn fee_record(store: &Store) -> Option<FeesView>;

/// The encryption keys that the store holds, by identity.
pub uninterp spec fn key_records(store: &Store) -> Map<Seq<char>, Seq<u8>>;

/// The thread counts that the store holds, by recipient and sender.
pub uninterp spec fn thread_records(store: &Store) -> Map<(Seq<char>, Seq<char>), u64>;

/// The notes that the store holds, by recipient, sender and index.
pub uninterp spec fn note_records(store: &Store) -> Map<(Seq<char>, Seq<char>, u64), NoteView>;

/// Whether every record that the store holds in the ledger's four families
/// reads back: its key is text and its value has the family's shape. What
/// does not read back is in none of the maps above.
pub uninterp spec fn records_intact(store: &Store) -> bool;

/// Whether the store holds no record at all, of the ledger or of anything
/// else.
pub uninterp spec fn holds_no_record(store: &Store) -> bool;

impl<'a> View for Store<'a> {
    type V = LedgerState;

    open spec fn view(&self) -> LedgerState {
        LedgerState {
            fees: fee_record(self),
            keys: key_records(self),
            threads: thread_records(self),
            notes: note_records(self),
        }
    }
}

impl<'a> Store<'a> {
    /// Whether every record of the ledger reads back.
    pub open spec fn intact(&self) -> bool {
        records_intact(self)
    }

    /// Whether the store holds no record at all.
    pub open spec fn holds_nothing(&self) -> bool {
        holds_no_record(self)
    }

    /// Opens the ledger that `storage` holds. Nothing is known of what a
    /// store holds until it is read: see [`Store::is_fresh`].
    #[verifier::external_body]
    pub fn new<S: Storage>(storage: &'a mut S) -> (store: Store<'a>) {
        Store { inner: storage }
    }

    /// Whether the store holds no record at all, as it does before a ledger
    /// is set up in it. Such a store is intact and holds the empty ledger.
    pub fn is_fresh(&self) -> (fresh: bool)
        ensures
            fresh == self.holds_nothing(),
            fresh ==> self@ == LedgerState::empty() && self.intact(),
    {
        store_is_empty(self)
    }
}

/// `cosmwasm_std::Storage::range` over the whole store, in ascending order,
/// asked for its first record only. The result tells whether there is none.
/// A store without any record holds no record of the ledger, and so none
/// that fails to read back.
#[verifier::external_body]
fn store_is_empty(store: &Store) -> (empty: bool)
    ensures
        empty == holds_no_record(store),
        empty ==> store@ == LedgerState::empty() && records_intact(store),
{
    store.inner.range(None, None, Order::Ascending).next().is_none()
}

/// `cw_storage_plus::Item::load` on the fee configuration, which is stored
/// under the key `fees` as the JSON list of its five fields: administrator,
/// fee on keys, fee on notes, currency, whether fees are burnt. It returns
/// the record if the store holds one that reads back, reports a missing
/// record as not found, and fails otherwise only on a record that does not
/// read back.
#[verifier::external_body]
fn fees_load(store: &Store) -> (r: Result<Fees, ContractError>)
    ensures
        match r {
            Ok(fees) => fee_record(store) == Some(fees@),
            Err(ContractError::NotFound { .. }) => fee_record(store) is None,
            Err(ContractError::Std(_)) => fee_record(store) is None && !records_intact(store),
            Err(_) => false,
        },
{
    match cw_storage_plus::Item::<(Option<Addr>, Uint128, Uint128, String, bool)>::new("fees").load(
        &*store.inner,
    ) {
        Ok((admin, store_keys, store_notes, denom, burn_fees)) => Ok(
            Fees {
                admin: admin.map(Addr::into_string),
                store_keys: store_keys.u128(),
                store_notes: store_notes.u128(),
                denom,
                burn_fees,
            },
        ),
        Err(StdError::NotFound { kind, .. }) => Err(ContractError::NotFound { kind }),
        Err(e) => Err(ContractError::Std(e)),
    }
}

/// `cw_storage_plus::Item::save` on the fee configuration, as the JSON list
/// of its five fields. The call writes the record as JSON and sets it in the
/// store; it returns an error only where the record cannot be written as
/// JSON, and a list of text, numbers and booleans always can. So it
/// succeeds: the store then holds `fees` in place of any earlier
/// configuration, and nothing else has changed.
#[verifier::external_body]
fn fees_save(store: &mut Store, fees: &Fees) -> (r: Result<(), StdError>)
    ensures
        r is Ok,
        final(store)@ == old(store)@.with_fees(fees@),
        records_intact(old(store)) ==> records_intact(final(store)),
{
    let record = (
        fees.admin.clone().map(Addr::unchecked),
        Uint128::new(fees.store_keys),
        Uint128::new(fees.store_notes),
        fees.denom.clone(),
        fees.burn_fees,
    );
    cw_storage_plus::Item::<(Option<Addr>, Uint128, Uint128, String, bool)>::new("fees").save(
        &mut *store.inner,
        &record,
    )
}

/// `cw_storage_plus::Map::may_load` on the encryption keys, each stored in
/// the map `state` as the JSON list of its bytes. It returns the key of
/// `identity` if the store holds one that reads back, `None` if it holds
/// none, and fails only on a record that does not read back.
#[verifier::external_body]
fn key_may_load(store: &Store, identity: &String) -> (r: Result<Option<Vec<u8>>, StdError>)
    ensures
        match r {
            Ok(Some(key)) => key_records(store).contains_key(identity@) && key_records(
                store,
            )[identity@] == key@,
            Ok(None) => !key_records(store).contains_key(identity@),
            Err(_) => !key_records(store).contains_key(identity@) && !records_intact(store),
        },
{
    cw_storage_plus::Map::<Addr, Vec<u8>>::new("state").may_load(
        &*store.inner,
        Addr::unchecked(identity.clone()),
    )
}

/// `cw_storage_plus::Map::save` on the encryption keys. It returns an error
/// only where the record cannot be written as JSON, and a list of bytes
/// always can. So it succeeds: the store then holds `key` for `identity` in
/// place of any earlier key, and nothing else has changed.
#[verifier::external_body]
fn key_save(store: &mut Store, identity: &String, key: &Vec<u8>) -> (r: Result<(), StdError>)
    ensures
        r is Ok,
        final(store)@ == old(store)@.with_key(identity@, key@),
        records_intact(old(store)) ==> records_intact(final(store)),
{
    cw_storage_plus::Map::<Addr, Vec<u8>>::new("state").save(
        &mut *store.inner,
        Addr::unchecked(identity.clone()),
        key,
    )
}

/// `cw_storage_plus::Map::load` on the thread counts, each stored in the map
/// `note_counts` under recipient and sender as a JSON number. It returns the
/// count of the thread if the store holds one that reads back, reports a
/// missing record as not found, and fails otherwise only on a record that
/// does not read back. The recipient stands inside the key behind its length in two
/// bytes, and the key cannot be built for a longer one.
#[verifier::external_body]
fn thread_load(store: &Store, recipient: &String, sender: &String) -> (r: Result<
    u64,
    ContractError,
>)
    requires
        fits_in_key(recipient@),
    ensures
        match r {
            Ok(count) => thread_records(store).contains_key((recipient@, sender@))
                && thread_records(store)[(recipient@, sender@)] == count,
            Err(ContractError::NotFound { .. }) => !thread_records(store).contains_key(
                (recipient@, sender@),
            ),
            Err(ContractError::Std(_)) => !thread_records(store).contains_key(
                (recipient@, sender@),
            ) && !records_intact(store),
            Err(_) => false,
        },
{
    match cw_storage_plus::Map::<(Addr, Addr), u64>::new("note_counts").load(
        &*store.inner,
        (Addr::unchecked(recipient.clone()), Addr::unchecked(sender.clone())),
    ) {
        Ok(count) => Ok(count),
        Err(StdError::NotFound { kind, .. }) => Err(ContractError::NotFound { kind }),
        Err(e) => Err(ContractError::Std(e)),
    }
}

/// `cw_storage_plus::Map::may_load` on the thread counts. It returns the
/// count of the thread if the store holds one that reads back, `None` if it
/// holds none, and fails only on a record that does not read back. The key
/// cannot be built for a recipient that does not fit.
#[verifier::external_body]
fn thread_may_load(store: &Store, recipient: &String, sender: &String) -> (r: Result<
    Option<u64>,
    StdError,
>)
    requires
        fits_in_key(recipient@),
    ensures
        match r {
            Ok(Some(count)) => thread_records(store).contains_key((recipient@, sender@))
                && thread_records(store)[(recipient@, sender@)] == count,
            Ok(None) => !thread_records(store).contains_key((recipient@, sender@)),
            Err(_) => !thread_records(store).contains_key((recipient@, sender@))
                && !records_intact(store),
        },
{
    cw_storage_plus::Map::<(Addr, Addr), u64>::new("note_counts").may_load(
        &*store.inner,
        (Addr::unchecked(recipient.clone()), Addr::unchecked(sender.clone())),
    )
}

/// `cw_storage_plus::Map::save` on the thread counts. It returns an error
/// only where the record cannot be written as JSON, and a number always can.
/// So it succeeds: the store then holds `count` for the thread in place of
/// any earlier count, and nothing else has changed. The key cannot be built
/// for a recipient that does not fit.
#[verifier::external_body]
fn thread_save(store: &mut Store, recipient: &String, sender: &String, count: u64) -> (r: Result<
    (),
    StdError,
>)
    requires
        fits_in_key(recipient@),
    ensures
        r is Ok,
        final(store)@ == old(store)@.with_count(recipient@, sender@, count),
        records_intact(old(store)) ==> records_intact(final(store)),
{
    cw_storage_plus::Map::<(Addr, Addr), u64>::new("note_counts").save(
        &mut *store.inner,
        (Addr::unchecked(recipient.clone()), Addr::unchecked(sender.clone())),
        &count,
    )
}

/// `cw_storage_plus::Map::load` on the notes, each stored in the map `notes`
/// under recipient, sender and index as the JSON list of its three fields:
/// sender, payload, time. It returns the note under `index` of the thread if
/// the store holds one that reads back, reports a
/// missing record as not found, and fails otherwise only on a record that
/// does not read back. Recipient and sender stand inside the key, each behind
/// its length in two bytes, and the key cannot be built for a longer one.
#[verifier::external_body]
fn note_load(store: &Store, recipient: &String, sender: &String, index: u64) -> (r: Result<
    Note,
    ContractError,
>)
    requires
        fits_in_key(recipient@),
        fits_in_key(sender@),
    ensures
        match r {
            Ok(note) => note_records(store).contains_key((recipient@, sender@, index))
                && note_records(store)[(recipient@, sender@, index)] == note@,
            Err(ContractError::NotFound { .. }) => !note_records(store).contains_key(
                (recipient@, sender@, index),
            ),
            Err(ContractError::Std(_)) => !note_records(store).contains_key(
                (recipient@, sender@, index),
            ) && !records_intact(store),
            Err(_) => false,
        },
{
    match cw_storage_plus::Map::<(Addr, Addr, u64), (Addr, Vec<u8>, Timestamp)>::new("notes").load(
        &*store.inner,
        (Addr::unchecked(recipient.clone()), Addr::unchecked(sender.clone()), index),
    ) {
        Ok((from, note, time)) => Ok(
            Note { sender: from.into_string(), note, timestamp: time.nanos() },
        ),
        Err(StdError::NotFound { kind, .. }) => Err(ContractError::NotFound { kind }),
        Err(e) => Err(ContractError::Std(e)),
    }
}

/// `cw_storage_plus::Map::save` on the notes. It returns an error only where
/// the record cannot be written as JSON, and a list of text, bytes and a
/// number always can. So it succeeds: the store then holds `note` under
/// `index` of the thread, in place of any earlier one, and nothing else has
/// changed. The key cannot be built for a recipient or a sender that does
/// not fit.
#[verifier::external_body]
fn note_save(store: &mut Store, recipient: &String, sender: &String, index: u64, note: &Note) -> (r:
    Result<(), StdError>)
    requires
        fits_in_key(recipient@),
        fits_in_key(sender@),
    ensures
        r is Ok,
        final(store)@ == old(store)@.with_note_at(recipient@, sender@, index, note@),
        records_intact(old(store)) ==> records_intact(final(store)),
{
    let record = (
        Addr::unchecked(note.sender.clone()),
        note.note.clone(),
        Timestamp::from_nanos(note.timestamp),
    );
    cw_storage_plus::Map::<(Addr, Addr, u64), (Addr, Vec<u8>, Timestamp)>::new("notes").save(
        &mut *store.inner,
        (Addr::unchecked(recipient.clone()), Addr::unchecked(sender.clone()), index),
        &record,
    )
}

/// `cw_storage_plus::Map::prefix` and `Prefix::keys`, in ascending order, on
/// the thread counts of one recipient. The store walks the keys below the
/// recipient in the order of their bytes, and each key ends in a sender: on
/// success the result lists the senders of the recipient, each once and in
/// ascending order. It fails only on a record that does not read back. The
/// prefix cannot be built for a recipient that does not fit.
#[verifier::external_body]
fn thread_senders(store: &Store, recipient: &String) -> (r: Result<Vec<String>, StdError>)
    requires
        fits_in_key(recipient@),
    ensures
        match r {
            Ok(names) => is_sender_listing(
                LedgerState {
                    fees: fee_record(store),
                    keys: key_records(store),
                    threads: thread_records(store),
                    notes: note_records(store),
                },
                recipient@,
                texts(names@),
            ),
            Err(_) => !records_intact(store),
        },
{
    cw_storage_plus::Map::<(Addr, Addr), u64>::new("note_counts")
        .prefix(Addr::unchecked(recipient.clone()))
        .keys(&*store.inner, None, None, Order::Ascending)
        .map(|key| key.map(Addr::into_string))
        .collect()
}

/// `cw2::set_contract_version`. It writes the name and version of the
/// contract, two texts, under a key of its own, apart from the ledger's four
/// families. It returns an error only where they cannot be written as JSON,
/// and texts always can. So it succeeds, and the ledger is as it was.
#[verifier::external_body]
pub(crate) fn save_contract_version(store: &mut Store, name: &str, version: &str) -> (r: Result<
    (),
    StdError,
>)
    ensures
        r is Ok,
        final(store)@ == old(store)@,
        records_intact(final(store)) == records_intact(old(store)),
{
    cw2::set_contract_version(&mut *store.inner, name, version)
}

/// The fee configuration of the ledger.
///
/// It is there once the ledger has been set up: until then, and only then
/// in an intact store, the failure is [`ContractError::NotFound`].
pub fn load_fees(store: &Store) -> (r: Result<Fees, ContractError>)
    ensures
        match r {
            Ok(fees) => store@.fees == Some(fees@),
            Err(ContractError::NotFound { .. }) => store@.fees is None,
            Err(ContractError::Std(_)) => store@.fees is None && !store.intact(),
            Err(_) => false,
        },
{
    fees_load(store)
}

/// Replaces the fee configuration as a whole. It always succeeds.
pub fn save_fees(store: &mut Store, fees: &Fees) -> (r: Result<(), ContractError>)
    ensures
        r is Ok,
        final(store)@ == old(store)@.with_fees(fees@),
        old(store).intact() ==> final(store).intact(),
        old(store)@.consistent() ==> final(store)@.consistent(),
        old(store)@.kept_by(final(store)@),
{
    match fees_save(store, fees) {
        Ok(()) => Ok(()),
        Err(e) => Err(ContractError::Std(e)),
    }
}

/// The encryption key of `addr`, or `None` if it has never stored one.
pub fn load_enc_key(store: &Store, addr: String) -> (r: Result<Option<Vec<u8>>, ContractError>)
    ensures
        match r {
            Ok(Some(key)) => store@.key_of(addr@) == Some(key@),
            Ok(None) => store@.key_of(addr@) is None,
            Err(e) => e is Std && store@.key_of(addr@) is None && !store.intact(),
        },
{
    match key_may_load(store, &addr) {
        Ok(key) => Ok(key),
        Err(e) => Err(ContractError::Std(e)),
    }
}

/// Sets the encryption key of `addr`, in place of any it had. It always
/// succeeds, whatever the key holds.
pub fn save_enc_key(store: &mut Store, addr: String, key: &Vec<u8>) -> (r: Result<
    (),
    ContractError,
>)
    ensures
        r is Ok,
        final(store)@ == old(store)@.with_key(addr@, key@),
        old(store).intact() ==> final(store).intact(),
        old(store)@.consistent() ==> final(store)@.consistent(),
        old(store)@.kept_by(final(store)@),
{
    match key_save(store, &addr, key) {
        Ok(()) => Ok(()),
        Err(e) => Err(ContractError::Std(e)),
    }
}

/// Whether the notes of a page from `start` up to `end` can be looked up for
/// `sender`: the page is empty, or the sender fits in a storage key.
pub open spec fn page_has_keys(sender: Seq<char>, start: int, end: int) -> bool {
    fits_in_key(sender) || start >= end
}

/// A page of the notes from `sender` to `recipient`, in ascending order of
/// their indices: it starts at `start_after`, or at 0, and holds at most
/// `limit` notes, or all that follow.
///
/// It succeeds when the thread exists and every index of the page holds a
/// note, as it does in a consistent ledger. A thread that does not exist and
/// a note that is missing are [`ContractError::NotFound`] in an intact
/// store; a sender too long for the key of a note is a failure of the store.
pub fn load_notes(
    store: &Store,
    recipient: Identity,
    sender: String,
    start_after: Option<u64>,
    limit: Option<u32>,
) -> (r: Result<Vec<Note>, ContractError>)
    ensures
        ({
            let state = store@;
            let start = page_start(start_after);
            let end = page_end(state.count(recipient@, sender@), start_after, limit);
            let readable = state.has_thread(recipient@, sender@) && state.page_complete(
                recipient@,
                sender@,
                start,
                end,
            );
            let keyed = page_has_keys(sender@, start, end);
            match r {
                Ok(notes) => readable && keyed && note_views(notes@) == state.page(
                    recipient@,
                    sender@,
                    start,
                    end,
                ),
                Err(ContractError::NotFound { .. }) => !readable && (keyed || !state.has_thread(
                    recipient@,
                    sender@,
                )),
                Err(ContractError::Std(_)) => (!readable && !store.intact()) || (state.has_thread(
                    recipient@,
                    sender@,
                ) && !keyed),
                Err(_) => false,
            }
        }),
{
    let to = recipient.as_string();
    let count = thread_load(store, to, &sender)?;
    let start: u64 = match start_after {
        Some(start) => start,
        None => 0,
    };
    let end: u64 = match limit {
        Some(l) => match start.checked_add(l as u64) {
            Some(end) => if end < count {
                end
            } else {
                count
            },
            None => count,
        },
        None => count,
    };
    let ghost state = store@;
    let mut notes: Vec<Note> = Vec::new();
    if start >= end {
        assert(note_views(notes@) =~= state.page(recipient@, sender@, start as int, end as int));
        return Ok(notes);
    }
    let from = match Identity::new(sender) {
        Some(from) => from,
        None => {
            return Err(ContractError::Std(key_too_long()));
        },
    };
    let from = from.as_string();
    let mut index: u64 = start;
    while index < end
        invariant
            start <= index <= end,
            state == store@,
            start == page_start(start_after),
            end == page_end(state.count(recipient@, sender@), start_after, limit),
            state.has_thread(recipient@, sender@),
            to@ == recipient@,
            from@ == sender@,
            fits_in_key(to@),
            fits_in_key(from@),
            notes@.len() == index - start,
            forall|i: u64|
                start <= i < index ==> #[trigger] state.notes.contains_key(
                    (recipient@, sender@, i),
                ),
            forall|i: int|
                0 <= i < notes@.len() ==> (#[trigger] notes@[i])@ == state.notes[(
                    recipient@,
                    sender@,
                    (start + i) as u64,
                )],
        decreases end - index,
    {
        match note_load(store, to, from, index) {
            Ok(note) => {
                notes.push(note);
            },
            Err(e) => {
                assert(!state.notes.contains_key((recipient@, sender@, index)));
                return Err(e);
            },
        }
        index = index + 1;
    }
    assert(note_views(notes@) =~= state.page(recipient@, sender@, start as int, end as int));
    Ok(notes)
}

/// What is kept of the thread from `sender` to `recipient`.
///
/// A thread that never received a note does not exist: that is a failure,
/// not a count of zero, and in an intact store it is
/// [`ContractError::NotFound`].
pub fn load_note_meta(store: &Store, sender: String, recipient: Identity) -> (r: Result<
    NoteMeta,
    ContractError,
>)
    ensures
        match r {
            Ok(meta) => store@.has_thread(recipient@, sender@) && meta.count == store@.count(
                recipient@,
                sender@,
            ),
            Err(ContractError::NotFound { .. }) => !store@.has_thread(recipient@, sender@),
            Err(ContractError::Std(_)) => !store@.has_thread(recipient@, sender@)
                && !store.intact(),
            Err(_) => false,
        },
{
    let count = thread_load(store, recipient.as_string(), &sender)?;
    Ok(NoteMeta { count })
}

/// The identities that have a thread to `recipient`, each once and in
/// ascending order of their bytes. It succeeds on every intact store.
pub fn find_senders(store: &Store, recipient: Identity) -> (r: Result<Vec<String>, ContractError>)
    ensures
        match r {
            Ok(names) => is_sender_listing(store@, recipient@, texts(names@)),
            Err(e) => e is Std && !store.intact(),
        },
{
    match thread_senders(store, recipient.as_string()) {
        Ok(names) => Ok(names),
        Err(e) => Err(ContractError::Std(e)),
    }
}

/// `cosmwasm_std::StdError::generic_err` with the words of the key encoding
/// on a part that is too long: the error for a sender that does not fit in
/// a storage key.
#[verifier::external_body]
pub(crate) fn key_too_long() -> (e: StdError) {
    StdError::generic_err("only supports namespaces up to length 0xFFFF")
}

/// `cosmwasm_std::StdError::overflow` on the addition of 1 to `count`: the
/// error that says that a thread can take no further note.
#[verifier::external_body]
fn count_overflow(count: u64) -> (e: StdError) {
    StdError::overflow(
        cosmwasm_std::OverflowError::new(cosmwasm_std::OverflowOperation::Add, count, 1u64),
    )
}

/// Appends `note` to the thread from `sender` to `recipient` and returns the
/// index it was given: the count of the thread before, which then grows by
/// one. A thread that has none yet starts at index 0.
///
/// The note and the new count are written together or not at all. The only
/// failures come before any write: a count that does not read back, and a
/// thread whose count cannot grow. So it succeeds on every intact store
/// whose thread can take a further note, and a failure leaves the ledger as
/// it was.
pub fn store_note(store: &mut Store, sender: Identity, recipient: Identity, note: Note) -> (r:
    Result<u64, ContractError>)
    ensures
        match r {
            Ok(index) => index == old(store)@.count(recipient@, sender@) && index < u64::MAX
                && final(store)@ == old(store)@.with_note(recipient@, sender@, note@),
            Err(e) => e is Std && final(store)@ == old(store)@ && (old(store)@.count(
                recipient@,
                sender@,
            ) == u64::MAX || (!old(store)@.has_thread(recipient@, sender@) && !old(
                store,
            ).intact())),
        },
        old(store).intact() && old(store)@.count(recipient@, sender@) < u64::MAX ==> r is Ok,
        old(store)@.has_thread(recipient@, sender@) ==> (r is Ok <==> old(store)@.count(
            recipient@,
            sender@,
        ) < u64::MAX),
        old(store).intact() ==> final(store).intact(),
        old(store)@.consistent() ==> final(store)@.consistent(),
        old(store)@.kept_by(final(store)@),
{
    let to = recipient.as_string();
    let from = sender.as_string();
    let index: u64 = match thread_may_load(store, to, from) {
        Ok(Some(count)) => count,
        Ok(None) => 0,
        Err(e) => {
            return Err(ContractError::Std(e));
        },
    };
    if index == u64::MAX {
        return Err(ContractError::Std(count_overflow(index)));
    }
    match note_save(store, to, from, index, &note) {
        Ok(()) => {},
        Err(e) => {
            return Err(ContractError::Std(e));
        },
    }
    match thread_save(store, to, from, index + 1) {
        Ok(()) => {
            proof {
                if old(store)@.consistent() {
                    law_append_keeps_consistency(old(store)@, recipient@, sender@, note@);
                }
            }
            Ok(index)
        },
        Err(e) => Err(ContractError::Std(e)),
    }
}

} // verus!
