//! The session store protocol: load, save, update, renew and delete on top of
//! single-key conditional writes, with bounded key retries on save and a
//! fallback from update to save when the record has vanished.
//!
//! Each decision is a pure step function, so that a driver against any
//! backend makes the same choices; `SessionStore` drives them against a
//! `MemoryTable`.

use vstd::prelude::*;
use crate::codec::{decode, decode_view, encode, json_text};
use crate::config::{lemma_prefix_injective, CacheConfiguration, KeyDerivation, KeyPrefix};
use crate::error::SessionError;
use crate::key::{generate_session_key, is_session_key};
use crate::payload::SessionState;
use crate::table::{ItemView, MemoryTable, StoredItem, WriteOutcome};

verus! {

/// How many freshly drawn keys `save` tries before it gives up.
pub const MAX_SAVE_ATTEMPTS: u32 = 3;

/// The expiry time for a write at `now_ms` with a time-to-live of `ttl_ms`,
/// saturating at the largest representable time.
pub open spec fn expiry_spec(now_ms: u64, ttl_ms: u64) -> u64 {
    if now_ms + ttl_ms > u64::MAX {
        u64::MAX
    } else {
        (now_ms + ttl_ms) as u64
    }
}

/// The expiry time for a write at `now_ms` with a time-to-live of `ttl_ms`.
pub fn expiry(now_ms: u64, ttl_ms: u64) -> (r: u64)
    ensures
        r == expiry_spec(now_ms, ttl_ms),
{
    now_ms.saturating_add(ttl_ms)
}

/// The record that stores `state` for a write at `now_ms` with a
/// time-to-live of `ttl_ms`.
pub fn new_item(state: &SessionState, now_ms: u64, ttl_ms: u64) -> (r: StoredItem)
    requires
        state.wf(),
    ensures
        r@ == (ItemView { data: json_text(state@), expires_at: expiry_spec(now_ms, ttl_ms) }),
        decode_view(r.data@) == Ok::<Map<Seq<char>, Seq<char>>, SessionError>(state@),
{
    StoredItem { data: encode(state), expires_at: expiry(now_ms, ttl_ms) }
}

/// What a load returns, given the stored text if a record was found: `None`
/// for no record, `Some(None)` for a record whose payload is not text.
pub open spec fn load_step_spec(found: Option<Option<Seq<char>>>) -> Result<
    Option<Map<Seq<char>, Seq<char>>>,
    SessionError,
> {
    match found {
        None => Ok(None),
        Some(None) => Err(SessionError::Deserialization),
        Some(Some(text)) => match decode_view(text) {
            Ok(m) => Ok(Some(m)),
            Err(e) => Err(e),
        },
    }
}

/// A load result seen as plain values.
pub open spec fn loaded_view(r: Result<Option<SessionState>, SessionError>) -> Result<
    Option<Map<Seq<char>, Seq<char>>>,
    SessionError,
> {
    match r {
        Ok(Some(state)) => Ok(Some(state@)),
        Ok(None) => Ok(None),
        Err(e) => Err(e),
    }
}

/// The stored text, if any, seen as plain values.
pub open spec fn found_view(found: Option<Option<&str>>) -> Option<Option<Seq<char>>> {
    match found {
        None => None,
        Some(None) => Some(None),
        Some(Some(text)) => Some(Some(text@)),
    }
}

/// Decides a load from what the backend found: no record is no session, and
/// a record that cannot be decoded is an error, never an empty session.
pub fn load_step(found: Option<Option<&str>>) -> (r: Result<Option<SessionState>, SessionError>)
    ensures
        r matches Ok(Some(state)) ==> state.wf(),
        loaded_view(r) == load_step_spec(found_view(found)),
{
    match found {
        None => Ok(None),
        Some(None) => Err(SessionError::Deserialization),
        Some(Some(text)) => match decode(text) {
            Ok(state) => Ok(Some(state)),
            Err(e) => Err(e),
        },
    }
}

/// The next move of `save` after a put-if-absent.
#[derive(Clone, Copy, Debug, PartialEq, Eq, Structural)]
pub enum SaveStep {
    /// The key was claimed: return it.
    Saved,
    /// The key was taken: draw another one.
    TryAnotherKey,
    /// Stop with this error.
    Fail(SessionError),
}

/// The decision of `save` after its `attempts`-th put-if-absent ended with
/// `outcome`.
pub open spec fn save_step_spec(attempts: u32, outcome: WriteOutcome) -> SaveStep {
    match outcome {
        WriteOutcome::Written => SaveStep::Saved,
        WriteOutcome::ConditionFailed => if attempts < MAX_SAVE_ATTEMPTS {
            SaveStep::TryAnotherKey
        } else {
            SaveStep::Fail(SessionError::Storage)
        },
        WriteOutcome::Failed => SaveStep::Fail(SessionError::Storage),
    }
}

/// Decides what `save` does after its `attempts`-th put-if-absent.
pub fn save_step(attempts: u32, outcome: WriteOutcome) -> (r: SaveStep)
    ensures
        r == save_step_spec(attempts, outcome),
{
    match outcome {
        WriteOutcome::Written => SaveStep::Saved,
        WriteOutcome::ConditionFailed => {
            if attempts < MAX_SAVE_ATTEMPTS {
                SaveStep::TryAnotherKey
            } else {
                SaveStep::Fail(SessionError::Storage)
            }
        },
        WriteOutcome::Failed => SaveStep::Fail(SessionError::Storage),
    }
}

/// The next move of `update` after a put-if-present.
#[derive(Clone, Copy, Debug, PartialEq, Eq, Structural)]
pub enum UpdateStep {
    /// The record was replaced: return the same key.
    Updated,
    /// The record has vanished: save the state under a new key instead.
    FallBackToSave,
    /// Stop with this error.
    Fail(SessionError),
}

pub open spec fn update_step_spec(outcome: WriteOutcome) -> UpdateStep {
    match outcome {
        WriteOutcome::Written => UpdateStep::Updated,
        WriteOutcome::ConditionFailed => UpdateStep::FallBackToSave,
        WriteOutcome::Failed => UpdateStep::Fail(SessionError::Storage),
    }
}

/// Decides what `update` does after its put-if-present.
pub fn update_step(outcome: WriteOutcome) -> (r: UpdateStep)
    ensures
        r == update_step_spec(outcome),
{
    match outcome {
        WriteOutcome::Written => UpdateStep::Updated,
        WriteOutcome::ConditionFailed => UpdateStep::FallBackToSave,
        WriteOutcome::Failed => UpdateStep::Fail(SessionError::Storage),
    }
}

/// Decides the result of `renew` or `delete` from the backend's answer: a
/// key that is already gone is no error.
pub fn finish_step(outcome: WriteOutcome) -> (r: Result<(), SessionError>)
    ensures
        outcome == WriteOutcome::Failed ==> r == Err::<(), SessionError>(SessionError::Storage),
        outcome != WriteOutcome::Failed ==> r is Ok,
{
    match outcome {
        WriteOutcome::Failed => Err(SessionError::Storage),
        _ => Ok(()),
    }
}

/// A drawn key that equals the key of a vanished session is refused like a
/// taken one, so that the fallback of `update` always yields a new key.
pub fn reuses_key(candidate: &String, avoid: Option<&String>) -> (r: bool)
    ensures
        r == match avoid {
            Some(a) => candidate@ == a@,
            None => false,
        },
{
    match avoid {
        Some(a) => *candidate == *a,
        None => false,
    }
}


/// A session store: the protocol, configured, run against a table.
#[derive(Clone, Debug)]
pub struct SessionStore<D> {
    configuration: CacheConfiguration<D>,
}

impl<D: KeyDerivation> SessionStore<D> {
    /// The configuration in use.
    pub closed spec fn config(&self) -> CacheConfiguration<D> {
        self.configuration
    }

    /// The storage key of a session key.
    pub open spec fn sk(&self, key: Seq<char>) -> Seq<char> {
        self.config().storage_key_spec(key)
    }

    /// What `load` of `key` returns on a table.
    pub open spec fn load_view(&self, t: Map<Seq<char>, ItemView>, key: Seq<char>) -> Result<
        Option<Map<Seq<char>, Seq<char>>>,
        SessionError,
    > {
        if t.contains_key(self.sk(key)) {
            load_step_spec(Some(Some(t[self.sk(key)].data)))
        } else {
            load_step_spec(None)
        }
    }

    /// The record that a write of `state` expiring at `expires_at` stores.
    pub open spec fn item_spec(state: Map<Seq<char>, Seq<char>>, expires_at: u64) -> ItemView {
        ItemView { data: json_text(state), expires_at }
    }

    /// `after` is `before` with `key` newly claimed for `state`: no record
    /// held the key, and now the key's record holds the state.
    pub open spec fn save_effect(
        &self,
        before: Map<Seq<char>, ItemView>,
        after: Map<Seq<char>, ItemView>,
        key: Seq<char>,
        state: Map<Seq<char>, Seq<char>>,
        expires_at: u64,
    ) -> bool {
        &&& is_session_key(key)
        &&& !before.contains_key(self.sk(key))
        &&& after == before.insert(self.sk(key), Self::item_spec(state, expires_at))
        &&& self.load_view(after, key) == Ok::<Option<Map<Seq<char>, Seq<char>>>, SessionError>(Some(state))
    }

    /// A store with the given configuration.
    pub fn new(configuration: CacheConfiguration<D>) -> (r: SessionStore<D>)
        ensures
            r.config() == configuration,
    {
        SessionStore { configuration }
    }

    /// The configuration in use.
    pub fn configuration(&self) -> (r: &CacheConfiguration<D>)
        ensures
            *r == self.config(),
    {
        &self.configuration
    }

    /// Loads the state of the session `key`: `None` when no record holds it,
    /// an error when its record cannot be decoded.
    pub fn load(&self, table: &MemoryTable, key: &str) -> (r: Result<Option<SessionState>, SessionError>)
        requires
            table.wf(),
        ensures
            r matches Ok(Some(state)) ==> state.wf(),
            loaded_view(r) == self.load_view(table@, key@),
    {
        let storage_key = self.configuration.storage_key(key);
        match table.get(storage_key.as_str()) {
            None => load_step(None),
            Some(item) => load_step(Some(Some(item.data.as_str()))),
        }
    }

    /// Tries to claim the drawn session `key` for `item`: refused when it is
    /// the key to avoid or when a record already holds it, written otherwise.
    pub fn claim_key(
        &self,
        table: &mut MemoryTable,
        key: &String,
        item: StoredItem,
        avoid: Option<&String>,
    ) -> (r: WriteOutcome)
        requires
            old(table).wf(),
        ensures
            final(table).wf(),
            (match avoid {
                Some(a) => key@ == a@,
                None => false,
            }) || old(table)@.contains_key(self.sk(key@)) ==> r == WriteOutcome::ConditionFailed
                && final(table)@ == old(table)@,
            !(match avoid {
                Some(a) => key@ == a@,
                None => false,
            }) && !old(table)@.contains_key(self.sk(key@)) ==> r == WriteOutcome::Written
                && final(table)@ == old(table)@.insert(self.sk(key@), item@),
    {
        if reuses_key(key, avoid) {
            WriteOutcome::ConditionFailed
        } else {
            table.put_if_absent(self.configuration.storage_key(key.as_str()), item)
        }
    }

    /// Saves `state` under a freshly drawn key that is not `avoid`.
    fn save_avoiding(
        &self,
        table: &mut MemoryTable,
        state: &SessionState,
        ttl_ms: u64,
        now_ms: u64,
        avoid: Option<&String>,
    ) -> (r: Result<String, SessionError>)
        requires
            old(table).wf(),
            state.wf(),
        ensures
            final(table).wf(),
            match r {
                Ok(k) => self.save_effect(old(table)@, final(table)@, k@, state@, expiry_spec(now_ms, ttl_ms))
                    && match avoid {
                    Some(a) => k@ != a@,
                    None => true,
                },
                Err(e) => e == SessionError::Storage && final(table)@ == old(table)@,
            },
            (forall|k: Seq<char>| #[trigger] is_session_key(k) ==> !old(table)@.contains_key(self.sk(k))) && match avoid {
                Some(a) => !is_session_key(a@),
                None => true,
            } ==> r is Ok,
    {
        let item = new_item(state, now_ms, ttl_ms);
        let mut attempts: u32 = 0;
        loop
            invariant
                table.wf(),
                table@ == old(table)@,
                attempts < MAX_SAVE_ATTEMPTS,
                (forall|k: Seq<char>| #[trigger] is_session_key(k) ==> !old(table)@.contains_key(self.sk(k))) && match avoid {
                    Some(a) => !is_session_key(a@),
                    None => true,
                } ==> attempts == 0,
                item@ == Self::item_spec(state@, expiry_spec(now_ms, ttl_ms)),
                decode_view(item.data@) == Ok::<Map<Seq<char>, Seq<char>>, SessionError>(state@),
            decreases MAX_SAVE_ATTEMPTS - attempts,
        {
            let key = generate_session_key();
            attempts = attempts + 1;
            let outcome = self.claim_key(table, &key, item.duplicate(), avoid);
            match save_step(attempts, outcome) {
                SaveStep::Saved => {
                    return Ok(key);
                },
                SaveStep::TryAnotherKey => {},
                SaveStep::Fail(e) => {
                    return Err(e);
                },
            }
        }
    }

    /// Saves `state` as a new session, written at `now_ms` to live `ttl_ms`,
    /// and returns its key. A drawn key that is already taken is replaced by
    /// another, at most `MAX_SAVE_ATTEMPTS` keys in all; after that the save
    /// fails with a storage error and leaves the table as it was. When no
    /// well-formed session key is taken, the first draw succeeds.
    pub fn save(&self, table: &mut MemoryTable, state: &SessionState, ttl_ms: u64, now_ms: u64) -> (r: Result<String, SessionError>)
        requires
            old(table).wf(),
            state.wf(),
        ensures
            final(table).wf(),
            match r {
                Ok(k) => self.save_effect(old(table)@, final(table)@, k@, state@, expiry_spec(now_ms, ttl_ms)),
                Err(e) => e == SessionError::Storage && final(table)@ == old(table)@,
            },
            (forall|k: Seq<char>| #[trigger] is_session_key(k) ==> !old(table)@.contains_key(self.sk(k))) ==> r is Ok,
    {
        self.save_avoiding(table, state, ttl_ms, now_ms, None)
    }

    /// Replaces the state of the session `key`, written at `now_ms` to live
    /// `ttl_ms`, and returns the key that now holds it. When the record of
    /// `key` has vanished, the state is saved as a new session under a new,
    /// different key instead; the vanished key still loads nothing whenever
    /// the derivation keeps the two storage keys apart (a prefix always
    /// does), and the save succeeds when no well-formed session key is taken
    /// and the vanished key is not one.
    pub fn update(
        &self,
        table: &mut MemoryTable,
        key: String,
        state: &SessionState,
        ttl_ms: u64,
        now_ms: u64,
    ) -> (r: Result<String, SessionError>)
        requires
            old(table).wf(),
            state.wf(),
        ensures
            final(table).wf(),
            old(table)@.contains_key(self.sk(key@)) ==> {
                &&& r matches Ok(k) && k@ == key@
                &&& final(table)@ == old(table)@.insert(
                    self.sk(key@),
                    Self::item_spec(state@, expiry_spec(now_ms, ttl_ms)),
                )
                &&& self.load_view(final(table)@, key@) == Ok::<Option<Map<Seq<char>, Seq<char>>>, SessionError>(Some(state@))
            },
            !old(table)@.contains_key(self.sk(key@)) ==> match r {
                Ok(k) => {
                    &&& k@ != key@
                    &&& self.save_effect(old(table)@, final(table)@, k@, state@, expiry_spec(now_ms, ttl_ms))
                    &&& self.sk(k@) != self.sk(key@) ==> self.load_view(final(table)@, key@) == Ok::<Option<Map<Seq<char>, Seq<char>>>, SessionError>(None)
                },
                Err(e) => e == SessionError::Storage && final(table)@ == old(table)@,
            },
            (forall|k: Seq<char>| #[trigger] is_session_key(k) ==> !old(table)@.contains_key(self.sk(k))) && !is_session_key(key@) ==> r is Ok,
    {
        let item = new_item(state, now_ms, ttl_ms);
        let outcome = table.put_if_present(self.configuration.storage_key(key.as_str()), item);
        match update_step(outcome) {
            UpdateStep::Updated => Ok(key),
            UpdateStep::FallBackToSave => {
                let r = self.save_avoiding(table, state, ttl_ms, now_ms, Some(&key));
                r
            },
            UpdateStep::Fail(e) => Err(e),
        }
    }

    /// Extends the life of the session `key` to `ttl_ms` from `now_ms`,
    /// leaving its state as it was. A session that is already gone stays
    /// gone, and that is no error.
    pub fn renew(&self, table: &mut MemoryTable, key: &str, ttl_ms: u64, now_ms: u64) -> (r: Result<(), SessionError>)
        requires
            old(table).wf(),
        ensures
            final(table).wf(),
            r is Ok,
            old(table)@.contains_key(self.sk(key@)) ==> final(table)@ == old(table)@.insert(
                self.sk(key@),
                ItemView { data: old(table)@[self.sk(key@)].data, expires_at: expiry_spec(now_ms, ttl_ms) },
            ),
            !old(table)@.contains_key(self.sk(key@)) ==> final(table)@ == old(table)@,
            self.load_view(final(table)@, key@) == self.load_view(old(table)@, key@),
    {
        let outcome = table.set_expiry(self.configuration.storage_key(key).as_str(), expiry(now_ms, ttl_ms));
        finish_step(outcome)
    }

    /// Deletes the session `key`. Deleting a session that is already gone is
    /// no error.
    pub fn delete(&self, table: &mut MemoryTable, key: &str) -> (r: Result<(), SessionError>)
        requires
            old(table).wf(),
        ensures
            final(table).wf(),
            r is Ok,
            final(table)@ == old(table)@.remove(self.sk(key@)),
            self.load_view(final(table)@, key@) == Ok::<Option<Map<Seq<char>, Seq<char>>>, SessionError>(None),
    {
        table.delete(self.configuration.storage_key(key).as_str());
        finish_step(WriteOutcome::Written)
    }
}


/// Saves only add records: a table after a run of saves holds every key of
/// the table before.
proof fn lemma_saves_keep_records<D: KeyDerivation>(
    store: SessionStore<D>,
    tables: Seq<Map<Seq<char>, ItemView>>,
    keys: Seq<Seq<char>>,
    states: Seq<Map<Seq<char>, Seq<char>>>,
    expiries: Seq<u64>,
    i: int,
    j: int,
    x: Seq<char>,
)
    requires
        tables.len() == keys.len() + 1,
        states.len() == keys.len(),
        expiries.len() == keys.len(),
        forall|n: int|
            0 <= n < keys.len() ==> #[trigger] store.save_effect(
                tables[n],
                tables[n + 1],
                keys[n],
                states[n],
                expiries[n],
            ),
        0 <= i <= j < tables.len(),
        tables[i].contains_key(x),
    ensures
        tables[j].contains_key(x),
    decreases j - i,
{
    if i < j {
        lemma_saves_keep_records(store, tables, keys, states, expiries, i, j - 1, x);
        let n = j - 1;
        assert(store.save_effect(tables[n], tables[n + 1], keys[n], states[n], expiries[n]));
    }
}

/// The keys returned by a run of successful saves on one table are pairwise
/// distinct: each save claims a key that no record held, and saves remove no
/// record.
pub proof fn lemma_saved_keys_distinct<D: KeyDerivation>(
    store: SessionStore<D>,
    tables: Seq<Map<Seq<char>, ItemView>>,
    keys: Seq<Seq<char>>,
    states: Seq<Map<Seq<char>, Seq<char>>>,
    expiries: Seq<u64>,
)
    requires
        tables.len() == keys.len() + 1,
        states.len() == keys.len(),
        expiries.len() == keys.len(),
        forall|n: int|
            0 <= n < keys.len() ==> #[trigger] store.save_effect(
                tables[n],
                tables[n + 1],
                keys[n],
                states[n],
                expiries[n],
            ),
    ensures
        forall|i: int, j: int| 0 <= i < j < keys.len() ==> keys[i] != keys[j],
{
    assert forall|i: int, j: int| 0 <= i < j < keys.len() implies keys[i] != keys[j] by {
        assert(store.save_effect(tables[i], tables[i + 1], keys[i], states[i], expiries[i]));
        assert(store.save_effect(tables[j], tables[j + 1], keys[j], states[j], expiries[j]));
        lemma_saves_keep_records(store, tables, keys, states, expiries, i + 1, j, store.sk(keys[i]));
    }
}

/// In a store that derives storage keys by prefix, distinct session keys
/// have distinct storage keys; so the vanished key of an `update` that fell
/// back to `save` still loads nothing.
pub proof fn lemma_prefix_store_keys_apart(store: SessionStore<KeyPrefix>, a: Seq<char>, b: Seq<char>)
    requires
        a != b,
    ensures
        store.sk(a) != store.sk(b),
{
    lemma_prefix_injective(store.config().cache_keygen, a, b);
}

} // verus!
