//! API-key storage: the stores a provider key can live in (an in-memory
//! table, the OS keyring), how a key is resolved, written and deleted across
//! the keyring and the settings table, and the one-way migration of keys from
//! the settings table into the keyring.

use vstd::prelude::*;
use crate::settings::{StringMap, map_of, string_pairs};
use crate::text::{is_blank, is_blank_str, concat2};
use crate::transform::opt_string_view;

verus! {

/// Every API key is redacted from debug output so a stray `{:?}` in logs or
/// tests can never leak a secret.
pub struct Secret<'a>(pub &'a str);

/// The text a secret is shown as in debug output.
pub open spec fn redacted_text(secret: Seq<char>) -> Seq<char> {
    if secret.len() == 0 {
        "<empty>"@
    } else {
        "[REDACTED]"@
    }
}

impl<'a> Secret<'a> {
    /// What the secret's debug output shows: `<empty>` or `[REDACTED]`, never
    /// the secret.
    pub fn redacted(&self) -> (r: &'static str)
        ensures
            r@ == redacted_text(self.0@),
    {
        if self.0.is_empty() {
            "<empty>"
        } else {
            "[REDACTED]"
        }
    }
}

/// Debug output of a secret depends only on whether it is empty: any two
/// non-empty secrets are shown the same way.
pub proof fn law_redaction_hides_content(a: Seq<char>, b: Seq<char>)
    requires
        a.len() > 0,
        b.len() > 0,
    ensures
        redacted_text(a) == redacted_text(b),
        redacted_text(a) == "[REDACTED]"@,
{
}

/// Errors reading or writing secrets. Messages never include key material.
#[derive(Debug, Clone)]
pub enum SecretError {
    /// Backend could not write/read (I/O, keyring failure, settings store error).
    Store(String),
    /// Backend is compiled out or unavailable on this platform.
    Unavailable(String),
}

/// The text an error is displayed as.
pub open spec fn secret_error_text(e: SecretError) -> Seq<char> {
    match e {
        SecretError::Store(msg) => "Secret store error: "@ + msg@,
        SecretError::Unavailable(msg) => msg@,
    }
}

impl SecretError {
    /// The error as displayed.
    pub fn to_string(&self) -> (r: String)
        ensures
            r@ == secret_error_text(*self),
    {
        match self {
            SecretError::Store(msg) => concat2("Secret store error: ", msg.as_str()),
            SecretError::Unavailable(msg) => msg.clone(),
        }
    }
}

/// The key a store holds for `id`, if any.
pub open spec fn key_for(keys: Map<Seq<char>, Seq<char>>, id: Seq<char>) -> Option<Seq<char>> {
    keys.get(id)
}

/// The keys after storing `key` for `id`: a blank key reads as no key.
pub open spec fn with_key(keys: Map<Seq<char>, Seq<char>>, id: Seq<char>, key: Seq<char>) -> Map<
    Seq<char>,
    Seq<char>,
> {
    if is_blank(key) {
        keys.remove(id)
    } else {
        keys.insert(id, key)
    }
}

/// The non-blank entries of a raw key table: what reads of it return.
pub open spec fn usable_keys(raw: Map<Seq<char>, Seq<char>>) -> Map<Seq<char>, Seq<char>> {
    Map::new(|k: Seq<char>| raw.contains_key(k) && !is_blank(raw[k]), |k: Seq<char>| raw[k])
}

/// Where API keys live. Implementations must never leak key material into
/// error messages or logs.
///
/// A store that `keeps_model` behaves as a table of entries (provider id to
/// stored key) in which a missing or blank entry reads as no key: a read that
/// succeeds returns the usable key held; a write that succeeds stores the key
/// given; a delete that succeeds stores an empty entry; a write or delete
/// that fails leaves the table as it was. A store that `never_fails` answers
/// every call with success. Other stores (the OS keyring) promise nothing
/// about what a read returns.
pub trait ApiKeyStore {
    /// Whether the store behaves as the table `entries`; a store says so only
    /// by overriding this.
    open spec fn keeps_model(&self) -> bool {
        false
    }

    /// Whether every call of the store succeeds; a store says so only by
    /// overriding this.
    open spec fn never_fails(&self) -> bool {
        false
    }

    /// The stored entries, by provider id, blank ones included.
    open spec fn entries(&self) -> Map<Seq<char>, Seq<char>> {
        Map::empty()
    }

    fn get(&self, provider_id: &str) -> (r: Result<Option<String>, SecretError>)
        ensures
            self.keeps_model() ==> (r matches Ok(o) ==> opt_string_view(o) == key_for(
                usable_keys(self.entries()),
                provider_id@,
            )),
            self.never_fails() ==> r is Ok,
    ;

    fn set(&mut self, provider_id: &str, key: &str) -> (r: Result<(), SecretError>)
        ensures
            old(self).keeps_model() ==> final(self).keeps_model() && final(self).entries() == if r is Ok {
                old(self).entries().insert(provider_id@, key@)
            } else {
                old(self).entries()
            },
            old(self).never_fails() ==> final(self).never_fails() && r is Ok,
    ;

    fn delete(&mut self, provider_id: &str) -> (r: Result<(), SecretError>)
        ensures
            old(self).keeps_model() ==> final(self).keeps_model() && final(self).entries() == if r is Ok {
                old(self).entries().insert(provider_id@, Seq::empty())
            } else {
                old(self).entries()
            },
            old(self).never_fails() ==> final(self).never_fails() && r is Ok,
    ;
}

/// The usable keys of a store: its non-blank entries.
pub open spec fn keys_of<S: ApiKeyStore>(store: S) -> Map<Seq<char>, Seq<char>> {
    usable_keys(store.entries())
}

/// A store that keeps its model reads back what was written: after a
/// successful set the key is read (none when it was blank), after a
/// successful delete no key is read, and other providers read as before
/// either way.
pub proof fn law_store_reads_back_writes(
    entries: Map<Seq<char>, Seq<char>>,
    id: Seq<char>,
    other: Seq<char>,
    key: Seq<char>,
)
    requires
        other != id,
    ensures
        key_for(usable_keys(entries.insert(id, key)), id) == (if is_blank(key) {
            None
        } else {
            Some(key)
        }),
        key_for(usable_keys(entries.insert(id, Seq::empty())), id) is None,
        key_for(usable_keys(entries.insert(id, key)), other) == key_for(usable_keys(entries), other),
        key_for(usable_keys(entries.insert(id, Seq::empty())), other) == key_for(
            usable_keys(entries),
            other,
        ),
{
    lemma_usable_insert(entries, id, key);
}

/// Storing an entry changes the usable keys as `with_key` says, and an empty
/// entry removes the key.
pub proof fn lemma_usable_insert(raw: Map<Seq<char>, Seq<char>>, id: Seq<char>, key: Seq<char>)
    ensures
        usable_keys(raw.insert(id, key)) == with_key(usable_keys(raw), id, key),
        usable_keys(raw.insert(id, Seq::empty())) == usable_keys(raw).remove(id),
{
    assert(usable_keys(raw.insert(id, key)) =~= with_key(usable_keys(raw), id, key));
    assert(usable_keys(raw.insert(id, Seq::empty())) =~= usable_keys(raw).remove(id));
}

/// In-memory store for tests and the migration unit tests.
pub struct MemoryApiKeyStore {
    keys: StringMap,
}

impl MemoryApiKeyStore {
    /// Everything the store holds, blank values included.
    pub closed spec fn raw(&self) -> Map<Seq<char>, Seq<char>> {
        self.keys@
    }

    /// A store holding the given (provider id, key) pairs; a later pair for
    /// an id replaces an earlier one.
    pub fn new(keys: Vec<(String, String)>) -> (r: MemoryApiKeyStore)
        ensures
            r.raw() == map_of(string_pairs(keys@)),
    {
        MemoryApiKeyStore { keys: StringMap::from_pairs(keys) }
    }

    /// A store holding a key table, such as the settings key table.
    pub fn from_table(keys: StringMap) -> (r: MemoryApiKeyStore)
        ensures
            r.raw() == keys@,
    {
        MemoryApiKeyStore { keys }
    }

    /// The key table the store holds.
    pub fn table(&self) -> (r: &StringMap)
        ensures
            r@ == self.raw(),
    {
        &self.keys
    }
}

impl ApiKeyStore for MemoryApiKeyStore {
    open spec fn keeps_model(&self) -> bool {
        true
    }

    open spec fn never_fails(&self) -> bool {
        true
    }

    open spec fn entries(&self) -> Map<Seq<char>, Seq<char>> {
        self.raw()
    }

    /// The stored key, unless it is missing or blank.
    fn get(&self, provider_id: &str) -> (r: Result<Option<String>, SecretError>)
    {
        match self.keys.get(provider_id) {
            Some(key) => {
                if is_blank_str(key.as_str()) {
                    Ok(None)
                } else {
                    Ok(Some(key.clone()))
                }
            },
            None => Ok(None),
        }
    }

    fn set(&mut self, provider_id: &str, key: &str) -> (r: Result<(), SecretError>)
        ensures
            final(self).raw() == old(self).raw().insert(provider_id@, key@),
    {
        self.keys.insert(provider_id.to_owned(), key.to_owned());
        Ok(())
    }

    /// Deleting writes an empty key, which reads as no key.
    fn delete(&mut self, provider_id: &str) -> (r: Result<(), SecretError>)
        ensures
            final(self).raw() == old(self).raw().insert(provider_id@, Seq::empty()),
    {
        self.keys.insert(provider_id.to_owned(), String::new());
        Ok(())
    }
}


#[verifier::external_type_specification]
#[verifier::external_body]
pub struct ExKeyringEntry(keyring::Entry);

/// How a keyring call failed: there is no credential for the entry, or the
/// platform store failed (with the failure's display text).
#[derive(Debug)]
pub enum KeyringFailure {
    NoEntry,
    Failed(String),
}

/// `keyring::Entry::new`: the OS keyring entry for a service and user. An
/// error comes back as its display text. What comes back depends on the
/// platform credential store, so nothing is claimed of it.
#[verifier::external_body]
fn keyring_entry(service: &str, user: &str) -> Result<keyring::Entry, String> {
    match keyring::Entry::new(service, user) {
        Ok(entry) => Ok(entry),
        Err(e) => Err(e.to_string()),
    }
}

/// `keyring::Entry::get_password`: the password stored in the OS keyring,
/// `NoEntry` when there is none, or the store's failure as display text.
/// What comes back depends on the platform credential store, so nothing is
/// claimed of it.
#[verifier::external_body]
fn keyring_get_password(entry: &keyring::Entry) -> Result<String, KeyringFailure> {
    match entry.get_password() {
        Ok(password) => Ok(password),
        Err(keyring::Error::NoEntry) => Err(KeyringFailure::NoEntry),
        Err(e) => Err(KeyringFailure::Failed(e.to_string())),
    }
}

/// `keyring::Entry::set_password`: store a password in the OS keyring; an
/// error comes back as its display text. Whether it succeeds depends on the
/// platform credential store, so nothing is claimed of it.
#[verifier::external_body]
fn keyring_set_password(entry: &keyring::Entry, password: &str) -> Result<(), String> {
    match entry.set_password(password) {
        Ok(()) => Ok(()),
        Err(e) => Err(e.to_string()),
    }
}

/// `keyring::Entry::delete_credential`: remove the credential from the OS
/// keyring; `NoEntry` when there is none, or the store's failure as display
/// text. Whether it succeeds depends on the platform credential store, so
/// nothing is claimed of it.
#[verifier::external_body]
fn keyring_delete_credential(entry: &keyring::Entry) -> Result<(), KeyringFailure> {
    match entry.delete_credential() {
        Ok(()) => Ok(()),
        Err(keyring::Error::NoEntry) => Err(KeyringFailure::NoEntry),
        Err(e) => Err(KeyringFailure::Failed(e.to_string())),
    }
}

/// The keyring service under which provider keys are stored.
pub const KEYRING_SERVICE: &'static str = "com.hee10k.tajagi.api-keys";

/// Keyring-backed store for packaged builds: one OS keyring credential per
/// provider id.
pub struct KeyringApiKeyStore;

/// The keyring credential (service, user) holding a provider's key.
pub fn keyring_credential(provider_id: &str) -> (r: (&'static str, &str))
    ensures
        r.0@ == KEYRING_SERVICE@,
        r.1@ == provider_id@,
{
    (KEYRING_SERVICE, provider_id)
}

/// What a keyring delete answers for each outcome of the credential
/// removal: success, also when there was no credential (as a settings delete
/// is); a store error carrying the failure's text otherwise.
pub open spec fn keyring_delete_answer(removal: Result<(), KeyringFailure>) -> Result<(), SecretError> {
    match removal {
        Ok(()) => Ok(()),
        Err(KeyringFailure::NoEntry) => Ok(()),
        Err(KeyringFailure::Failed(msg)) => Err(SecretError::Store(msg)),
    }
}

/// The answer of a keyring delete, given how the credential removal went.
pub fn keyring_delete_result(removal: Result<(), KeyringFailure>) -> (r: Result<(), SecretError>)
    ensures
        r == keyring_delete_answer(removal),
{
    match removal {
        Ok(()) => Ok(()),
        Err(KeyringFailure::NoEntry) => Ok(()),
        Err(KeyringFailure::Failed(msg)) => Err(SecretError::Store(msg)),
    }
}

/// What a keyring read answers for each outcome of the password read: the
/// password as the key, no key for a missing credential, and a store error
/// carrying the failure's text otherwise.
pub open spec fn keyring_read_answer(read: Result<String, KeyringFailure>) -> Result<
    Option<String>,
    SecretError,
> {
    match read {
        Ok(key) => Ok(Some(key)),
        Err(KeyringFailure::NoEntry) => Ok(None),
        Err(KeyringFailure::Failed(msg)) => Err(SecretError::Store(msg)),
    }
}

/// The answer of a keyring read, given how the password read went.
pub fn keyring_read_result(read: Result<String, KeyringFailure>) -> (r: Result<
    Option<String>,
    SecretError,
>)
    ensures
        r == keyring_read_answer(read),
{
    match read {
        Ok(key) => Ok(Some(key)),
        Err(KeyringFailure::NoEntry) => Ok(None),
        Err(KeyringFailure::Failed(msg)) => Err(SecretError::Store(msg)),
    }
}

/// The answer of a keyring write (or of opening the entry), given how it
/// went: success, or a store error carrying the failure's text.
pub fn keyring_write_result<T>(write: Result<T, String>) -> (r: Result<T, SecretError>)
    ensures
        r == match write {
            Ok(v) => Ok::<T, SecretError>(v),
            Err(msg) => Err(SecretError::Store(msg)),
        },
{
    match write {
        Ok(v) => Ok(v),
        Err(msg) => Err(SecretError::Store(msg)),
    }
}

/// The OS keyring is outside the program: no model of it is kept.
impl ApiKeyStore for KeyringApiKeyStore {
    /// The stored key; a missing credential reads as no key, any other
    /// failure as a store error carrying the failure's text.
    fn get(&self, provider_id: &str) -> (r: Result<Option<String>, SecretError>)
        ensures
            r matches Err(e) ==> e is Store,
    {
        let (service, user) = keyring_credential(provider_id);
        let entry = keyring_write_result(keyring_entry(service, user))?;
        keyring_read_result(keyring_get_password(&entry))
    }

    fn set(&mut self, provider_id: &str, key: &str) -> (r: Result<(), SecretError>)
        ensures
            r matches Err(e) ==> e is Store,
    {
        let (service, user) = keyring_credential(provider_id);
        let entry = keyring_write_result(keyring_entry(service, user))?;
        keyring_write_result(keyring_set_password(&entry, key))
    }

    /// Deleting a missing credential is a no-op success, as a settings
    /// delete is; any other removal failure is reported.
    fn delete(&mut self, provider_id: &str) -> (r: Result<(), SecretError>)
        ensures
            r matches Err(e) ==> e is Store,
    {
        let (service, user) = keyring_credential(provider_id);
        let entry = keyring_write_result(keyring_entry(service, user))?;
        keyring_delete_result(keyring_delete_credential(&entry))
    }
}

/// The key `get_api_key` resolves for `id` from model-keeping stores: the
/// keyring's when it holds one, else the settings table's.
pub open spec fn layered_key(
    keyring: Option<Map<Seq<char>, Seq<char>>>,
    settings: Map<Seq<char>, Seq<char>>,
    id: Seq<char>,
) -> Option<Seq<char>> {
    match keyring {
        Some(k) => if k.contains_key(id) {
            key_for(k, id)
        } else {
            key_for(settings, id)
        },
        None => key_for(settings, id),
    }
}

/// The usable keys of an optional store.
pub open spec fn model_of<K: ApiKeyStore>(store: Option<K>) -> Option<Map<Seq<char>, Seq<char>>> {
    match store {
        Some(k) => Some(keys_of(k)),
        None => None,
    }
}

/// The entries of an optional store.
pub open spec fn entries_of<K: ApiKeyStore>(store: Option<K>) -> Option<Map<Seq<char>, Seq<char>>> {
    match store {
        Some(k) => Some(k.entries()),
        None => None,
    }
}

/// Whether an optional store is absent or keeps its model.
pub open spec fn absent_or_modelled<K: ApiKeyStore>(store: Option<K>) -> bool {
    match store {
        Some(k) => k.keeps_model(),
        None => true,
    }
}

/// Whether an optional store is absent or never fails.
pub open spec fn absent_or_infallible<K: ApiKeyStore>(store: Option<K>) -> bool {
    match store {
        Some(k) => k.never_fails(),
        None => true,
    }
}

/// What a keyring read settles: a failure is the answer as it is, and so is
/// a key; no key leaves the answer to the settings store (`None`).
pub open spec fn keyring_read_settles(read: Result<Option<String>, SecretError>) -> Option<
    Result<Option<String>, SecretError>,
> {
    match read {
        Err(e) => Some(Err(e)),
        Ok(Some(key)) => Some(Ok(Some(key))),
        Ok(None) => None,
    }
}

/// The answer to a key lookup once the keyring has been read: a keyring
/// failure is returned as it is, and so is a keyring key; when the keyring
/// holds no key, the settings store is read.
pub fn answer_after_keyring_read<S: ApiKeyStore>(
    keyring_read: Result<Option<String>, SecretError>,
    settings: &S,
    provider_id: &str,
) -> (r: Result<Option<String>, SecretError>)
    ensures
        keyring_read_settles(keyring_read) matches Some(answer) ==> r == answer,
        keyring_read_settles(keyring_read) is None && settings.keeps_model() ==> (r matches Ok(o)
            ==> opt_string_view(o) == key_for(keys_of(*settings), provider_id@)),
        keyring_read_settles(keyring_read) is None && settings.never_fails() ==> r is Ok,
{
    match keyring_read {
        Err(e) => Err(e),
        Ok(Some(key)) => Ok(Some(key)),
        Ok(None) => settings.get(provider_id),
    }
}

/// Resolve the API key for a provider: the keyring store, when one is in
/// use, is read first; its failure is returned as is and its key wins; when
/// it holds none, the settings store is read.
pub fn get_api_key<K: ApiKeyStore, S: ApiKeyStore>(
    keyring: &Option<K>,
    settings: &S,
    provider_id: &str,
) -> (r: Result<Option<String>, SecretError>)
    ensures
        settings.keeps_model() ==> (r matches Ok(None) ==> key_for(
            keys_of(*settings),
            provider_id@,
        ) is None),
        absent_or_modelled(*keyring) && settings.keeps_model() ==> (r matches Ok(o)
            ==> opt_string_view(o) == layered_key(model_of(*keyring), keys_of(*settings), provider_id@)),
        absent_or_infallible(*keyring) && settings.never_fails() ==> r is Ok,
{
    match keyring {
        Some(k) => answer_after_keyring_read(k.get(provider_id), settings, provider_id),
        None => settings.get(provider_id),
    }
}

/// Write an API key: into the keyring store when one is in use (the
/// settings store is then left as it is), else into the settings store.
pub fn set_api_key<K: ApiKeyStore, S: ApiKeyStore>(
    keyring: &mut Option<K>,
    settings: &mut S,
    provider_id: &str,
    key: &str,
) -> (r: Result<(), SecretError>)
    ensures
        *old(keyring) is Some <==> *final(keyring) is Some,
        *old(keyring) is Some ==> *final(settings) == *old(settings),
        *old(keyring) is None ==> *final(keyring) == *old(keyring),
        *old(keyring) is None && old(settings).keeps_model() ==> final(settings).keeps_model()
            && final(settings).entries() == if r is Ok {
            old(settings).entries().insert(provider_id@, key@)
        } else {
            old(settings).entries()
        },
        *old(keyring) is Some && absent_or_modelled(*old(keyring)) ==> absent_or_modelled(
            *final(keyring),
        ) && entries_of(*final(keyring)) == if r is Ok {
            Some(entries_of(*old(keyring))->0.insert(provider_id@, key@))
        } else {
            entries_of(*old(keyring))
        },
        absent_or_infallible(*old(keyring)) && old(settings).never_fails() ==> r is Ok,
{
    match keyring {
        Some(k) => {
            k.set(provider_id, key)
        },
        None => settings.set(provider_id, key),
    }
}

/// Delete an API key: from the keyring store when one is in use, and then
/// from the settings store, so that a copy left there cannot linger; the
/// settings table keeps an empty entry for the provider. A keyring failure
/// stops before the settings store is touched.
pub fn delete_api_key<K: ApiKeyStore, S: ApiKeyStore>(
    keyring: &mut Option<K>,
    settings: &mut S,
    provider_id: &str,
) -> (r: Result<(), SecretError>)
    ensures
        *old(keyring) is Some <==> *final(keyring) is Some,
        *old(keyring) is None ==> *final(keyring) == *old(keyring),
        old(settings).keeps_model() ==> final(settings).keeps_model() && (r is Ok
            ==> final(settings).entries() == old(settings).entries().insert(
            provider_id@,
            Seq::empty(),
        )) && (r is Err ==> final(settings).entries() == old(settings).entries()),
        *old(keyring) is Some && absent_or_modelled(*old(keyring)) ==> absent_or_modelled(
            *final(keyring),
        ) && (r is Ok ==> entries_of(*final(keyring)) == Some(
            entries_of(*old(keyring))->0.insert(provider_id@, Seq::empty()),
        )) && (entries_of(*final(keyring)) == entries_of(*old(keyring)) || entries_of(
            *final(keyring),
        ) == Some(entries_of(*old(keyring))->0.insert(provider_id@, Seq::empty()))),
        absent_or_infallible(*old(keyring)) && old(settings).never_fails() ==> r is Ok,
{
    match keyring {
        Some(k) => {
            match k.delete(provider_id) {
                Ok(()) => {},
                Err(e) => {
                    return Err(e);
                },
            }
        },
        None => {},
    }
    settings.delete(provider_id)
}

/// The provider ids carrying a non-blank key in the settings key table,
/// each once: the providers the migration is scheduled for.
pub fn provider_ids_with_keys(api_keys: &StringMap) -> (r: Vec<String>)
    ensures
        forall|i: int, j: int| 0 <= i < j < r@.len() ==> r@[i]@ != r@[j]@,
        forall|k: Seq<char>|
            (exists|i: int| 0 <= i < r@.len() && #[trigger] r@[i]@ == k) <==> has_key(api_keys@, k),
{
    api_keys.non_blank_keys()
}

/// Result of a one-way migration from the settings table into a better
/// store. `migrated` is the number of keys that were actually moved;
/// `skipped` counts providers that already had a key in the destination (so
/// a newer value is not clobbered with the stale settings copy).
pub struct MigrationReport {
    pub migrated: usize,
    pub skipped: usize,
    /// How each listed provider's migration ended, in list order.
    pub outcomes: Vec<ProviderOutcome>,
    /// What each listed provider's migration observed, in list order.
    pub trace: Ghost<Seq<ProviderTrace>>,
}

/// How the migration of one provider ended.
#[derive(Debug, Clone, Copy, PartialEq, Eq, Structural)]
pub enum ProviderOutcome {
    /// The destination already held a usable key: nothing was touched.
    Skipped,
    /// The source key was written to the destination and deleted from the
    /// source.
    Moved,
    /// Nothing was moved: the destination could not be read, the source had
    /// no usable key, or the destination write failed.
    Left,
}

/// What one provider's migration observed: the destination read; the source
/// read, made only when the destination holds no usable key; the destination
/// write of the source key, made only when the source read gave a usable
/// key; and the source delete, made only when that write succeeded.
pub type ProviderTrace = (
    Result<Option<String>, SecretError>,
    Option<Result<Option<String>, SecretError>>,
    Option<Result<(), SecretError>>,
    Option<Result<(), SecretError>>,
);

/// What to do once the destination has been read.
#[derive(Debug, Clone, Copy, PartialEq, Eq, Structural)]
pub enum DestinationVerdict {
    /// It holds a usable key: skip the provider.
    Skip,
    /// It could not be read: leave the provider alone.
    Leave,
    /// It holds no usable key: read the source.
    ReadSource,
}

/// The verdict on a destination read.
pub open spec fn destination_verdict(read: Result<Option<String>, SecretError>) -> DestinationVerdict {
    match read {
        Ok(Some(k)) => if is_blank(k@) {
            DestinationVerdict::ReadSource
        } else {
            DestinationVerdict::Skip
        },
        Ok(None) => DestinationVerdict::ReadSource,
        Err(_) => DestinationVerdict::Leave,
    }
}

/// The key a source read offers to move: a usable key, nothing otherwise.
pub open spec fn key_to_move(read: Result<Option<String>, SecretError>) -> Option<String> {
    match read {
        Ok(Some(k)) => if is_blank(k@) {
            None
        } else {
            Some(k)
        },
        _ => None,
    }
}

/// How a provider's migration ends, given what it observed.
pub open spec fn provider_outcome(t: ProviderTrace) -> ProviderOutcome {
    outcome_of(t.0, t.1, t.2)
}

/// How a provider's migration ends, given the destination read, the source
/// read (if made) and the destination write (if made).
pub open spec fn outcome_of(
    dest_read: Result<Option<String>, SecretError>,
    source_read: Option<Result<Option<String>, SecretError>>,
    write: Option<Result<(), SecretError>>,
) -> ProviderOutcome {
    match destination_verdict(dest_read) {
        DestinationVerdict::Skip => ProviderOutcome::Skipped,
        DestinationVerdict::Leave => ProviderOutcome::Left,
        DestinationVerdict::ReadSource => match source_read {
            Some(source_read) => match key_to_move(source_read) {
                Some(_) => match write {
                    Some(Ok(())) => ProviderOutcome::Moved,
                    _ => ProviderOutcome::Left,
                },
                None => ProviderOutcome::Left,
            },
            None => ProviderOutcome::Left,
        },
    }
}

/// The calls a trace records are the ones the rules allow: the source is
/// read exactly when the destination holds no usable key, the destination
/// written exactly when the source gave a usable key, and the source deleted
/// exactly when that write succeeded.
pub open spec fn trace_follows_rules(t: ProviderTrace) -> bool {
    &&& (t.1 is Some <==> destination_verdict(t.0) == DestinationVerdict::ReadSource)
    &&& (t.2 is Some <==> (t.1 is Some && key_to_move(t.1->0) is Some))
    &&& (t.3 is Some <==> t.2 matches Some(Ok(_)))
}

/// The reads a trace records agree with what model-keeping stores with
/// these entries hold for `id`.
pub open spec fn reads_agree(
    src: Map<Seq<char>, Seq<char>>,
    dst: Map<Seq<char>, Seq<char>>,
    id: Seq<char>,
    t: ProviderTrace,
) -> bool {
    &&& (t.0 matches Ok(o) ==> opt_string_view(o) == key_for(usable_keys(dst), id))
    &&& (t.1 matches Some(Ok(o)) ==> opt_string_view(o) == key_for(usable_keys(src), id))
}

/// The entries of model-keeping source and destination stores after one
/// provider's recorded calls: a successful write stores the source key in
/// the destination, a successful delete stores an empty entry in the
/// source; failed or absent calls change nothing.
pub open spec fn replay_step(
    src: Map<Seq<char>, Seq<char>>,
    dst: Map<Seq<char>, Seq<char>>,
    id: Seq<char>,
    t: ProviderTrace,
) -> (Map<Seq<char>, Seq<char>>, Map<Seq<char>, Seq<char>>) {
    (
        if t.3 matches Some(Ok(_)) {
            src.insert(id, Seq::empty())
        } else {
            src
        },
        if t.2 matches Some(Ok(_)) {
            dst.insert(id, key_to_move(t.1->0)->0@)
        } else {
            dst
        },
    )
}

/// The entries after the recorded calls of every provider, in order.
pub open spec fn replay(
    src: Map<Seq<char>, Seq<char>>,
    dst: Map<Seq<char>, Seq<char>>,
    ids: Seq<Seq<char>>,
    trace: Seq<ProviderTrace>,
) -> (Map<Seq<char>, Seq<char>>, Map<Seq<char>, Seq<char>>)
    decreases ids.len(),
{
    if ids.len() == 0 || trace.len() == 0 {
        (src, dst)
    } else {
        let (s, d) = replay(src, dst, ids.drop_last(), trace.drop_last());
        replay_step(s, d, ids.last(), trace.last())
    }
}

/// Every recorded read agrees with the entries the stores held when it was
/// made.
pub open spec fn replay_agrees(
    src: Map<Seq<char>, Seq<char>>,
    dst: Map<Seq<char>, Seq<char>>,
    ids: Seq<Seq<char>>,
    trace: Seq<ProviderTrace>,
) -> bool
    decreases ids.len(),
{
    if ids.len() == 0 || trace.len() == 0 {
        true
    } else {
        let (s, d) = replay(src, dst, ids.drop_last(), trace.drop_last());
        replay_agrees(src, dst, ids.drop_last(), trace.drop_last()) && reads_agree(
            s,
            d,
            ids.last(),
            trace.last(),
        )
    }
}

/// One provider's recorded migration, replayed on model-keeping stores whose
/// reads it agrees with: a destination that held a usable key is not
/// written and neither store changes; a provider whose destination write
/// failed (or was never made) keeps its source entry and changes neither
/// store; a successful write stores exactly the usable key the source held,
/// into a destination that held none, and the source entry is emptied only
/// when its delete succeeded.
pub proof fn law_provider_migration_step(
    src: Map<Seq<char>, Seq<char>>,
    dst: Map<Seq<char>, Seq<char>>,
    id: Seq<char>,
    t: ProviderTrace,
)
    requires
        trace_follows_rules(t),
        reads_agree(src, dst, id, t),
    ensures
        t.0 is Ok && has_key(usable_keys(dst), id) ==> t.2 is None && replay_step(src, dst, id, t)
            == (src, dst),
        !(t.2 matches Some(Ok(_))) ==> replay_step(src, dst, id, t) == (src, dst),
        t.2 matches Some(Ok(_)) ==> {
            &&& has_key(usable_keys(src), id)
            &&& !usable_keys(dst).contains_key(id)
            &&& replay_step(src, dst, id, t).1 == dst.insert(id, usable_keys(src)[id])
            &&& replay_step(src, dst, id, t).0 == if t.3 matches Some(Ok(_)) {
                src.insert(id, Seq::empty())
            } else {
                src
            }
        },
{
}

/// The verdict on a destination read.
pub fn after_destination_read(read: &Result<Option<String>, SecretError>) -> (r: DestinationVerdict)
    ensures
        r == destination_verdict(*read),
{
    match read {
        Ok(Some(k)) => {
            if is_blank_str(k.as_str()) {
                DestinationVerdict::ReadSource
            } else {
                DestinationVerdict::Skip
            }
        },
        Ok(None) => DestinationVerdict::ReadSource,
        Err(_) => DestinationVerdict::Leave,
    }
}

/// The key a source read offers to move.
pub fn after_source_read(read: &Result<Option<String>, SecretError>) -> (r: Option<String>)
    ensures
        r == key_to_move(*read),
{
    match read {
        Ok(Some(k)) => {
            if is_blank_str(k.as_str()) {
                None
            } else {
                Some(k.clone())
            }
        },
        _ => None,
    }
}

/// How a provider's migration ends, given the destination read, the source
/// read (if made) and the destination write (if made): skipped on a usable
/// destination key; moved when the source gave a usable key and its write
/// succeeded; left alone otherwise.
pub fn migration_outcome(
    dest_read: &Result<Option<String>, SecretError>,
    source_read: Option<&Result<Option<String>, SecretError>>,
    write: Option<&Result<(), SecretError>>,
) -> (r: ProviderOutcome)
    ensures
        r == outcome_of(*dest_read, opt_deref(source_read), opt_deref(write)),
{
    match after_destination_read(dest_read) {
        DestinationVerdict::Skip => ProviderOutcome::Skipped,
        DestinationVerdict::Leave => ProviderOutcome::Left,
        DestinationVerdict::ReadSource => match source_read {
            Some(sr) => match after_source_read(sr) {
                Some(_) => match write {
                    Some(Ok(())) => ProviderOutcome::Moved,
                    _ => ProviderOutcome::Left,
                },
                None => ProviderOutcome::Left,
            },
            None => ProviderOutcome::Left,
        },
    }
}

/// The value an optional reference points at.
pub open spec fn opt_deref<T>(o: Option<&T>) -> Option<T> {
    match o {
        Some(x) => Some(*x),
        None => None,
    }
}

/// How many of the outcomes are `o`.
pub open spec fn count_outcome(s: Seq<ProviderOutcome>, o: ProviderOutcome) -> nat
    decreases s.len(),
{
    if s.len() == 0 {
        0
    } else {
        count_outcome(s.drop_last(), o) + if s.last() == o {
            1nat
        } else {
            0nat
        }
    }
}

/// `keys` holds a usable (non-blank) key for `id`.
pub open spec fn has_key(keys: Map<Seq<char>, Seq<char>>, id: Seq<char>) -> bool {
    keys.contains_key(id) && !is_blank(keys[id])
}

/// The migration state: source keys, destination keys, moved count,
/// skipped count.
pub type MigrationModel = (Map<Seq<char>, Seq<char>>, Map<Seq<char>, Seq<char>>, nat, nat);

/// One provider of the migration: a destination key wins and the provider is
/// skipped; otherwise a source key is moved over and cleared from the source;
/// otherwise nothing happens.
pub open spec fn migrate_step(state: MigrationModel, id: Seq<char>) -> MigrationModel {
    let (src, dst, moved, skipped) = state;
    if has_key(dst, id) {
        (src, dst, moved, skipped + 1)
    } else if has_key(src, id) {
        (src.remove(id), dst.insert(id, src[id]), moved + 1, skipped)
    } else {
        state
    }
}

/// The migration over a list of provider ids, in order.
pub open spec fn migrate_spec(
    src: Map<Seq<char>, Seq<char>>,
    dst: Map<Seq<char>, Seq<char>>,
    ids: Seq<Seq<char>>,
) -> MigrationModel
    decreases ids.len(),
{
    if ids.len() == 0 {
        (src, dst, 0, 0)
    } else {
        migrate_step(migrate_spec(src, dst, ids.drop_last()), ids.last())
    }
}

/// The views of the provider ids.
pub open spec fn id_views(ids: Seq<String>) -> Seq<Seq<char>> {
    ids.map_values(|id: String| id@)
}

/// Move non-empty provider keys from `source` into `dest`, then clear the
/// moved keys from `source`. Keys already present in `dest` are left
/// untouched on both sides (the destination is authoritative once
/// populated). A provider whose destination cannot be read, or whose key
/// cannot be written, is left as it is: its source key is deleted only after
/// the destination write succeeded.
///
/// For stores that keep their model, the recorded trace is tied to the
/// stores: its reads are what the stores held, and the stores end as the
/// replay of its successful writes and deletes says. For stores that also
/// never fail, the result is the migration model `migrate_spec`.
pub fn migrate_secret_map<S: ApiKeyStore, D: ApiKeyStore>(
    source: &mut S,
    dest: &mut D,
    providers: &[String],
) -> (r: MigrationReport)
    ensures
        r.migrated + r.skipped <= providers@.len(),
        r.outcomes@.len() == providers@.len(),
        r.trace@.len() == providers@.len(),
        forall|i: int|
            0 <= i < providers@.len() ==> trace_follows_rules(#[trigger] r.trace@[i])
                && r.outcomes@[i] == provider_outcome(r.trace@[i]),
        r.migrated == count_outcome(r.outcomes@, ProviderOutcome::Moved),
        r.skipped == count_outcome(r.outcomes@, ProviderOutcome::Skipped),
        old(source).keeps_model() && old(dest).keeps_model() ==> {
            &&& final(source).keeps_model()
            &&& final(dest).keeps_model()
            &&& replay_agrees(
                old(source).entries(),
                old(dest).entries(),
                id_views(providers@),
                r.trace@,
            )
            &&& (final(source).entries(), final(dest).entries()) == replay(
                old(source).entries(),
                old(dest).entries(),
                id_views(providers@),
                r.trace@,
            )
        },
        old(source).keeps_model() && old(dest).keeps_model() && old(source).never_fails()
            && old(dest).never_fails() ==> ({
            let (src, dst, moved, skipped) = migrate_spec(
                keys_of(*old(source)),
                keys_of(*old(dest)),
                id_views(providers@),
            );
            &&& keys_of(*final(source)) == src
            &&& keys_of(*final(dest)) == dst
            &&& r.migrated == moved
            &&& r.skipped == skipped
        }),
{
    let ghost modelled = source.keeps_model() && dest.keeps_model();
    let ghost infallible = modelled && source.never_fails() && dest.never_fails();
    let ghost src0 = source.entries();
    let ghost dst0 = dest.entries();
    let ghost ids = id_views(providers@);
    let ghost mut trace: Seq<ProviderTrace> = Seq::empty();
    let mut outcomes: Vec<ProviderOutcome> = Vec::new();
    let mut migrated: usize = 0;
    let mut skipped: usize = 0;
    let mut i: usize = 0;
    while i < providers.len()
        invariant
            i <= providers@.len(),
            ids == id_views(providers@),
            migrated + skipped <= i,
            outcomes@.len() == i,
            trace.len() == i,
            forall|j: int|
                0 <= j < i ==> trace_follows_rules(#[trigger] trace[j]) && outcomes@[j]
                    == provider_outcome(trace[j]),
            migrated == count_outcome(outcomes@, ProviderOutcome::Moved),
            skipped == count_outcome(outcomes@, ProviderOutcome::Skipped),
            modelled == (old(source).keeps_model() && old(dest).keeps_model()),
            infallible == (modelled && old(source).never_fails() && old(dest).never_fails()),
            src0 == old(source).entries(),
            dst0 == old(dest).entries(),
            modelled ==> source.keeps_model() && dest.keeps_model() && replay_agrees(
                src0,
                dst0,
                ids.take(i as int),
                trace,
            ) && (source.entries(), dest.entries()) == replay(src0, dst0, ids.take(i as int), trace),
            infallible ==> source.never_fails() && dest.never_fails() && (
                keys_of(*source),
                keys_of(*dest),
                migrated as nat,
                skipped as nat,
            ) == migrate_spec(usable_keys(src0), usable_keys(dst0), ids.take(i as int)),
        decreases providers@.len() - i,
    {
        let id = providers[i].as_str();
        let ghost prev = migrate_spec(usable_keys(src0), usable_keys(dst0), ids.take(i as int));
        let ghost src_before = source.entries();
        let ghost dst_before = dest.entries();
        let ghost trace_before = trace;
        assert(ids.take(i + 1).drop_last() =~= ids.take(i as int));
        assert(ids.take(i + 1).last() == id@);
        let dest_read = dest.get(id);
        let mut source_read: Option<Result<Option<String>, SecretError>> = None;
        let mut write: Option<Result<(), SecretError>> = None;
        let mut delete: Option<Result<(), SecretError>> = None;
        match after_destination_read(&dest_read) {
            DestinationVerdict::ReadSource => {
                let read = source.get(id);
                let key = after_source_read(&read);
                source_read = Some(read);
                match key {
                    Some(k) => {
                        let written = dest.set(id, k.as_str());
                        if written.is_ok() {
                            delete = Some(source.delete(id));
                        }
                        write = Some(written);
                    },
                    None => {},
                }
            },
            _ => {},
        }
        let outcome = migration_outcome(&dest_read, source_read.as_ref(), write.as_ref());
        let ghost step = (dest_read, source_read, write, delete);
        let ghost before = outcomes@;
        outcomes.push(outcome);
        proof {
            trace = trace.push(step);
            assert(outcomes@.drop_last() =~= before);
            assert(trace.drop_last() =~= trace_before);
        }
        match outcome {
            ProviderOutcome::Moved => {
                migrated += 1;
            },
            ProviderOutcome::Skipped => {
                skipped += 1;
            },
            ProviderOutcome::Left => {},
        }
        proof {
            assert forall|j: int|
                0 <= j < i + 1 implies trace_follows_rules(#[trigger] trace[j]) && outcomes@[j]
                == provider_outcome(trace[j]) by {
                if j < i {
                    assert(outcomes@[j] == before[j]);
                    assert(trace[j] == trace_before[j]);
                }
            }
            if modelled {
                let next_ids = ids.take(i + 1);
                assert(replay(src0, dst0, next_ids, trace) == replay_step(
                    src_before,
                    dst_before,
                    id@,
                    step,
                ));
            }
            if infallible {
                let (s1, d1, m1, k1) = migrate_step(prev, id@);
                lemma_usable_insert(src_before, id@, Seq::empty());
                if write is Some {
                    let k = key_to_move(source_read->0)->0;
                    lemma_usable_insert(dst_before, id@, k@);
                }
                assert(keys_of(*source) =~= s1);
                assert(keys_of(*dest) =~= d1);
            }
        }
        i += 1;
    }
    assert(ids.take(providers@.len() as int) =~= ids);
    MigrationReport { migrated, skipped, outcomes, trace: Ghost(trace) }
}

/// What the migration does to each provider id: a listed id with a usable
/// source key and no usable destination key ends with the source key in the
/// destination and no key in the source; every other id keeps what both
/// stores held. Destination keys are never clobbered.
pub proof fn law_migration_moves_keys_and_never_clobbers(
    src: Map<Seq<char>, Seq<char>>,
    dst: Map<Seq<char>, Seq<char>>,
    ids: Seq<Seq<char>>,
    id: Seq<char>,
)
    ensures
        ({
            let (s, d, moved, skipped) = migrate_spec(src, dst, ids);
            &&& moved + skipped <= ids.len()
            &&& (ids.contains(id) && !has_key(dst, id) && has_key(src, id)) ==> (d.contains_key(id)
                && d[id] == src[id] && !s.contains_key(id))
            &&& !(ids.contains(id) && !has_key(dst, id) && has_key(src, id)) ==> (d.get(id)
                == dst.get(id) && s.get(id) == src.get(id))
        }),
    decreases ids.len(),
{
    if ids.len() > 0 {
        let prefix = ids.drop_last();
        law_migration_moves_keys_and_never_clobbers(src, dst, prefix, id);
        assert(ids.contains(id) <==> (prefix.contains(id) || ids.last() == id)) by {
            if ids.contains(id) {
                let j = choose|j: int| 0 <= j < ids.len() && ids[j] == id;
                if j < ids.len() - 1 {
                    assert(prefix[j] == id);
                }
            }
            if prefix.contains(id) {
                let j = choose|j: int| 0 <= j < prefix.len() && prefix[j] == id;
                assert(ids[j] == id);
            }
        }
    }
}


/// How many entries of `ids` have a usable key in `keys` (repeats counted).
pub open spec fn count_with_key(keys: Map<Seq<char>, Seq<char>>, ids: Seq<Seq<char>>) -> nat
    decreases ids.len(),
{
    if ids.len() == 0 {
        0
    } else {
        count_with_key(keys, ids.drop_last()) + if has_key(keys, ids.last()) {
            1nat
        } else {
            0nat
        }
    }
}

proof fn lemma_migration_settled(
    src: Map<Seq<char>, Seq<char>>,
    dst: Map<Seq<char>, Seq<char>>,
    ids: Seq<Seq<char>>,
)
    requires
        forall|j: int| 0 <= j < ids.len() ==> has_key(dst, #[trigger] ids[j]) || !has_key(src, ids[j]),
    ensures
        migrate_spec(src, dst, ids) == (src, dst, 0nat, count_with_key(dst, ids)),
    decreases ids.len(),
{
    if ids.len() > 0 {
        let prefix = ids.drop_last();
        assert forall|j: int| 0 <= j < prefix.len() implies has_key(dst, #[trigger] prefix[j])
            || !has_key(src, prefix[j]) by {
            assert(prefix[j] == ids[j]);
        }
        lemma_migration_settled(src, dst, prefix);
        assert(ids.last() == ids[ids.len() - 1]);
    }
}

/// A second migration over the same providers moves nothing, skips exactly
/// the listed providers (repeats counted) whose destination holds a usable
/// key, and leaves both stores as the first run left them.
pub proof fn law_second_migration_changes_nothing(
    src: Map<Seq<char>, Seq<char>>,
    dst: Map<Seq<char>, Seq<char>>,
    ids: Seq<Seq<char>>,
)
    ensures
        ({
            let (s1, d1, m1, k1) = migrate_spec(src, dst, ids);
            migrate_spec(s1, d1, ids) == (s1, d1, 0nat, count_with_key(d1, ids))
        }),
{
    let (s1, d1, m1, k1) = migrate_spec(src, dst, ids);
    assert forall|j: int| 0 <= j < ids.len() implies has_key(d1, #[trigger] ids[j]) || !has_key(
        s1,
        ids[j],
    ) by {
        let id = ids[j];
        law_migration_moves_keys_and_never_clobbers(src, dst, ids, id);
        assert(ids.contains(id));
    }
    lemma_migration_settled(s1, d1, ids);
}

/// A deleted key reads as no key: deleting writes an empty entry, which is
/// left in the table and read back as nothing, and other providers read as
/// before.
pub proof fn law_deleted_key_reads_as_none(
    raw: Map<Seq<char>, Seq<char>>,
    id: Seq<char>,
    other: Seq<char>,
)
    requires
        other != id,
    ensures
        raw.insert(id, Seq::empty())[id] == Seq::<char>::empty(),
        key_for(usable_keys(raw.insert(id, Seq::empty())), id) is None,
        key_for(usable_keys(raw.insert(id, Seq::empty())), other) == key_for(usable_keys(raw), other),
{
}

} // verus!
