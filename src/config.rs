//! Configuration of a session store: where records live and how a session
//! key becomes a storage key.

use vstd::prelude::*;
use vstd::string::*;

verus! {

/// A pure mapping from the session key that callers see to the key under
/// which the record is stored (for instance, to place sessions in a
/// namespace). Every store operation passes its key through it.
pub trait KeyDerivation {
    /// The storage key of the session key `key`.
    spec fn derive_spec(&self, key: Seq<char>) -> Seq<char>;

    /// The storage key of the session key `key`.
    fn derive(&self, key: &str) -> (r: String)
        ensures
            r@ == self.derive_spec(key@),
    ;
}

/// The derivation that puts a fixed prefix in front of the session key; an
/// empty prefix leaves keys as they are.
#[derive(Clone, Debug)]
pub struct KeyPrefix {
    pub prefix: String,
}

impl KeyPrefix {
    /// The derivation with the given prefix.
    pub fn new(prefix: String) -> (r: KeyPrefix)
        ensures
            r.prefix@ == prefix@,
    {
        KeyPrefix { prefix }
    }
}

impl KeyDerivation for KeyPrefix {
    open spec fn derive_spec(&self, key: Seq<char>) -> Seq<char> {
        self.prefix@ + key
    }

    fn derive(&self, key: &str) -> (r: String) {
        let mut r = self.prefix.clone();
        r.append(key);
        r
    }
}

/// A prefix derivation maps distinct session keys to distinct storage keys.
pub proof fn lemma_prefix_injective(derivation: KeyPrefix, a: Seq<char>, b: Seq<char>)
    requires
        a != b,
    ensures
        derivation.derive_spec(a) != derivation.derive_spec(b),
{
    let p = derivation.prefix@;
    if derivation.derive_spec(a) == derivation.derive_spec(b) {
        assert((p + a).subrange(p.len() as int, (p + a).len() as int) =~= a);
        assert((p + b).subrange(p.len() as int, (p + b).len() as int) =~= b);
    }
}

/// The configuration bundle of a session store: the key derivation through
/// which every session key passes before it reaches storage, the table, the
/// names of the key, expiry and payload attributes, and the backend endpoint
/// used for local testing.
#[derive(Clone, Debug)]
pub struct CacheConfiguration<D> {
    pub cache_keygen: D,
    pub table_name: String,
    pub key_name: String,
    pub ttl_name: String,
    pub session_data_name: String,
    pub use_dynamo_db_local: bool,
    pub dynamo_db_local_endpoint: String,
}

impl CacheConfiguration<KeyPrefix> {
    /// The default configuration: the identity derivation (an empty prefix),
    /// table `sessions`, key attribute `SessionId`, expiry attribute `ttl`,
    /// payload attribute `session_data`, and the local endpoint
    /// `http://localhost:8000`, not in use.
    pub open spec fn is_default(&self) -> bool {
        &&& self.cache_keygen.prefix@ == Seq::<char>::empty()
        &&& self.table_name@ == "sessions"@
        &&& self.key_name@ == "SessionId"@
        &&& self.ttl_name@ == "ttl"@
        &&& self.session_data_name@ == "session_data"@
        &&& !self.use_dynamo_db_local
        &&& self.dynamo_db_local_endpoint@ == "http://localhost:8000"@
    }

    /// The default configuration.
    pub fn new() -> (r: CacheConfiguration<KeyPrefix>)
        ensures
            r.is_default(),
    {
        CacheConfiguration {
            cache_keygen: KeyPrefix { prefix: String::new() },
            table_name: String::from_str("sessions"),
            key_name: String::from_str("SessionId"),
            ttl_name: String::from_str("ttl"),
            session_data_name: String::from_str("session_data"),
            use_dynamo_db_local: false,
            dynamo_db_local_endpoint: String::from_str("http://localhost:8000"),
        }
    }
}

impl<D: KeyDerivation> CacheConfiguration<D> {
    /// The storage key of a session key.
    pub open spec fn storage_key_spec(&self, key: Seq<char>) -> Seq<char> {
        self.cache_keygen.derive_spec(key)
    }

    /// The storage key under which the session `key` is kept.
    pub fn storage_key(&self, key: &str) -> (r: String)
        ensures
            r@ == self.storage_key_spec(key@),
    {
        self.cache_keygen.derive(key)
    }
}

impl Default for CacheConfiguration<KeyPrefix> {
    /// The default configuration, as `CacheConfiguration::new` gives it.
    fn default() -> (r: CacheConfiguration<KeyPrefix>)
        ensures
            r.is_default(),
    {
        CacheConfiguration::new()
    }
}

/// A fluent builder of a session store's configuration, starting from the
/// defaults of `CacheConfiguration::new`.
#[must_use]
#[derive(Clone, Debug)]
pub struct DynamoDbSessionStoreBuilder<D> {
    configuration: CacheConfiguration<D>,
}

impl<D> View for DynamoDbSessionStoreBuilder<D> {
    type V = CacheConfiguration<D>;

    closed spec fn view(&self) -> CacheConfiguration<D> {
        self.configuration
    }
}

impl DynamoDbSessionStoreBuilder<KeyPrefix> {
    /// A builder holding the default configuration.
    pub fn new() -> (r: DynamoDbSessionStoreBuilder<KeyPrefix>)
        ensures
            r@.is_default(),
    {
        DynamoDbSessionStoreBuilder { configuration: CacheConfiguration::new() }
    }
}

impl<D> DynamoDbSessionStoreBuilder<D> {
    /// Sets the key derivation, a pure mapping from session keys to storage
    /// keys.
    pub fn cache_keygen<E>(self, keygen: E) -> (r: DynamoDbSessionStoreBuilder<E>)
        ensures
            r@ == (CacheConfiguration {
                cache_keygen: keygen,
                table_name: self@.table_name,
                key_name: self@.key_name,
                ttl_name: self@.ttl_name,
                session_data_name: self@.session_data_name,
                use_dynamo_db_local: self@.use_dynamo_db_local,
                dynamo_db_local_endpoint: self@.dynamo_db_local_endpoint,
            }),
    {
        let c = self.configuration;
        DynamoDbSessionStoreBuilder {
            configuration: CacheConfiguration {
                cache_keygen: keygen,
                table_name: c.table_name,
                key_name: c.key_name,
                ttl_name: c.ttl_name,
                session_data_name: c.session_data_name,
                use_dynamo_db_local: c.use_dynamo_db_local,
                dynamo_db_local_endpoint: c.dynamo_db_local_endpoint,
            },
        }
    }

    /// Sets the name of the table.
    pub fn table_name(self, table_name: String) -> (r: DynamoDbSessionStoreBuilder<D>)
        ensures
            r@ == (CacheConfiguration { table_name, ..self@ }),
    {
        DynamoDbSessionStoreBuilder { configuration: CacheConfiguration { table_name, ..self.configuration } }
    }

    /// Sets whether a local backend endpoint is used, for local testing.
    pub fn use_dynamo_db_local(self, should_use: bool) -> (r: DynamoDbSessionStoreBuilder<D>)
        ensures
            r@ == (CacheConfiguration { use_dynamo_db_local: should_use, ..self@ }),
    {
        DynamoDbSessionStoreBuilder {
            configuration: CacheConfiguration { use_dynamo_db_local: should_use, ..self.configuration },
        }
    }

    /// Sets the local backend endpoint.
    pub fn dynamo_db_local_endpoint(self, dynamo_db_local_endpoint: String) -> (r: DynamoDbSessionStoreBuilder<D>)
        ensures
            r@ == (CacheConfiguration { dynamo_db_local_endpoint, ..self@ }),
    {
        DynamoDbSessionStoreBuilder {
            configuration: CacheConfiguration { dynamo_db_local_endpoint, ..self.configuration },
        }
    }

    /// Sets the name of the key attribute.
    pub fn key_name(self, key_name: String) -> (r: DynamoDbSessionStoreBuilder<D>)
        ensures
            r@ == (CacheConfiguration { key_name, ..self@ }),
    {
        DynamoDbSessionStoreBuilder { configuration: CacheConfiguration { key_name, ..self.configuration } }
    }

    /// Sets the name of the expiry attribute.
    pub fn ttl_name(self, ttl_name: String) -> (r: DynamoDbSessionStoreBuilder<D>)
        ensures
            r@ == (CacheConfiguration { ttl_name, ..self@ }),
    {
        DynamoDbSessionStoreBuilder { configuration: CacheConfiguration { ttl_name, ..self.configuration } }
    }

    /// Sets the name of the payload attribute.
    pub fn session_data_name(self, session_data_name: String) -> (r: DynamoDbSessionStoreBuilder<D>)
        ensures
            r@ == (CacheConfiguration { session_data_name, ..self@ }),
    {
        DynamoDbSessionStoreBuilder {
            configuration: CacheConfiguration { session_data_name, ..self.configuration },
        }
    }

    /// The configuration built so far.
    pub fn configuration(self) -> (r: CacheConfiguration<D>)
        ensures
            r == self@,
    {
        self.configuration
    }
}

} // verus!
