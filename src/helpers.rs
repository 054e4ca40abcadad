//! Keys of the routing configuration store and the steps of its operations.
use vstd::prelude::*;
use vstd::string::*;

use crate::dictionary::RoutingDictionary;
use crate::errors::{RoutingError, StorageStep};
use crate::routing::{RoutableConnectorChoice, RoutingAlgorithm};

verus! {

/// Kind of transaction a routing configuration applies to.
#[derive(Debug, Clone, Copy, PartialEq, Eq, Structural)]
pub enum TransactionType {
    Payment,
    Payout,
}

pub open spec fn spec_routing_dictionary_key(merchant_id: Seq<char>) -> Seq<char> {
    "routing_dict_"@ + merchant_id
}

pub open spec fn spec_default_config_key(merchant_id: Seq<char>, transaction_type: TransactionType) -> Seq<char> {
    match transaction_type {
        TransactionType::Payment => "routing_default_"@ + merchant_id,
        TransactionType::Payout => "routing_default_po_"@ + merchant_id,
    }
}

/// Key under which a merchant's routing dictionary is stored.
pub fn get_routing_dictionary_key(merchant_id: &str) -> (r: String)
    ensures
        r@ == spec_routing_dictionary_key(merchant_id@),
{
    let mut key = String::from_str("routing_dict_");
    key.append(merchant_id);
    key
}

/// Key under which a merchant's default connector list is stored.
pub fn get_default_config_key(merchant_id: &str, transaction_type: &TransactionType) -> (r: String)
    ensures
        r@ == spec_default_config_key(merchant_id@, *transaction_type),
{
    let mut key = match transaction_type {
        TransactionType::Payment => String::from_str("routing_default_"),
        TransactionType::Payout => String::from_str("routing_default_po_"),
    };
    key.append(merchant_id);
    key
}

/// What the configuration store returned when a default connector list was read.
pub enum DefaultConfigLookup {
    /// The key holds this list.
    Found(Vec<RoutableConnectorChoice>),
    /// No value is stored under the key.
    NotFound,
    /// A value is stored, but it is not a connector list.
    Malformed,
    /// The read itself failed.
    Failed,
}

/// What to do after a default connector list was read.
pub enum DefaultConfigStep {
    /// Return this list.
    Done(Vec<RoutableConnectorChoice>),
    /// Persist `config` under `key`, then return it.
    Insert { key: String, config: Vec<RoutableConnectorChoice> },
    /// Fail with this error.
    Fail(RoutingError),
}

/// What `get_merchant_default_config` returns for a lookup of the key.
pub open spec fn default_config_step_post(
    merchant_id: Seq<char>,
    transaction_type: TransactionType,
    lookup: DefaultConfigLookup,
    r: DefaultConfigStep,
) -> bool {
    match lookup {
        DefaultConfigLookup::Found(list) => r == DefaultConfigStep::Done(list),
        DefaultConfigLookup::NotFound => r matches DefaultConfigStep::Insert { key, config }
            && key@ == spec_default_config_key(merchant_id, transaction_type) && config@.len() == 0,
        DefaultConfigLookup::Malformed => r == DefaultConfigStep::Fail(
            RoutingError::Internal { step: StorageStep::DefaultConfigMalformed },
        ),
        DefaultConfigLookup::Failed => r == DefaultConfigStep::Fail(
            RoutingError::Internal { step: StorageStep::DefaultConfigRead },
        ),
    }
}

/// Decides what a read of the merchant's default connector list yields:
/// the stored list, or, where none is stored, an empty list to be persisted
/// and returned (get-or-create).
pub fn get_merchant_default_config(
    merchant_id: &str,
    transaction_type: &TransactionType,
    lookup: DefaultConfigLookup,
) -> (r: DefaultConfigStep)
    ensures
        default_config_step_post(merchant_id@, *transaction_type, lookup, r),
{
    match lookup {
        DefaultConfigLookup::Found(list) => DefaultConfigStep::Done(list),
        DefaultConfigLookup::NotFound => DefaultConfigStep::Insert {
            key: get_default_config_key(merchant_id, transaction_type),
            config: Vec::new(),
        },
        DefaultConfigLookup::Malformed => DefaultConfigStep::Fail(
            RoutingError::Internal { step: StorageStep::DefaultConfigMalformed },
        ),
        DefaultConfigLookup::Failed => DefaultConfigStep::Fail(
            RoutingError::Internal { step: StorageStep::DefaultConfigRead },
        ),
    }
}

/// How a write to the configuration store ended.
#[derive(Debug, Clone, Copy, PartialEq, Eq, Structural)]
pub enum WriteResult {
    Written,
    SerializeFailed,
    WriteFailed,
}

/// The result of the default-list read once the list it created has been
/// persisted.
pub fn finish_default_config_insert(config: Vec<RoutableConnectorChoice>, write: WriteResult) -> (r: Result<
    Vec<RoutableConnectorChoice>,
    RoutingError,
>)
    ensures
        write == WriteResult::Written ==> r == Ok::<Vec<RoutableConnectorChoice>, RoutingError>(config),
        write == WriteResult::SerializeFailed ==> r == Err::<Vec<RoutableConnectorChoice>, RoutingError>(
            RoutingError::Internal { step: StorageStep::DefaultConfigCreateSerialize },
        ),
        write == WriteResult::WriteFailed ==> r == Err::<Vec<RoutableConnectorChoice>, RoutingError>(
            RoutingError::Internal { step: StorageStep::DefaultConfigInsert },
        ),
{
    match write {
        WriteResult::Written => Ok(config),
        WriteResult::SerializeFailed => Err(RoutingError::Internal { step: StorageStep::DefaultConfigCreateSerialize }),
        WriteResult::WriteFailed => Err(RoutingError::Internal { step: StorageStep::DefaultConfigInsert }),
    }
}

/// The default-list value of a store that maps keys to connector lists.
pub open spec fn stored_lookup(store: Map<Seq<char>, Vec<RoutableConnectorChoice>>, key: Seq<char>) -> DefaultConfigLookup {
    if store.contains_key(key) {
        DefaultConfigLookup::Found(store[key])
    } else {
        DefaultConfigLookup::NotFound
    }
}

/// The store once a step's write, if any, has been made.
pub open spec fn store_after(
    store: Map<Seq<char>, Vec<RoutableConnectorChoice>>,
    step: DefaultConfigStep,
) -> Map<Seq<char>, Vec<RoutableConnectorChoice>> {
    match step {
        DefaultConfigStep::Insert { key, config } => store.insert(key@, config),
        _ => store,
    }
}

/// Reading the default list twice with no update in between gives the same
/// list the second time, and the second read persists nothing: the first
/// read returns the stored list or creates and persists the empty one.
pub proof fn lemma_default_config_get_or_create_idempotent(
    store: Map<Seq<char>, Vec<RoutableConnectorChoice>>,
    merchant_id: Seq<char>,
    transaction_type: TransactionType,
    first: DefaultConfigStep,
    second: DefaultConfigStep,
)
    requires
        default_config_step_post(
            merchant_id,
            transaction_type,
            stored_lookup(store, spec_default_config_key(merchant_id, transaction_type)),
            first,
        ),
        default_config_step_post(
            merchant_id,
            transaction_type,
            stored_lookup(store_after(store, first), spec_default_config_key(merchant_id, transaction_type)),
            second,
        ),
    ensures
        second is Done,
        first is Done ==> second == first,
        first matches DefaultConfigStep::Insert { key, config } ==> second == DefaultConfigStep::Done(config),
        first matches DefaultConfigStep::Insert { key, config } ==> config@.len() == 0,
{
}

/// A whole-value overwrite of one configuration key, with the steps that
/// name its failures.
pub struct ConfigWrite<T> {
    pub key: String,
    pub value: T,
    pub serialize_step: StorageStep,
    pub write_step: StorageStep,
}

impl<T> ConfigWrite<T> {
    /// The result of the write once it has been attempted.
    pub fn outcome(&self, write: WriteResult) -> (r: Result<(), RoutingError>)
        ensures
            write == WriteResult::Written ==> r is Ok,
            write == WriteResult::SerializeFailed ==> r == Err::<(), RoutingError>(
                RoutingError::Internal { step: self.serialize_step },
            ),
            write == WriteResult::WriteFailed ==> r == Err::<(), RoutingError>(
                RoutingError::Internal { step: self.write_step },
            ),
    {
        match write {
            WriteResult::Written => Ok(()),
            WriteResult::SerializeFailed => Err(RoutingError::Internal { step: self.serialize_step }),
            WriteResult::WriteFailed => Err(RoutingError::Internal { step: self.write_step }),
        }
    }
}

/// The overwrite of a merchant's default connector list.
pub fn update_merchant_default_config(
    merchant_id: &str,
    connectors: Vec<RoutableConnectorChoice>,
    transaction_type: &TransactionType,
) -> (r: ConfigWrite<Vec<RoutableConnectorChoice>>)
    ensures
        r.key@ == spec_default_config_key(merchant_id@, *transaction_type),
        r.value == connectors,
        r.serialize_step == StorageStep::DefaultConfigUpdateSerialize,
        r.write_step == StorageStep::DefaultConfigUpdateWrite,
{
    ConfigWrite {
        key: get_default_config_key(merchant_id, transaction_type),
        value: connectors,
        serialize_step: StorageStep::DefaultConfigUpdateSerialize,
        write_step: StorageStep::DefaultConfigUpdateWrite,
    }
}

/// The overwrite of a merchant's whole routing dictionary.
pub fn update_merchant_routing_dictionary(merchant_id: &str, dictionary: RoutingDictionary) -> (r: ConfigWrite<
    RoutingDictionary,
>)
    ensures
        r.key@ == spec_routing_dictionary_key(merchant_id@),
        r.value == dictionary,
        r.serialize_step == StorageStep::DictionarySerialize,
        r.write_step == StorageStep::DictionaryWrite,
{
    ConfigWrite {
        key: get_routing_dictionary_key(merchant_id),
        value: dictionary,
        serialize_step: StorageStep::DictionarySerialize,
        write_step: StorageStep::DictionaryWrite,
    }
}

/// The overwrite of one algorithm definition, stored under its own identifier.
pub fn update_routing_algorithm(algorithm_id: String, algorithm: RoutingAlgorithm) -> (r: ConfigWrite<
    RoutingAlgorithm,
>)
    ensures
        r.key == algorithm_id,
        r.value == algorithm,
        r.serialize_step == StorageStep::AlgorithmSerialize,
        r.write_step == StorageStep::AlgorithmWrite,
{
    ConfigWrite {
        key: algorithm_id,
        value: algorithm,
        serialize_step: StorageStep::AlgorithmSerialize,
        write_step: StorageStep::AlgorithmWrite,
    }
}

/// A reference to the active routing algorithm, as merchant accounts and
/// business profiles hold it.
#[derive(Debug, Clone, PartialEq, Eq)]
pub struct RoutingAlgorithmRef {
    pub algorithm_id: Option<String>,
    pub timestamp: i64,
}

/// A cache entry whose invalidation is published.
#[derive(Debug, Clone, PartialEq, Eq)]
pub enum CacheKind {
    Routing(String),
    Config(String),
}

/// The record whose active routing reference is written.
#[derive(Debug, Clone, PartialEq, Eq)]
pub enum RefTarget {
    MerchantAccount,
    BusinessProfile { merchant_id: String, profile_id: String },
}

/// How the write of an active routing reference ended; encoding, the
/// write and the invalidation are done in this order, each only after the
/// one before succeeded.
#[derive(Debug, Clone, Copy, PartialEq, Eq, Structural)]
pub enum RefUpdateResult {
    Published,
    EncodeFailed,
    WriteFailed,
    InvalidateFailed,
}

/// The write of an active routing reference, then the publication of the
/// invalidation of the cached algorithm; both are required.
pub struct ActiveRefUpdate {
    pub target: RefTarget,
    pub routing_algorithm: Option<RoutingAlgorithmRef>,
    pub payout_routing_algorithm: Option<RoutingAlgorithmRef>,
    pub invalidate: CacheKind,
    pub encode_step: StorageStep,
    pub write_step: StorageStep,
    pub invalidate_step: StorageStep,
}

impl ActiveRefUpdate {
    /// The result of the activation: success only once the invalidation was
    /// published.
    pub fn outcome(&self, result: RefUpdateResult) -> (r: Result<(), RoutingError>)
        ensures
            r is Ok <==> result == RefUpdateResult::Published,
            result == RefUpdateResult::EncodeFailed ==> r == Err::<(), RoutingError>(
                RoutingError::Internal { step: self.encode_step },
            ),
            result == RefUpdateResult::WriteFailed ==> r == Err::<(), RoutingError>(
                RoutingError::Internal { step: self.write_step },
            ),
            result == RefUpdateResult::InvalidateFailed ==> r == Err::<(), RoutingError>(
                RoutingError::Internal { step: self.invalidate_step },
            ),
    {
        match result {
            RefUpdateResult::Published => Ok(()),
            RefUpdateResult::EncodeFailed => Err(RoutingError::Internal { step: self.encode_step }),
            RefUpdateResult::WriteFailed => Err(RoutingError::Internal { step: self.write_step }),
            RefUpdateResult::InvalidateFailed => Err(RoutingError::Internal { step: self.invalidate_step }),
        }
    }
}

/// Writes the reference into the merchant account's routing field and
/// invalidates the given cache entry.
pub fn update_merchant_active_algorithm_ref(config_key: CacheKind, algorithm_id: RoutingAlgorithmRef) -> (r:
    ActiveRefUpdate)
    ensures
        r.target == RefTarget::MerchantAccount,
        r.routing_algorithm == Some(algorithm_id),
        r.payout_routing_algorithm is None,
        r.invalidate == config_key,
        r.encode_step == StorageStep::MerchantRefEncode,
        r.write_step == StorageStep::MerchantRefWrite,
        r.invalidate_step == StorageStep::MerchantCacheInvalidate,
{
    ActiveRefUpdate {
        target: RefTarget::MerchantAccount,
        routing_algorithm: Some(algorithm_id),
        payout_routing_algorithm: None,
        invalidate: config_key,
        encode_step: StorageStep::MerchantRefEncode,
        write_step: StorageStep::MerchantRefWrite,
        invalidate_step: StorageStep::MerchantCacheInvalidate,
    }
}

pub open spec fn spec_profile_routing_cache_key(merchant_id: Seq<char>, profile_id: Seq<char>) -> Seq<char> {
    "routing_config_"@ + merchant_id + "_"@ + profile_id
}

/// Key of the cached active algorithm of a business profile.
pub fn profile_routing_cache_key(merchant_id: &str, profile_id: &str) -> (r: String)
    ensures
        r@ == spec_profile_routing_cache_key(merchant_id@, profile_id@),
{
    let mut key = String::from_str("routing_config_");
    key.append(merchant_id);
    key.append("_");
    key.append(profile_id);
    key
}

/// Writes the reference into the business profile's payment or payout
/// routing field, by transaction type, and invalidates the profile's cached
/// algorithm.
pub fn update_business_profile_active_algorithm_ref(
    merchant_id: &str,
    profile_id: &str,
    algorithm_id: RoutingAlgorithmRef,
    transaction_type: &TransactionType,
) -> (r: ActiveRefUpdate)
    ensures
        r.target matches RefTarget::BusinessProfile { merchant_id: m, profile_id: p } && m@ == merchant_id@
            && p@ == profile_id@,
        *transaction_type == TransactionType::Payment ==> r.routing_algorithm == Some(algorithm_id)
            && r.payout_routing_algorithm is None,
        *transaction_type == TransactionType::Payout ==> r.routing_algorithm is None
            && r.payout_routing_algorithm == Some(algorithm_id),
        r.invalidate matches CacheKind::Routing(k) && k@ == spec_profile_routing_cache_key(
            merchant_id@,
            profile_id@,
        ),
        r.encode_step == StorageStep::ProfileRefEncode,
        r.write_step == StorageStep::ProfileRefWrite,
        r.invalidate_step == StorageStep::ProfileCacheInvalidate,
{
    let invalidate = CacheKind::Routing(profile_routing_cache_key(merchant_id, profile_id));
    let (routing_algorithm, payout_routing_algorithm) = match transaction_type {
        TransactionType::Payment => (Some(algorithm_id), None),
        TransactionType::Payout => (None, Some(algorithm_id)),
    };
    ActiveRefUpdate {
        target: RefTarget::BusinessProfile {
            merchant_id: merchant_id.to_owned(),
            profile_id: profile_id.to_owned(),
        },
        routing_algorithm,
        payout_routing_algorithm,
        invalidate,
        encode_step: StorageStep::ProfileRefEncode,
        write_step: StorageStep::ProfileRefWrite,
        invalidate_step: StorageStep::ProfileCacheInvalidate,
    }
}

} // verus!
