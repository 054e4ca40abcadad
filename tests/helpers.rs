use router::errors::{RoutingError, StepKind, StorageStep};
use router::helpers::{
    finish_default_config_insert, get_default_config_key, get_merchant_default_config, get_routing_dictionary_key,
    profile_routing_cache_key, update_business_profile_active_algorithm_ref, update_merchant_active_algorithm_ref,
    update_merchant_default_config, update_routing_algorithm, CacheKind, DefaultConfigLookup, DefaultConfigStep,
    RefTarget, RefUpdateResult, RoutingAlgorithmRef, TransactionType, WriteResult,
};
use router::routing::{RoutableConnectorChoice, RoutingAlgorithm};
use std::collections::HashMap;

#[test]
fn routing_keys() {
    assert_eq!(get_routing_dictionary_key("m1"), "routing_dict_m1");
    assert_eq!(get_default_config_key("m1", &TransactionType::Payment), "routing_default_m1");
    assert_eq!(get_default_config_key("m1", &TransactionType::Payout), "routing_default_po_m1");
    assert_eq!(profile_routing_cache_key("m1", "pro_1"), "routing_config_m1_pro_1");
}

fn read(store: &HashMap<String, Vec<RoutableConnectorChoice>>, key: &str) -> DefaultConfigLookup {
    match store.get(key) {
        Some(v) => DefaultConfigLookup::Found(v.clone()),
        None => DefaultConfigLookup::NotFound,
    }
}

#[test]
fn default_config_get_or_create_is_idempotent() {
    let mut store: HashMap<String, Vec<RoutableConnectorChoice>> = HashMap::new();
    let key = get_default_config_key("m1", &TransactionType::Payment);
    let first = get_merchant_default_config("m1", &TransactionType::Payment, read(&store, &key));
    let created = match first {
        DefaultConfigStep::Insert { key: k, config } => {
            assert_eq!(k, "routing_default_m1");
            assert!(config.is_empty());
            store.insert(k, config.clone());
            finish_default_config_insert(config, WriteResult::Written).unwrap()
        }
        _ => panic!("first read must create"),
    };
    let second = get_merchant_default_config("m1", &TransactionType::Payment, read(&store, &key));
    match second {
        DefaultConfigStep::Done(list) => assert_eq!(list, created),
        _ => panic!("second read must not create"),
    }
    assert_eq!(store.len(), 1);
}

#[test]
fn default_config_failures_name_the_step() {
    match get_merchant_default_config("m1", &TransactionType::Payment, DefaultConfigLookup::Malformed) {
        DefaultConfigStep::Fail(e) => {
            assert_eq!(e, RoutingError::Internal { step: StorageStep::DefaultConfigMalformed });
            assert_eq!(e.message(), "Merchant default config has invalid structure");
        }
        _ => panic!("malformed config must fail"),
    }
    match get_merchant_default_config("m1", &TransactionType::Payout, DefaultConfigLookup::Failed) {
        DefaultConfigStep::Fail(e) => {
            assert_eq!(e, RoutingError::Internal { step: StorageStep::DefaultConfigRead })
        }
        _ => panic!("failed read must fail"),
    }
    assert_eq!(
        finish_default_config_insert(Vec::new(), WriteResult::WriteFailed),
        Err(RoutingError::Internal { step: StorageStep::DefaultConfigInsert })
    );
    assert_eq!(StorageStep::DefaultConfigInsert.kind(), StepKind::Write);
    assert_eq!(StorageStep::MerchantCacheInvalidate.kind(), StepKind::CacheInvalidate);
}

#[test]
fn updates_write_whole_values_under_their_keys() {
    let w = update_merchant_default_config("m1", Vec::new(), &TransactionType::Payout);
    assert_eq!(w.key, "routing_default_po_m1");
    assert_eq!(w.outcome(WriteResult::Written), Ok(()));
    assert_eq!(
        w.outcome(WriteResult::SerializeFailed),
        Err(RoutingError::Internal { step: StorageStep::DefaultConfigUpdateSerialize })
    );
    let a = update_routing_algorithm(
        "algo_1".to_string(),
        RoutingAlgorithm::Priority(Vec::new()),
    );
    assert_eq!(a.key, "algo_1");
    assert_eq!(
        a.outcome(WriteResult::WriteFailed),
        Err(RoutingError::Internal { step: StorageStep::AlgorithmWrite })
    );
}

#[test]
fn profile_activation_picks_field_by_transaction_type() {
    let r = RoutingAlgorithmRef { algorithm_id: Some("algo_1".to_string()), timestamp: 10 };
    let payment = update_business_profile_active_algorithm_ref("m1", "pro_1", r.clone(), &TransactionType::Payment);
    assert_eq!(payment.routing_algorithm, Some(r.clone()));
    assert_eq!(payment.payout_routing_algorithm, None);
    assert_eq!(payment.invalidate, CacheKind::Routing("routing_config_m1_pro_1".to_string()));
    assert_eq!(
        payment.target,
        RefTarget::BusinessProfile { merchant_id: "m1".to_string(), profile_id: "pro_1".to_string() }
    );
    let payout = update_business_profile_active_algorithm_ref("m1", "pro_1", r.clone(), &TransactionType::Payout);
    assert_eq!(payout.routing_algorithm, None);
    assert_eq!(payout.payout_routing_algorithm, Some(r));
}

#[test]
fn activation_requires_cache_invalidation() {
    let r = RoutingAlgorithmRef { algorithm_id: Some("algo_1".to_string()), timestamp: 10 };
    let u = update_merchant_active_algorithm_ref(CacheKind::Routing("routing_config_m1".to_string()), r);
    assert_eq!(u.outcome(RefUpdateResult::Published), Ok(()));
    let e = u.outcome(RefUpdateResult::InvalidateFailed).unwrap_err();
    assert_eq!(e, RoutingError::Internal { step: StorageStep::MerchantCacheInvalidate });
    assert_eq!(e.message(), "Failed to invalidate the config cache");
    assert_eq!(
        u.outcome(RefUpdateResult::WriteFailed),
        Err(RoutingError::Internal { step: StorageStep::MerchantRefWrite })
    );
}

#[test]
fn error_messages() {
    assert_eq!(
        RoutingError::MerchantConnectorAccountNotFound { id: "m1".to_string() }.message(),
        "Merchant connector account does not exist in our records"
    );
    assert_eq!(
        RoutingError::AlgorithmNotFound { id: "algo_9".to_string() }.message(),
        "routing algorithm with id 'algo_9' not found in the routing dictionary"
    );
    assert_eq!(StorageStep::ProfileCacheInvalidate.explanation(), "Failed to invalidate routing cache");
    assert_eq!(StorageStep::DictionarySerialize.kind(), StepKind::Serialize);
}
