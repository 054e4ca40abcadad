//! A merchant's routing dictionary and the activation of its algorithms.
use vstd::prelude::*;

use crate::errors::RoutingError;
use crate::routing::{
    spec_validate, validate_connectors_in_routing_config, MerchantConnectorAccount, RoutingAlgorithm,
};

verus! {

/// An algorithm the merchant has configured, referenced by its identifier.
#[derive(Debug, Clone, PartialEq, Eq)]
pub struct RoutingDictionaryRecord {
    pub id: String,
    pub name: String,
}

/// The routing algorithms a merchant has configured, and the active one.
#[derive(Debug, Clone, PartialEq, Eq)]
pub struct RoutingDictionary {
    pub merchant_id: String,
    pub active_id: Option<String>,
    pub records: Vec<RoutingDictionaryRecord>,
}

/// Some record of the dictionary has this identifier.
pub open spec fn has_record(records: Seq<RoutingDictionaryRecord>, id: Seq<char>) -> bool {
    exists|i: int| 0 <= i < records.len() && (#[trigger] records[i]).id@ == id
}

/// What `activate` does to a dictionary: `after` and `result` are what it
/// leaves and returns when asked to activate `id`, with `algorithm` as that
/// record's definition.
pub open spec fn activation_post(
    before: RoutingDictionary,
    after: RoutingDictionary,
    id: Seq<char>,
    algorithm: RoutingAlgorithm,
    accounts: Seq<MerchantConnectorAccount>,
    profile_id: Seq<char>,
    result: Result<(), RoutingError>,
) -> bool {
    match spec_validate(accounts, profile_id, algorithm) {
        Err(e) => result == Err::<(), RoutingError>(e) && after == before,
        Ok(_) => if has_record(before.records@, id) {
            &&& result is Ok
            &&& after.merchant_id == before.merchant_id
            &&& after.records == before.records
            &&& after.active_id matches Some(a) && a@ == id
        } else {
            &&& result matches Err(RoutingError::AlgorithmNotFound { id: i }) && i@ == id
            &&& after == before
        },
    }
}

impl RoutingDictionary {
    /// The active identifier, if present, refers to a record.
    pub open spec fn wf(&self) -> bool {
        match self.active_id {
            Some(a) => has_record(self.records@, a@),
            None => true,
        }
    }

    /// The empty dictionary created on a merchant's first read.
    pub fn new(merchant_id: String) -> (r: RoutingDictionary)
        ensures
            r.wf(),
            r.merchant_id == merchant_id,
            r.active_id is None,
            r.records@.len() == 0,
    {
        RoutingDictionary { merchant_id, active_id: None, records: Vec::new() }
    }

    /// Adds a record; the active algorithm is unchanged.
    pub fn add_record(&mut self, record: RoutingDictionaryRecord)
        requires
            old(self).wf(),
        ensures
            final(self).wf(),
            final(self).merchant_id == old(self).merchant_id,
            final(self).active_id == old(self).active_id,
            final(self).records@ == old(self).records@.push(record),
    {
        let ghost before = self.records@;
        self.records.push(record);
        proof {
            if self.active_id is Some {
                let a = self.active_id->Some_0;
                let i = choose|i: int| 0 <= i < before.len() && (#[trigger] before[i]).id@ == a@;
                assert(self.records@[i] == before[i]);
            }
        }
    }

    /// Whether some record has this identifier.
    pub fn contains_record(&self, id: &str) -> (r: bool)
        ensures
            r == has_record(self.records@, id@),
    {
        let target: String = id.to_owned();
        let mut i: usize = 0;
        while i < self.records.len()
            invariant
                i <= self.records@.len(),
                target@ == id@,
                forall|j: int| 0 <= j < i ==> (#[trigger] self.records@[j]).id@ != id@,
            decreases self.records.len() - i,
        {
            if self.records[i].id == target {
                return true;
            }
            i = i + 1;
        }
        false
    }

    /// Makes `algorithm_id` the active algorithm, after validating its
    /// definition against the profile's enabled connector accounts. When
    /// validation fails, or no record has that identifier, the dictionary is
    /// left as it was.
    pub fn activate(
        &mut self,
        algorithm_id: &str,
        algorithm: &RoutingAlgorithm,
        accounts: &Vec<MerchantConnectorAccount>,
        profile_id: &str,
    ) -> (r: Result<(), RoutingError>)
        requires
            old(self).wf(),
        ensures
            final(self).wf(),
            activation_post(*old(self), *final(self), algorithm_id@, *algorithm, accounts@, profile_id@, r),
    {
        let checked = validate_connectors_in_routing_config(accounts, profile_id, algorithm);
        match checked {
            Err(e) => Err(e),
            Ok(()) => {
                if self.contains_record(algorithm_id) {
                    self.active_id = Some(algorithm_id.to_owned());
                    Ok(())
                } else {
                    Err(RoutingError::AlgorithmNotFound { id: algorithm_id.to_owned() })
                }
            },
        }
    }
}

/// An activation whose algorithm fails validation leaves the active
/// algorithm, and the whole dictionary, as it was.
pub proof fn lemma_failed_validation_keeps_active(
    before: RoutingDictionary,
    after: RoutingDictionary,
    id: Seq<char>,
    algorithm: RoutingAlgorithm,
    accounts: Seq<MerchantConnectorAccount>,
    profile_id: Seq<char>,
    result: Result<(), RoutingError>,
)
    requires
        spec_validate(accounts, profile_id, algorithm) is Err,
        activation_post(before, after, id, algorithm, accounts, profile_id, result),
    ensures
        after.active_id == before.active_id,
        after == before,
        result is Err,
{
}

} // verus!
