//! Errors of the routing configuration operations.
use vstd::prelude::*;
use vstd::string::*;

verus! {

/// The storage step that failed, one for each place where the routing
/// configuration store can fail.
#[derive(Debug, Clone, Copy, PartialEq, Eq, Structural)]
pub enum StorageStep {
    DefaultConfigMalformed,
    DefaultConfigCreateSerialize,
    DefaultConfigInsert,
    DefaultConfigRead,
    DefaultConfigUpdateSerialize,
    DefaultConfigUpdateWrite,
    DictionarySerialize,
    DictionaryWrite,
    AlgorithmSerialize,
    AlgorithmWrite,
    MerchantRefEncode,
    MerchantRefWrite,
    MerchantCacheInvalidate,
    ProfileRefEncode,
    ProfileRefWrite,
    ProfileCacheInvalidate,
}

/// What kind of storage work a step is.
#[derive(Debug, Clone, Copy, PartialEq, Eq, Structural)]
pub enum StepKind {
    Serialize,
    Read,
    Write,
    CacheInvalidate,
}

impl StorageStep {
    pub open spec fn spec_kind(self) -> StepKind {
        match self {
            StorageStep::DefaultConfigMalformed => StepKind::Read,
            StorageStep::DefaultConfigCreateSerialize => StepKind::Serialize,
            StorageStep::DefaultConfigInsert => StepKind::Write,
            StorageStep::DefaultConfigRead => StepKind::Read,
            StorageStep::DefaultConfigUpdateSerialize => StepKind::Serialize,
            StorageStep::DefaultConfigUpdateWrite => StepKind::Write,
            StorageStep::DictionarySerialize => StepKind::Serialize,
            StorageStep::DictionaryWrite => StepKind::Write,
            StorageStep::AlgorithmSerialize => StepKind::Serialize,
            StorageStep::AlgorithmWrite => StepKind::Write,
            StorageStep::MerchantRefEncode => StepKind::Serialize,
            StorageStep::MerchantRefWrite => StepKind::Write,
            StorageStep::MerchantCacheInvalidate => StepKind::CacheInvalidate,
            StorageStep::ProfileRefEncode => StepKind::Serialize,
            StorageStep::ProfileRefWrite => StepKind::Write,
            StorageStep::ProfileCacheInvalidate => StepKind::CacheInvalidate,
        }
    }

    /// Which kind of storage work failed.
    pub fn kind(&self) -> (r: StepKind)
        ensures
            r == self.spec_kind(),
    {
        match self {
            StorageStep::DefaultConfigMalformed => StepKind::Read,
            StorageStep::DefaultConfigCreateSerialize => StepKind::Serialize,
            StorageStep::DefaultConfigInsert => StepKind::Write,
            StorageStep::DefaultConfigRead => StepKind::Read,
            StorageStep::DefaultConfigUpdateSerialize => StepKind::Serialize,
            StorageStep::DefaultConfigUpdateWrite => StepKind::Write,
            StorageStep::DictionarySerialize => StepKind::Serialize,
            StorageStep::DictionaryWrite => StepKind::Write,
            StorageStep::AlgorithmSerialize => StepKind::Serialize,
            StorageStep::AlgorithmWrite => StepKind::Write,
            StorageStep::MerchantRefEncode => StepKind::Serialize,
            StorageStep::MerchantRefWrite => StepKind::Write,
            StorageStep::MerchantCacheInvalidate => StepKind::CacheInvalidate,
            StorageStep::ProfileRefEncode => StepKind::Serialize,
            StorageStep::ProfileRefWrite => StepKind::Write,
            StorageStep::ProfileCacheInvalidate => StepKind::CacheInvalidate,
        }
    }

    pub open spec fn spec_explanation(self) -> Seq<char> {
        match self {
            StorageStep::DefaultConfigMalformed => "Merchant default config has invalid structure"@,
            StorageStep::DefaultConfigCreateSerialize => "Error while creating and serializing new merchant default config"@,
            StorageStep::DefaultConfigInsert => "Error inserting new default routing config into DB"@,
            StorageStep::DefaultConfigRead => "Error fetching default config for merchant"@,
            StorageStep::DefaultConfigUpdateSerialize => "Unable to serialize merchant default routing config during update"@,
            StorageStep::DefaultConfigUpdateWrite => "Error updating the default routing config in DB"@,
            StorageStep::DictionarySerialize => "Unable to serialize routing dictionary during update"@,
            StorageStep::DictionaryWrite => "Error saving routing dictionary to DB"@,
            StorageStep::AlgorithmSerialize => "Unable to serialize routing algorithm to string"@,
            StorageStep::AlgorithmWrite => "Error updating the routing algorithm in DB"@,
            StorageStep::MerchantRefEncode => "Failed converting routing algorithm ref to json value"@,
            StorageStep::MerchantRefWrite => "Failed to update routing algorithm ref in merchant account"@,
            StorageStep::MerchantCacheInvalidate => "Failed to invalidate the config cache"@,
            StorageStep::ProfileRefEncode => "Failed to convert routing ref to value"@,
            StorageStep::ProfileRefWrite => "Failed to update routing algorithm ref in business profile"@,
            StorageStep::ProfileCacheInvalidate => "Failed to invalidate routing cache"@,
        }
    }

    /// The human-readable explanation attached to the failure of this step.
    pub fn explanation(&self) -> (r: &'static str)
        ensures
            r@ == self.spec_explanation(),
    {
        match self {
            StorageStep::DefaultConfigMalformed => "Merchant default config has invalid structure",
            StorageStep::DefaultConfigCreateSerialize => "Error while creating and serializing new merchant default config",
            StorageStep::DefaultConfigInsert => "Error inserting new default routing config into DB",
            StorageStep::DefaultConfigRead => "Error fetching default config for merchant",
            StorageStep::DefaultConfigUpdateSerialize => "Unable to serialize merchant default routing config during update",
            StorageStep::DefaultConfigUpdateWrite => "Error updating the default routing config in DB",
            StorageStep::DictionarySerialize => "Unable to serialize routing dictionary during update",
            StorageStep::DictionaryWrite => "Error saving routing dictionary to DB",
            StorageStep::AlgorithmSerialize => "Unable to serialize routing algorithm to string",
            StorageStep::AlgorithmWrite => "Error updating the routing algorithm in DB",
            StorageStep::MerchantRefEncode => "Failed converting routing algorithm ref to json value",
            StorageStep::MerchantRefWrite => "Failed to update routing algorithm ref in merchant account",
            StorageStep::MerchantCacheInvalidate => "Failed to invalidate the config cache",
            StorageStep::ProfileRefEncode => "Failed to convert routing ref to value",
            StorageStep::ProfileRefWrite => "Failed to update routing algorithm ref in business profile",
            StorageStep::ProfileCacheInvalidate => "Failed to invalidate routing cache",
        }
    }
}

/// Errors of routing validation and of the routing configuration store.
#[derive(Debug, Clone, PartialEq, Eq)]
pub enum RoutingError {
    /// A connector choice refers to no enabled account of the profile.
    ConnectorNotFound { connector: String, merchant_connector_id: Option<String> },
    /// No record of the routing dictionary has this identifier.
    AlgorithmNotFound { id: String },
    /// The merchant's connector accounts could not be fetched.
    MerchantConnectorAccountNotFound { id: String },
    /// A storage step failed; an internal error.
    Internal { step: StorageStep },
}

} // verus!

verus! {

impl RoutingError {
    pub open spec fn spec_message(self) -> Seq<char> {
        match self {
            RoutingError::ConnectorNotFound { connector, merchant_connector_id } => match merchant_connector_id {
                Some(id) => "connector with name '"@ + connector@ + "' and merchant connector account id '"@ + id@
                    + "' not found for the given profile"@,
                None => "connector with name '"@ + connector@ + "' not found for the given profile"@,
            },
            RoutingError::AlgorithmNotFound { id } => "routing algorithm with id '"@ + id@
                + "' not found in the routing dictionary"@,
            RoutingError::MerchantConnectorAccountNotFound { id } => "Merchant connector account does not exist in our records"@,
            RoutingError::Internal { step } => step.spec_explanation(),
        }
    }

    /// The description of the error shown to the caller.
    pub fn message(&self) -> (r: String)
        ensures
            r@ == self.spec_message(),
    {
        match self {
            RoutingError::ConnectorNotFound { connector, merchant_connector_id } => {
                let mut m = String::from_str("connector with name '");
                m.append(connector.as_str());
                match merchant_connector_id {
                    Some(id) => {
                        m.append("' and merchant connector account id '");
                        m.append(id.as_str());
                    },
                    None => {},
                }
                m.append("' not found for the given profile");
                m
            },
            RoutingError::AlgorithmNotFound { id } => {
                let mut m = String::from_str("routing algorithm with id '");
                m.append(id.as_str());
                m.append("' not found in the routing dictionary");
                m
            },
            RoutingError::MerchantConnectorAccountNotFound { id } => String::from_str(
                "Merchant connector account does not exist in our records",
            ),
            RoutingError::Internal { step } => String::from_str(step.explanation()),
        }
    }
}

} // verus!
