//! The agent's configuration.

use vstd::prelude::*;
use crate::hash::HashAlgorithm;

verus! {

/// Register index used when a caller names none, and for the initial entry
/// by default: the register of the dynamic root of trust for measurement.
pub const DEFAULT_PCR_INDEX: u64 = 17;

/// How the event log digests its entries and where its first entry goes.
#[derive(Clone, Debug)]
pub struct EventlogConfig {
    pub eventlog_algorithm: HashAlgorithm,
    pub init_pcr: u64,
}

impl EventlogConfig {
    /// SHA-384, with the initial entry in the default register.
    pub fn new() -> (r: Self)
        ensures
            r.eventlog_algorithm == HashAlgorithm::Sha384,
            r.init_pcr == DEFAULT_PCR_INDEX,
    {
        EventlogConfig { eventlog_algorithm: HashAlgorithm::Sha384, init_pcr: DEFAULT_PCR_INDEX }
    }
}

/// Where a key broker service is reached.
#[derive(Clone, Debug)]
pub struct KbsConfig {
    pub url: String,
    pub cert: Option<String>,
}

impl KbsConfig {
    /// A copy of these settings.
    pub fn duplicate(&self) -> (r: Self)
        ensures
            r == *self,
    {
        let cert = match &self.cert {
            Some(c) => Some(c.clone()),
            None => None,
        };
        KbsConfig { url: self.url.clone(), cert }
    }
}

/// Where an attestation service is reached.
#[derive(Clone, Debug)]
pub struct CoCoASConfig {
    pub url: String,
}

impl CoCoASConfig {
    /// A copy of these settings.
    pub fn duplicate(&self) -> (r: Self)
        ensures
            r == *self,
    {
        CoCoASConfig { url: self.url.clone() }
    }
}

/// Settings of each token backend, where it is configured.
#[derive(Clone, Debug)]
pub struct TokenConfigs {
    pub kbs: Option<KbsConfig>,
    pub coco_as: Option<CoCoASConfig>,
}

/// The whole configuration. It is only ever replaced as a whole.
#[derive(Clone, Debug)]
pub struct Config {
    pub token_configs: TokenConfigs,
    pub eventlog_config: EventlogConfig,
}

impl Config {
    /// The default configuration: no token backend, SHA-384 event log, initial
    /// entry in the default register.
    pub fn new() -> (r: Self)
        ensures
            r.token_configs.kbs is None,
            r.token_configs.coco_as is None,
            r.eventlog_config.eventlog_algorithm == HashAlgorithm::Sha384,
            r.eventlog_config.init_pcr == DEFAULT_PCR_INDEX,
    {
        Config {
            token_configs: TokenConfigs { kbs: None, coco_as: None },
            eventlog_config: EventlogConfig::new(),
        }
    }
}

} // verus!
