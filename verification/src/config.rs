//! Node configuration and the two orchestrator roles: `Config` runs the
//! node as the single validator, `FetcherConfig` as a passive replica.
//! Key and address values are opaque identities here: the bridge never
//! inspects them, it only compares them.
use vstd::prelude::*;
use crate::store::Store;
use crate::store::StoreError;
use crate::store::ActionQueue;
use crate::store::bootstrap_transition;

verus! {

/// Configuration errors: all fatal at startup, before any background
/// work begins.
#[derive(Clone, Copy, Debug, PartialEq, Eq, Structural)]
pub enum ConfigError {
    /// The validator set is empty.
    EmptyValidatorSet,
    /// The node was asked to run as a validator without a validator key.
    MissingValidatorKey,
    /// The operator address is mandatory and was not supplied.
    MissingOperatorAddress,
    /// Consensus is supported only with exactly the local validator in
    /// the validator set.
    UnsupportedValidatorSet,
}

/// A static outbound gossip peer: its identity key and its address.
#[derive(Clone, Debug, PartialEq, Eq)]
pub struct NodeAddr {
    pub key: u64,
    pub addr: String,
}

/// The engine-facing part of the configuration: where to listen, who
/// the validators are, this node's identity and its gossip topology.
#[derive(Debug)]
pub struct ExecutorConfig {
    /// Local socket address to listen on for incoming connections.
    pub server_addr: String,
    /// Public keys of the validators participating in consensus.
    pub validators: Vec<u64>,
    /// Identity key of this node.
    pub node_key: u64,
    /// Limit on inbound connections outside the static allow-list.
    pub gossip_dynamic_inbound_limit: u64,
    /// Inbound gossip peers accepted unconditionally.
    pub gossip_static_inbound: Vec<u64>,
    /// Outbound gossip peers this node actively maintains.
    pub gossip_static_outbound: Vec<NodeAddr>,
}

/// The validator-role part of the configuration: the validator's key
/// (held here by its public identity) and the address advertised to
/// peers.
#[derive(Clone, Debug)]
pub struct ValidatorConfig {
    pub public_key: u64,
    pub public_addr: String,
}

/// The configuration as supplied externally, before validation.
#[derive(Debug)]
pub struct SerdeConfig {
    /// Local socket address to listen on for incoming connections.
    pub server_addr: String,
    /// Public address of this node, advertised to peers.
    pub public_addr: String,
    /// The validator key, set only for the validator node; held by its
    /// public identity.
    pub validator_key: Option<u64>,
    /// Validators participating in consensus.
    pub validator_set: Vec<u64>,
    /// Identity key of this node.
    pub node_key: u64,
    /// Limit on inbound connections outside the static allow-list.
    pub gossip_dynamic_inbound_limit: u64,
    /// Inbound gossip peers accepted unconditionally.
    pub gossip_static_inbound: Vec<u64>,
    /// Outbound gossip peers this node actively maintains.
    pub gossip_static_outbound: Vec<NodeAddr>,
    /// The chain operator address; mandatory.
    pub operator_address: Option<u64>,
}

/// Copies a vector of keys.
fn copy_keys(v: &Vec<u64>) -> (r: Vec<u64>)
    ensures
        r@ == v@,
{
    let mut out: Vec<u64> = Vec::new();
    let mut i: usize = 0;
    while i < v.len()
        invariant
            i <= v@.len(),
            out@ == v@.take(i as int),
        decreases v@.len() - i,
    {
        out.push(v[i]);
        i = i + 1;
        proof {
            assert(v@.take(i as int) =~= v@.take(i - 1).push(v@[i - 1]));
        }
    }
    proof {
        assert(v@.take(v@.len() as int) =~= v@);
    }
    out
}

/// Copies a vector of peers.
fn copy_peers(v: &Vec<NodeAddr>) -> (r: Vec<NodeAddr>)
    ensures
        r@ == v@,
{
    let mut out: Vec<NodeAddr> = Vec::new();
    let mut i: usize = 0;
    while i < v.len()
        invariant
            i <= v@.len(),
            out@ == v@.take(i as int),
        decreases v@.len() - i,
    {
        let p = &v[i];
        out.push(NodeAddr { key: p.key, addr: p.addr.clone() });
        i = i + 1;
        proof {
            assert(v@.take(i as int) =~= v@.take(i - 1).push(v@[i - 1]));
        }
    }
    proof {
        assert(v@.take(v@.len() as int) =~= v@);
    }
    out
}

impl SerdeConfig {
    /// The engine-facing configuration. Fails exactly when the validator
    /// set is empty.
    pub fn executor(&self) -> (r: Result<ExecutorConfig, ConfigError>)
        ensures
            match r {
                Ok(e) => {
                    &&& self.validator_set@.len() > 0
                    &&& e.server_addr == self.server_addr
                    &&& e.validators@ == self.validator_set@
                    &&& e.node_key == self.node_key
                    &&& e.gossip_dynamic_inbound_limit == self.gossip_dynamic_inbound_limit
                    &&& e.gossip_static_inbound@ == self.gossip_static_inbound@
                    &&& e.gossip_static_outbound@ == self.gossip_static_outbound@
                },
                Err(e) => e == ConfigError::EmptyValidatorSet && self.validator_set@.len() == 0,
            },
    {
        if self.validator_set.len() == 0 {
            return Err(ConfigError::EmptyValidatorSet);
        }
        Ok(
            ExecutorConfig {
                server_addr: self.server_addr.clone(),
                validators: copy_keys(&self.validator_set),
                node_key: self.node_key,
                gossip_dynamic_inbound_limit: self.gossip_dynamic_inbound_limit,
                gossip_static_inbound: copy_keys(&self.gossip_static_inbound),
                gossip_static_outbound: copy_peers(&self.gossip_static_outbound),
            },
        )
    }

    /// The validator-role configuration. Fails exactly when no validator
    /// key was supplied.
    pub fn validator(&self) -> (r: Result<ValidatorConfig, ConfigError>)
        ensures
            match r {
                Ok(v) => {
                    &&& self.validator_key is Some
                    &&& v.public_key == self.validator_key->0
                    &&& v.public_addr == self.public_addr
                },
                Err(e) => e == ConfigError::MissingValidatorKey && self.validator_key is None,
            },
    {
        match &self.validator_key {
            Some(key) => Ok(
                ValidatorConfig { public_key: *key, public_addr: self.public_addr.clone() },
            ),
            None => Err(ConfigError::MissingValidatorKey),
        }
    }
}

/// What can stop an orchestrator before or while the engine runs: a
/// configuration error at startup, or a storage error from the bridge.
#[derive(Clone, Copy, Debug, PartialEq, Eq, Structural)]
pub enum OrchestratorError {
    Config(ConfigError),
    Store(StoreError),
}

/// The validator-role orchestrator: it certifies the locally produced
/// chain as the single validator.
#[derive(Debug)]
pub struct Config {
    pub executor: ExecutorConfig,
    pub validator: ValidatorConfig,
    pub operator_address: u64,
}

impl Config {
    /// Validates an externally supplied configuration for the validator
    /// role: the engine part must build, the validator key and the
    /// operator address must be present.
    pub fn from_serde(cfg: SerdeConfig) -> (r: Result<Config, ConfigError>)
        ensures
            match r {
                Ok(c) => {
                    &&& cfg.validator_set@.len() > 0
                    &&& cfg.validator_key is Some
                    &&& cfg.operator_address is Some
                    &&& c.executor.validators@ == cfg.validator_set@
                    &&& c.executor.server_addr == cfg.server_addr
                    &&& c.executor.node_key == cfg.node_key
                    &&& c.validator.public_key == cfg.validator_key->0
                    &&& c.validator.public_addr == cfg.public_addr
                    &&& c.operator_address == cfg.operator_address->0
                },
                Err(ConfigError::EmptyValidatorSet) => cfg.validator_set@.len() == 0,
                Err(ConfigError::MissingValidatorKey) => cfg.validator_set@.len() > 0
                    && cfg.validator_key is None,
                Err(ConfigError::MissingOperatorAddress) => cfg.validator_set@.len() > 0
                    && cfg.validator_key is Some && cfg.operator_address is None,
                Err(ConfigError::UnsupportedValidatorSet) => false,
            },
    {
        let executor = match cfg.executor() {
            Ok(e) => e,
            Err(e) => {
                return Err(e);
            },
        };
        let validator = match cfg.validator() {
            Ok(v) => v,
            Err(e) => {
                return Err(e);
            },
        };
        let operator_address = match cfg.operator_address {
            Some(a) => a,
            None => {
                return Err(ConfigError::MissingOperatorAddress);
            },
        };
        Ok(Config { executor, validator, operator_address })
    }

    /// The startup guard: consensus is supported only when the validator
    /// set is exactly the local validator's own key.
    pub fn validate_single_validator(&self) -> (r: Result<(), ConfigError>)
        ensures
            r is Ok <==> self.executor.validators@ == seq![self.validator.public_key],
            r is Err ==> r == Err::<(), ConfigError>(ConfigError::UnsupportedValidatorSet),
    {
        if self.executor.validators.len() == 1 && self.executor.validators[0]
            == self.validator.public_key {
            proof {
                assert(self.executor.validators@ =~= seq![self.validator.public_key]);
            }
            Ok(())
        } else {
            proof {
                if self.executor.validators@ == seq![self.validator.public_key] {
                    assert(self.executor.validators@.len() == 1);
                    assert(self.executor.validators@[0] == self.validator.public_key);
                }
            }
            Err(ConfigError::UnsupportedValidatorSet)
        }
    }

    /// The startup phase of a validator run: the single-validator guard,
    /// then the genesis bootstrap on the bridge. No store is touched and
    /// no background work may begin when the guard fails. The engine
    /// itself then runs against the bridge outside this library.
    pub fn start(&self, store: &mut Store, justification: Vec<u8>) -> (r: Result<
        (),
        OrchestratorError,
    >)
        requires
            old(store).wf(),
        ensures
            final(store).wf(),
            crate::store::chain_extends(*old(store), *final(store)),
            self.executor.validators@ != seq![self.validator.public_key] ==> {
                &&& r == Err::<(), OrchestratorError>(
                    OrchestratorError::Config(ConfigError::UnsupportedValidatorSet),
                )
                &&& *final(store) == *old(store)
            },
            self.executor.validators@ == seq![self.validator.public_key] ==> match r {
                Ok(()) => bootstrap_transition(*old(store), *final(store), justification, Ok(())),
                Err(OrchestratorError::Store(e)) => bootstrap_transition(
                    *old(store),
                    *final(store),
                    justification,
                    Err(e),
                ),
                Err(OrchestratorError::Config(_)) => false,
            },
    {
        if let Err(e) = self.validate_single_validator() {
            return Err(OrchestratorError::Config(e));
        }
        match store.try_init_genesis(justification) {
            Ok(()) => Ok(()),
            Err(e) => Err(OrchestratorError::Store(e)),
        }
    }
}

/// The fetcher-role orchestrator: it passively replicates the certified
/// chain and feeds it back into local execution.
#[derive(Debug)]
pub struct FetcherConfig {
    pub executor: ExecutorConfig,
    pub operator_address: u64,
}

impl FetcherConfig {
    /// Validates an externally supplied configuration for the fetcher
    /// role: the engine part must build and the operator address must be
    /// present.
    pub fn from_serde(cfg: SerdeConfig) -> (r: Result<FetcherConfig, ConfigError>)
        ensures
            match r {
                Ok(c) => {
                    &&& cfg.validator_set@.len() > 0
                    &&& cfg.operator_address is Some
                    &&& c.executor.validators@ == cfg.validator_set@
                    &&& c.executor.server_addr == cfg.server_addr
                    &&& c.executor.node_key == cfg.node_key
                    &&& c.operator_address == cfg.operator_address->0
                },
                Err(ConfigError::EmptyValidatorSet) => cfg.validator_set@.len() == 0,
                Err(ConfigError::MissingOperatorAddress) => cfg.validator_set@.len() > 0
                    && cfg.operator_address is None,
                Err(ConfigError::MissingValidatorKey) => false,
                Err(ConfigError::UnsupportedValidatorSet) => false,
            },
    {
        let executor = match cfg.executor() {
            Ok(e) => e,
            Err(e) => {
                return Err(e);
            },
        };
        let operator_address = match cfg.operator_address {
            Some(a) => a,
            None => {
                return Err(ConfigError::MissingOperatorAddress);
            },
        };
        Ok(FetcherConfig { executor, operator_address })
    }

    /// The startup phase of a fetcher run: installs the action queue on
    /// the bridge before the engine begins ingesting blocks. The engine
    /// itself then runs against the bridge outside this library.
    pub fn start(&self, store: &mut Store, queue: ActionQueue)
        requires
            old(store).wf(),
            old(store).queue() is None,
            queue.items@.len() == 0,
        ensures
            final(store).wf(),
            crate::store::chain_extends(*old(store), *final(store)),
            final(store).queue() == Some(queue),
            final(store).local() == old(store).local(),
            final(store).certs() == old(store).certs(),
            final(store).replica() == old(store).replica(),
            final(store).operator_address() == old(store).operator_address(),
    {
        store.set_actions_queue(queue);
    }
}

} // verus!
