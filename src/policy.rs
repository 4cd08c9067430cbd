use vstd::prelude::*;

use crate::chain::ChainType;

verus! {

/// The values of a loaded node configuration that decide network policy.
#[derive(Debug, Clone, Copy, PartialEq, Eq, Structural)]
pub struct NodeSettings {
    /// Base fee below which the transaction pool refuses a transaction.
    pub accept_fee_base: u64,
    /// How far in the future, in seconds, a block timestamp may lie.
    pub future_time_limit: u64,
}

/// Network policy switches of one node instance. Built once when the node
/// starts and handed by value to its background thread; never changed while
/// the node runs.
#[derive(Debug, Clone, Copy, PartialEq, Eq, Structural)]
pub struct NodeRuntimePolicy {
    pub chain_type: ChainType,
    /// Whether no-recent-duplicate kernels are relayed and accepted.
    pub nrd_enabled: bool,
    pub accept_fee_base: u64,
    pub future_time_limit: u64,
}

/// The policy of a chain: NRD kernels stay disabled on the main network and
/// are enabled on every other one; fee base and time limit come from the
/// configuration.
pub open spec fn policy_for(chain: ChainType, settings: NodeSettings) -> NodeRuntimePolicy {
    NodeRuntimePolicy {
        chain_type: chain,
        nrd_enabled: chain != ChainType::Mainnet,
        accept_fee_base: settings.accept_fee_base,
        future_time_limit: settings.future_time_limit,
    }
}

impl NodeRuntimePolicy {
    /// The policy of `chain` under the given configuration values.
    pub fn for_chain(chain: ChainType, settings: &NodeSettings) -> (r: NodeRuntimePolicy)
        ensures
            r == policy_for(chain, *settings),
    {
        NodeRuntimePolicy {
            chain_type: chain,
            nrd_enabled: !chain.is_mainnet(),
            accept_fee_base: settings.accept_fee_base,
            future_time_limit: settings.future_time_limit,
        }
    }
}

} // verus!
