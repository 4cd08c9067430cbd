use vstd::prelude::*;

verus! {

/// The network a node runs against. It selects the home directory,
/// the default configuration and the network policy switches.
#[derive(Debug, Clone, Copy, PartialEq, Eq, Structural)]
pub enum ChainType {
    /// Automated test chain.
    AutomatedTesting,
    /// Local user test chain.
    UserTesting,
    /// Public test network.
    Testnet,
    /// Main production network.
    Mainnet,
}

/// The short name of a chain, as used for its directory on disk.
pub open spec fn chain_shortname(chain: ChainType) -> Seq<char> {
    match chain {
        ChainType::AutomatedTesting => seq!['a', 'u', 't', 'o'],
        ChainType::UserTesting => seq!['u', 's', 'e', 'r'],
        ChainType::Testnet => seq!['t', 'e', 's', 't'],
        ChainType::Mainnet => seq!['m', 'a', 'i', 'n'],
    }
}

impl ChainType {
    /// Short name representing the chain ("test", "main", ...).
    pub fn shortname(&self) -> (r: String)
        ensures
            r@ == chain_shortname(*self),
    {
        let s = match *self {
            ChainType::AutomatedTesting => "auto",
            ChainType::UserTesting => "user",
            ChainType::Testnet => "test",
            ChainType::Mainnet => "main",
        };
        proof {
            reveal_strlit("auto");
            reveal_strlit("user");
            reveal_strlit("test");
            reveal_strlit("main");
        }
        s.to_owned()
    }

    /// Whether this is the main production network.
    pub fn is_mainnet(&self) -> (r: bool)
        ensures
            r == (*self == ChainType::Mainnet),
    {
        match *self {
            ChainType::Mainnet => true,
            _ => false,
        }
    }
}

impl Default for ChainType {
    fn default() -> (r: Self)
        ensures
            r == ChainType::Mainnet,
    {
        ChainType::Mainnet
    }
}

} // verus!
