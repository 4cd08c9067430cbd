use vstd::prelude::*;

verus! {

/// Pages of the wallet screen.
#[derive(Debug, Clone, PartialEq, Eq, Hash)]
pub enum Mode {
    Init,
    /// Creating a wallet, with the display name proposed for it.
    CreateWallet(String),
    ImportWallet,
    Operation,
}

} // verus!
