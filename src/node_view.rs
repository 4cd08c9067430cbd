use vstd::prelude::*;

verus! {

/// Pages of the embedded node screen.
#[derive(Debug, Clone, Copy, PartialEq, Eq, Hash, Structural)]
pub enum Mode {
    Summary,
    Peers,
}

} // verus!
