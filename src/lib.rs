//! Lifecycle control for an embedded blockchain node: home directory and
//! secret-file bootstrapping, runtime policy, the supervisor state machine
//! and the background controller loop, together with a few small helpers
//! used by the front end.
pub mod bootstrap;
pub mod build_info;
pub mod chain;
pub mod controller;
pub mod menu;
pub mod node_view;
pub mod policy;
pub mod supervisor;
pub mod sync_status;
pub mod theme;
pub mod utility;
pub mod wallet;
pub mod wallet_view;
