//! Keeps a host's time zone in step with where its network says it is.
//!
//! The crate holds the decisions of the agent: which bus notifications count
//! as "the station became connected", what one reconciliation does with the
//! answers it is given, and how the watching loop moves between running and
//! terminated. The caller performs the waiting, the lookup and the remote
//! call, and hands back what came of them.

pub mod bus;
pub mod client;
pub mod error;
pub mod event;
pub mod names;
pub mod properties;
pub mod reconcile;
pub mod text;
pub mod watcher;
