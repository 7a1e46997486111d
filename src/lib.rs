//! Reconciles DNS address records of a zone with the members of a private
//! cloud network. The library holds the durable sync state, the diff between
//! what DNS reflects and what the network holds, the network-rename recovery
//! and the create-or-update protocol, driven as a state machine whose outside
//! work (DNS calls, cloud calls, persistence) is performed by the caller.
pub mod model;
pub mod diff;
pub mod rename;
pub mod engine;
