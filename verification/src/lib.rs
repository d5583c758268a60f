//! Synchronization core for a chain indexer: key namespacing, tip-height
//! bookkeeping, atomic batch staging, a reorg-aware height resolver, a
//! resilient key-value store adapter, and the sync-loop state machine.

pub mod hexcode;
pub mod keys;
pub mod resolver;
pub mod rpc;
pub mod store;
pub mod sync;
pub mod tip;
