//! A consensus-storage bridge: exposes a sequentially-numbered local chain
//! as the block store, replica-state store and payload source of an external
//! BFT consensus engine, with a genesis bootstrap that anchors consensus onto
//! pre-existing local history and an ordered action queue that hands certified
//! payloads back to local execution.
pub mod codec;
pub mod block;
pub mod store;
pub mod config;
