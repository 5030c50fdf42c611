//! Reaction-role bookkeeping: the per-user setup interview, the store of
//! monitored posts, and the resolution of reactions against that store.

pub mod model;
pub mod text;
pub mod interview;
pub mod store;
pub mod resolve;
pub mod laws;
