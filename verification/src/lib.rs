//! Verified core of the Kardashev browser client: input state, mesh
//! topology, resource bookkeeping and draw batching.

pub mod graphics;
pub mod input;
