//! A bridge between a rayon work-stealing pool and a host that creates
//! threads on its own: the pool's worker start-ups are queued on a channel
//! instead of spawned, and each host thread takes one of them and joins.

mod rayon_types;

pub mod error;
pub mod builder;
pub mod registry;
pub mod sum;
