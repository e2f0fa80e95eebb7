//! Bootstrap and handoff protocol for a thread pool whose workers are
//! spawned by an external host rather than created as native OS threads.
//!
//! A pool builder pre-allocates one startup task per intended worker and
//! feeds them through a bounded delivery channel; each externally spawned
//! worker pulls exactly one task and enters the pool's run loop.
//!
//! The [`pool`] module holds the builder and the worker bootstrap themselves,
//! built on the channel and thread-pool libraries. The [`handoff`] module
//! carries the protocol's delivery invariants — every task sent exactly once,
//! delivered at most once, the whole burst buffered — on a sequential model
//! of the exchange, where they are stated and proved.

use vstd::prelude::*;

pub mod handoff;
pub mod pool;

pub use pool::init_thread_pool;
pub use pool::wbg_rayon_start_worker;
pub use pool::wbg_rayon_PoolBuilder;

verus! {

/// Errors reported by the pool bootstrap protocol.
#[derive(Debug, PartialEq, Eq, Structural, Clone, Copy)]
pub enum PoolError {
    /// A pool with zero workers can never receive tasks: a configuration error.
    ZeroWorkers,
    /// The underlying thread-pool library refused construction
    /// (for example, a global pool is already installed).
    BuildRefused,
    /// The delivery channel closed before a startup task arrived.
    NoTaskAvailable,
}

} // verus!
