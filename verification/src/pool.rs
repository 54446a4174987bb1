//! The process-wide resource context tables are created within.
//!
//! A pool is exclusively owned: it is neither duplicable nor copyable, and
//! it is destroyed exactly when its one owner drops it. Tables are not its
//! children in lifetime: every [`crate::table::Table`] is an independently
//! owned value, so dropping the pool neither tracks nor invalidates tables
//! already handed out — it only releases the pool's own resources.

use vstd::prelude::*;

verus! {

/// The engine's allocation and scheduling context. It carries no
/// host-visible state beyond its own existence.
pub struct Pool {
    live: bool,
}

impl Pool {
    /// Allocates the resource context.
    pub fn new() -> (r: Pool)
        ensures
            r.is_live(),
    {
        Pool { live: true }
    }

    /// A freshly created pool is live until dropped.
    pub closed spec fn is_live(self) -> bool {
        self.live
    }
}

} // verus!
