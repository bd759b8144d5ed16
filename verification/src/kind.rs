//! Method kinds.

use vstd::prelude::*;

verus! {

/// The kind of an ABCI method.
///
/// Every request belongs to exactly one kind. A dispatcher treats the kinds
/// as independent channels: consensus requests are answered strictly in
/// order, mempool and info requests may run beside them, snapshot requests
/// are only exchanged while a node restores its state, and a flush is a
/// barrier on the connection that carries it.
#[derive(Clone, Copy, Debug, PartialEq, Eq, Hash, Structural)]
pub enum MethodKind {
    /// Block execution and chain initialization.
    Consensus,
    /// Transaction admission to the mempool.
    Mempool,
    /// State-sync snapshots.
    Snapshot,
    /// Queries about the application and its state.
    Info,
    /// The flush barrier.
    Flush,
}

} // verus!
