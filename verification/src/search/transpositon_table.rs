//! The shared transposition cache: a concurrent map from Zobrist hash to a
//! cached subtree result.
//!
//! The map is shared by every worker thread, so nothing useful can be
//! promised about what a read returns: an entry written under a hash may be
//! overwritten by any thread at any time, and a hash collision can pair a
//! position with another position's entry. The search therefore validates
//! every entry it reads before trusting it.
//!
//! Unlike a plain depth-gated cache, each entry carries a [`Bound`] tag
//! saying whether its score was exact at the stored depth or only a bound
//! from a cut-off, and readers gate reuse on that tag against their own
//! window; an untagged entry reused at a different window could cut
//! incorrectly.

use vstd::prelude::*;
use dashmap::DashMap;
use shakmaty::Move;
use crate::evaluation::evaluation::Evaluation;
use super::util::SearchResult;

verus! {

#[verifier::external_type_specification]
#[verifier::external_body]
#[verifier::reject_recursive_types(K)]
#[verifier::reject_recursive_types(V)]
#[verifier::reject_recursive_types(S)]
pub struct ExDashMap<K, V, S>(DashMap<K, V, S>);

/// How a cached score relates to the true score of its subtree.
#[derive(Clone, Copy, Debug, PartialEq, Eq, Structural)]
pub enum Bound {
    /// The search returned this score inside its window.
    Exact,
    /// The search failed high: the true score is at least this score.
    Lower,
    /// The search failed low: the true score is at most this score.
    Upper,
}

/// A cached subtree result: the score produced, the depth the work was done
/// at, the principal variation (leaf first), the nodes the subtree cost,
/// and how the score bounds the true value.
#[derive(Clone)]
pub struct TranspositionTableEntry {
    pub eval: Evaluation,
    pub depth: u8,
    pub pv: Vec<Move>,
    pub nodes: u64,
    pub bound: Bound,
}

impl TranspositionTableEntry {
    pub fn new(eval: Evaluation, depth: u8, pv: Vec<Move>, nodes: u64, bound: Bound) -> (r: Self)
        ensures
            r.eval == eval,
            r.depth == depth,
            r.pv == pv,
            r.nodes == nodes,
            r.bound == bound,
    {
        Self { eval, depth, pv, nodes, bound }
    }

    pub fn from_search_result(result: &SearchResult, depth: u8, bound: Bound) -> (r: Self)
        ensures
            r.eval == result.eval,
            r.depth == depth,
            r.pv@ == result.pv@,
            r.nodes == result.nodes,
            r.bound == bound,
    {
        Self::new(result.eval, depth, super::util::copy_moves(&result.pv), result.nodes, bound)
    }
}

/// The concurrent cache itself, keyed by 64-bit Zobrist hash.
pub struct TranspositionTable {
    map: DashMap<u64, TranspositionTableEntry>,
}

impl TranspositionTable {
    /// Relies on `dashmap::DashMap::with_capacity`.
    #[verifier::external_body]
    pub fn with_capacity(capacity: usize) -> Self {
        Self { map: DashMap::with_capacity(capacity) }
    }

    /// Relies on `dashmap::DashMap::get`, cloning the entry out of the
    /// guard. The map is shared across threads, so no relation to earlier
    /// inserts can be promised; callers must validate what they get.
    #[verifier::external_body]
    pub fn get(&self, hash: u64) -> Option<TranspositionTableEntry> {
        self.map.get(&hash).map(|e| e.value().clone())
    }

    /// Relies on `dashmap::DashMap::insert`: unconditionally replaces any
    /// entry under this hash.
    #[verifier::external_body]
    pub fn insert(&self, hash: u64, entry: TranspositionTableEntry) {
        self.map.insert(hash, entry);
    }

    /// Relies on `dashmap::DashMap::clear`: drops all entries.
    #[verifier::external_body]
    pub fn clear(&self) {
        self.map.clear();
    }

    /// Relies on `dashmap::DashMap::len`: a snapshot of the entry count.
    #[verifier::external_body]
    pub fn len(&self) -> usize {
        self.map.len()
    }

    /// Relies on `dashmap::DashMap::capacity`: how many entries the map can
    /// hold without growing.
    #[verifier::external_body]
    pub fn capacity(&self) -> usize {
        self.map.capacity()
    }
}

} // verus!
