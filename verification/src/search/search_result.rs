//! A search outcome carrying a window-oriented score and its line.

use vstd::prelude::*;
use shakmaty::Move;
use super::search_evaluation::Evaluation;

verus! {

/// A score with the principal variation that produced it, leaf first.
pub struct SearchResult {
    pub eval: Evaluation,
    pub pv: Vec<Move>,
}

} // verus!
