//! The obvious-position shortcut: positions whose score needs no search.

use vstd::prelude::*;
use shakmaty::Chess;
use super::evaluation::Evaluation;
use crate::chess::{
    checkmate_of, insufficient_of, is_checkmate, is_insufficient_material, is_stalemate,
    stalemate_of,
};

verus! {

/// The score a terminal position is known to have: `Mate(0)` when the side
/// to move is checkmated, a draw score on stalemate or insufficient
/// material, nothing otherwise.
pub open spec fn obvious_spec(p: Chess) -> Option<Evaluation> {
    if checkmate_of(p) {
        Some(Evaluation::Mate(0))
    } else if stalemate_of(p) || insufficient_of(p) {
        Some(Evaluation::Centipawns(0))
    } else {
        None
    }
}

/// Returns the score of a terminal position, or `None` when the position
/// still has to be searched.
pub fn get_obvious_evaluation(position: &Chess) -> (r: Option<Evaluation>)
    ensures
        r == obvious_spec(*position),
        r matches Some(e) ==> e.valid(),
{
    if is_checkmate(position) {
        return Some(Evaluation::Mate(0));
    }

    if is_stalemate(position) || is_insufficient_material(position) {
        return Some(Evaluation::Centipawns(0));
    }

    None
}

} // verus!
