//! Parameter and result records of the alpha-beta search, and the stop flag.

use vstd::prelude::*;
use std::sync::OnceLock;
use shakmaty::{Chess, Move};
use crate::evaluation::evaluation::Evaluation;
use super::transpositon_table::TranspositionTable;

verus! {

#[verifier::external_type_specification]
#[verifier::external_body]
#[verifier::reject_recursive_types(T)]
pub struct ExOnceLock<T>(OnceLock<T>);

/// Relies on `std::sync::OnceLock::get`: a non-blocking snapshot of whether
/// the write-once stop flag has been set. Another thread may set the flag at
/// any moment, so nothing is promised of the result.
#[verifier::external_body]
pub(crate) fn stop_requested(flag: &OnceLock<()>) -> bool {
    flag.get().is_some()
}

/// An element-wise copy of a move list.
pub(crate) fn copy_moves(v: &Vec<Move>) -> (r: Vec<Move>)
    ensures
        r@ == v@,
{
    let mut r: Vec<Move> = Vec::new();
    let mut i: usize = 0;
    while i < v.len()
        invariant
            i <= v@.len(),
            r@ == v@.take(i as int),
        decreases v@.len() - i,
    {
        r.push(v[i]);
        proof {
            assert(v@.take(i + 1 as int) =~= v@.take(i as int).push(v@[i as int]));
        }
        i = i + 1;
    }
    proof {
        assert(v@.take(v@.len() as int) =~= v@);
    }
    r
}

/// Whether the list holds the move.
pub(crate) fn contains_move(moves: &Vec<Move>, m: &Move) -> (r: bool)
    ensures
        r == moves@.contains(*m),
{
    let mut i: usize = 0;
    while i < moves.len()
        invariant
            i <= moves@.len(),
            forall|j: int| 0 <= j < i ==> moves@[j] != *m,
        decreases moves@.len() - i,
    {
        if crate::chess::move_eq(&moves[i], m) {
            return true;
        }
        i = i + 1;
    }
    proof {
        if moves@.contains(*m) {
            let j = choose|j: int| 0 <= j < moves@.len() && moves@[j] == *m;
        }
    }
    false
}

/// The depth and window of one alpha-beta call.
#[derive(Clone, Copy)]
pub struct AlphaBetaParams {
    pub depth: u8,
    pub alpha: Evaluation,
    pub beta: Evaluation,
}

impl AlphaBetaParams {
    pub fn new(depth: u8, alpha: Evaluation, beta: Evaluation) -> (r: Self)
        ensures
            r.depth == depth,
            r.alpha == alpha,
            r.beta == beta,
    {
        Self { depth, alpha, beta }
    }

    pub fn as_tuple(&self) -> (r: (u8, Evaluation, Evaluation))
        ensures
            r.0 == self.depth,
            r.1 == self.alpha,
            r.2 == self.beta,
    {
        (self.depth, self.alpha, self.beta)
    }
}

/// The shared context of one alpha-beta call: the position to search, the
/// stop flag, and the transposition cache.
pub struct AlphaBetaInput<'a> {
    pub position: &'a Chess,
    pub stop_hook: &'a OnceLock<()>,
    pub transpositon_table: &'a TranspositionTable,
}

impl<'a> AlphaBetaInput<'a> {
    pub fn new(
        position: &'a Chess,
        stop_hook: &'a OnceLock<()>,
        transpositon_table: &'a TranspositionTable,
    ) -> (r: Self)
        ensures
            r.position == position,
            r.stop_hook == stop_hook,
            r.transpositon_table == transpositon_table,
    {
        Self { position, stop_hook, transpositon_table }
    }

    pub fn as_tuple(&self) -> (r: (&'a Chess, &'a OnceLock<()>, &'a TranspositionTable))
        ensures
            r.0 == self.position,
            r.1 == self.stop_hook,
            r.2 == self.transpositon_table,
    {
        (self.position, self.stop_hook, self.transpositon_table)
    }
}

/// What one alpha-beta call produced: a score, the principal variation in
/// leaf-first order, and the number of nodes visited.
pub struct SearchResult {
    pub eval: Evaluation,
    pub pv: Vec<Move>,
    pub nodes: u64,
}

impl SearchResult {
    pub fn new(eval: Evaluation, pv: Vec<Move>, nodes: u64) -> (r: Self)
        ensures
            r.eval == eval,
            r.pv == pv,
            r.nodes == nodes,
    {
        Self { eval, pv, nodes }
    }

    /// A result with no line: an obvious position's score.
    pub fn from_evaluation(eval: Evaluation) -> (r: Self)
        ensures
            r.eval == eval,
            r.pv@ == Seq::<Move>::empty(),
            r.nodes == 1,
    {
        Self { eval, pv: vec![], nodes: 1 }
    }

    /// A result wrapping a quiescence score, which carries no line.
    pub fn from_qsearch(qsearch_result: (Evaluation, u64)) -> (r: Self)
        ensures
            r.eval == qsearch_result.0,
            r.pv@ == Seq::<Move>::empty(),
            r.nodes == qsearch_result.1,
    {
        let (eval, nodes) = qsearch_result;
        Self::new(eval, vec![], nodes)
    }

    /// A field-wise copy of the result.
    pub fn duplicate(&self) -> (r: Self)
        ensures
            r.eval == self.eval,
            r.pv@ == self.pv@,
            r.nodes == self.nodes,
    {
        Self { eval: self.eval, pv: copy_moves(&self.pv), nodes: self.nodes }
    }
}

} // verus!
