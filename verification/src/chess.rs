//! The trusted boundary to the chess rules library (`shakmaty`).
//!
//! The search core treats a position as opaque: everything it needs from the
//! rules — legal-move enumeration, capture enumeration, move application,
//! terminal predicates, the side to move, the Zobrist hash, and the piece
//! placement — comes through the wrappers below. Each result that is a pure
//! function of the position (or move) alone is given an uninterpreted name,
//! so that verified contracts can speak about it exactly; the wrappers state
//! only what `shakmaty`'s source plainly shows.

use vstd::prelude::*;
use shakmaty::{Chess, Color, EnPassantMode, Move, Position};
use shakmaty::zobrist::{Zobrist64, ZobristHash};

verus! {

#[verifier::external_type_specification]
#[verifier::external_body]
pub struct ExChess(Chess);

#[verifier::external_type_specification]
#[verifier::external_body]
pub struct ExMove(Move);

/// The legal moves of a position, in the order `shakmaty` generates them.
pub uninterp spec fn legal_of(p: Chess) -> Seq<Move>;

/// The legal capture moves of a position, in generation order.
pub uninterp spec fn captures_of(p: Chess) -> Seq<Move>;

/// The position reached by playing a legal move.
pub uninterp spec fn after_of(p: Chess, m: Move) -> Chess;

/// The 64-bit Zobrist hash of a position (en-passant legality mode).
pub uninterp spec fn hash_of(p: Chess) -> u64;

/// Whether the side to move is checkmated.
pub uninterp spec fn checkmate_of(p: Chess) -> bool;

/// Whether the side to move is stalemated.
pub uninterp spec fn stalemate_of(p: Chess) -> bool;

/// Whether neither side has sufficient mating material.
pub uninterp spec fn insufficient_of(p: Chess) -> bool;

/// Whether white is the side to move.
pub uninterp spec fn white_to_move_of(p: Chess) -> bool;

/// The piece placement as plain values: one `(square, role, is_white)`
/// triple per occupied square, squares numbered 0..64 from a1, roles
/// numbered 1 (pawn) to 6 (king).
pub uninterp spec fn pieces_of(p: Chess) -> Seq<(u8, u8, bool)>;

/// The role of the piece a move captures, if it captures one.
pub uninterp spec fn capture_role_of(m: Move) -> Option<u8>;

/// The role of the piece a move moves.
pub uninterp spec fn attacker_of(m: Move) -> u8;

/// Relies on `shakmaty::Position::legal_moves`: the legal moves of the
/// position, a deterministic function of the position alone.
#[verifier::external_body]
pub(crate) fn legal_moves(p: &Chess) -> (r: Vec<Move>)
    ensures
        r@ == legal_of(*p),
{
    p.legal_moves().into_iter().collect()
}

/// Relies on `shakmaty::Position::capture_moves`: exactly the legal moves
/// that capture, kept in generation order.
#[verifier::external_body]
pub(crate) fn capture_moves(p: &Chess) -> (r: Vec<Move>)
    ensures
        r@ == captures_of(*p),
        forall|i: int|
            0 <= i < r@.len() ==> legal_of(*p).contains(#[trigger] r@[i])
                && capture_role_of(r@[i]) is Some,
{
    p.capture_moves().into_iter().collect()
}

/// Relies on `shakmaty::Position::play_unchecked`, called on a clone: the
/// successor position under a legal move. A capture removes the captured
/// piece, so the number of occupied squares strictly shrinks.
#[verifier::external_body]
pub(crate) fn play_move(p: &Chess, m: &Move) -> (r: Chess)
    requires
        legal_of(*p).contains(*m),
    ensures
        r == after_of(*p, *m),
        capture_role_of(*m) is Some ==> pieces_of(r).len() < pieces_of(*p).len(),
{
    let mut q = p.clone();
    q.play_unchecked(*m);
    q
}

/// Relies on `shakmaty::zobrist::ZobristHash::zobrist_hash` with the
/// en-passant legality mode: a deterministic 64-bit hash of the position.
#[verifier::external_body]
pub(crate) fn position_hash(p: &Chess) -> (r: u64)
    ensures
        r == hash_of(*p),
{
    p.zobrist_hash::<Zobrist64>(EnPassantMode::Legal).0
}

/// Relies on `shakmaty::Position::is_checkmate`.
#[verifier::external_body]
pub(crate) fn is_checkmate(p: &Chess) -> (r: bool)
    ensures
        r == checkmate_of(*p),
{
    p.is_checkmate()
}

/// Relies on `shakmaty::Position::is_stalemate`.
#[verifier::external_body]
pub(crate) fn is_stalemate(p: &Chess) -> (r: bool)
    ensures
        r == stalemate_of(*p),
{
    p.is_stalemate()
}

/// Relies on `shakmaty::Position::is_insufficient_material`.
#[verifier::external_body]
pub(crate) fn is_insufficient_material(p: &Chess) -> (r: bool)
    ensures
        r == insufficient_of(*p),
{
    p.is_insufficient_material()
}

/// Relies on `shakmaty::Position::turn`.
#[verifier::external_body]
pub(crate) fn white_to_move(p: &Chess) -> (r: bool)
    ensures
        r == white_to_move_of(*p),
{
    p.turn() == Color::White
}

/// Relies on `shakmaty::Board`'s iterator: one entry per occupied square, at
/// most 64 of them, squares below 64 and roles 1 through 6.
#[verifier::external_body]
pub(crate) fn board_pieces(p: &Chess) -> (r: Vec<(u8, u8, bool)>)
    ensures
        r@ == pieces_of(*p),
        r@.len() <= 64,
        forall|i: int|
            0 <= i < r@.len() ==> (#[trigger] r@[i]).0 < 64 && 1 <= r@[i].1 <= 6,
{
    p.board()
        .clone()
        .into_iter()
        .map(|(sq, pc)| (sq as u8, pc.role as u8, pc.color.is_white()))
        .collect()
}

/// Relies on `shakmaty::Move::capture`: `Some` exactly for capturing moves
/// (including en passant), carrying the victim's role, 1 through 6.
#[verifier::external_body]
pub(crate) fn move_capture_role(m: &Move) -> (r: Option<u8>)
    ensures
        r == capture_role_of(*m),
        r matches Some(v) ==> 1 <= v <= 6,
{
    m.capture().map(|role| role as u8)
}

/// Relies on `shakmaty::Move`'s derived `PartialEq`: a plain data enum,
/// so the derived comparison is exactly structural (value) equality.
#[verifier::external_body]
pub(crate) fn move_eq(a: &Move, b: &Move) -> (r: bool)
    ensures
        r == (a == b),
{
    a == b
}

/// Relies on `shakmaty::Move::role`: the moving piece's role, 1 through 6.
#[verifier::external_body]
pub(crate) fn move_attacker_role(m: &Move) -> (r: u8)
    ensures
        r == attacker_of(*m),
        1 <= r <= 6,
{
    m.role() as u8
}

} // verus!
