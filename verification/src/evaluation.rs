//! Static position evaluation: a tapered sum of material and piece-square
//! values, blended between middlegame and endgame by a material phase.

pub mod evaluation;
pub mod obvious;
pub mod pesto;

use vstd::prelude::*;
use shakmaty::Chess;
use crate::chess::{board_pieces, pieces_of, white_to_move, white_to_move_of};
use pesto::{eg_pst_of, eg_value_of, flip_spec, mg_pst_of, mg_value_of, phase_of};

verus! {

/// The nine running sums the evaluation accumulates over the board: the
/// phase, and material and piece-square sums per game stage and color.
pub ghost struct EvalSums {
    pub phase: int,
    pub mg_mat_white: int,
    pub mg_mat_black: int,
    pub eg_mat_white: int,
    pub eg_mat_black: int,
    pub mg_pst_white: int,
    pub mg_pst_black: int,
    pub eg_pst_white: int,
    pub eg_pst_black: int,
}

pub open spec fn no_sums() -> EvalSums {
    EvalSums {
        phase: 0,
        mg_mat_white: 0,
        mg_mat_black: 0,
        eg_mat_white: 0,
        eg_mat_black: 0,
        mg_pst_white: 0,
        mg_pst_black: 0,
        eg_pst_white: 0,
        eg_pst_black: 0,
    }
}

/// One piece `(square, role, is_white)` added to the running sums.
pub open spec fn add_piece(t: EvalSums, p: (u8, u8, bool)) -> EvalSums {
    EvalSums {
        phase: t.phase + phase_of(p.1),
        mg_mat_white: t.mg_mat_white + if p.2 { mg_value_of(p.1) } else { 0 },
        mg_mat_black: t.mg_mat_black + if p.2 { 0 } else { mg_value_of(p.1) },
        eg_mat_white: t.eg_mat_white + if p.2 { eg_value_of(p.1) } else { 0 },
        eg_mat_black: t.eg_mat_black + if p.2 { 0 } else { eg_value_of(p.1) },
        mg_pst_white: t.mg_pst_white + if p.2 { mg_pst_of(p.1, true, p.0) } else { 0 },
        mg_pst_black: t.mg_pst_black + if p.2 { 0 } else { mg_pst_of(p.1, false, p.0) },
        eg_pst_white: t.eg_pst_white + if p.2 { eg_pst_of(p.1, true, p.0) } else { 0 },
        eg_pst_black: t.eg_pst_black + if p.2 { 0 } else { eg_pst_of(p.1, false, p.0) },
    }
}

/// The sums over a whole piece list.
pub open spec fn sums_of(s: Seq<(u8, u8, bool)>) -> EvalSums
    decreases s.len(),
{
    if s.len() == 0 {
        no_sums()
    } else {
        add_piece(sums_of(s.drop_last()), s.last())
    }
}

/// Truncating division by the full phase span, symmetric around zero.
pub open spec fn div24(x: int) -> int {
    if x >= 0 {
        x / 24
    } else {
        -((-x) / 24)
    }
}

/// The centipawn score of a piece list for the side to move: colored
/// differences of the four sums, reoriented by the side to move, each
/// weighted by its phase share, divided by the full phase span.
pub open spec fn eval_spec(s: Seq<(u8, u8, bool)>, white_turn: bool) -> int {
    let t = sums_of(s);
    let mg_phase = if t.phase < 24 { t.phase } else { 24 };
    let eg_phase = 24 - mg_phase;
    let sign: int = if white_turn { 1 } else { -1 };
    let mg_diff = t.mg_mat_white - t.mg_mat_black + t.mg_pst_white - t.mg_pst_black;
    let eg_diff = t.eg_mat_white - t.eg_mat_black + t.eg_pst_white - t.eg_pst_black;
    div24(sign * (mg_diff * mg_phase + eg_diff * eg_phase))
}

/// A piece list whose entries the tables can look up.
pub open spec fn wf_pieces(s: Seq<(u8, u8, bool)>) -> bool {
    s.len() <= 64 && forall|i: int|
        0 <= i < s.len() ==> (#[trigger] s[i]).0 < 64 && 1 <= s[i].1 <= 6
}

/// Evaluates the given chess position and returns a centipawn score for the
/// side to move, from material balance, piece-square tables, and game phase.
pub fn evaluate(board: &Chess) -> (r: i32)
    ensures
        r as int == eval_spec(pieces_of(*board), white_to_move_of(*board)),
        -200_000 < r < 200_000,
{
    let pieces = board_pieces(board);
    let white_turn = white_to_move(board);

    let ghost all = pieces@;
    let mut phase: i32 = 0;
    let mut mg_mat_w: i32 = 0;
    let mut mg_mat_b: i32 = 0;
    let mut eg_mat_w: i32 = 0;
    let mut eg_mat_b: i32 = 0;
    let mut mg_pst_w: i32 = 0;
    let mut mg_pst_b: i32 = 0;
    let mut eg_pst_w: i32 = 0;
    let mut eg_pst_b: i32 = 0;

    let n = pieces.len();
    let mut i: usize = 0;
    while i < n
        invariant
            n == all.len(),
            all.len() <= 64,
            pieces@ == all,
            i <= n,
            forall|j: int| 0 <= j < all.len() ==> (#[trigger] all[j]).0 < 64 && 1 <= all[j].1 <= 6,
            phase == sums_of(all.take(i as int)).phase,
            mg_mat_w == sums_of(all.take(i as int)).mg_mat_white,
            mg_mat_b == sums_of(all.take(i as int)).mg_mat_black,
            eg_mat_w == sums_of(all.take(i as int)).eg_mat_white,
            eg_mat_b == sums_of(all.take(i as int)).eg_mat_black,
            mg_pst_w == sums_of(all.take(i as int)).mg_pst_white,
            mg_pst_b == sums_of(all.take(i as int)).mg_pst_black,
            eg_pst_w == sums_of(all.take(i as int)).eg_pst_white,
            eg_pst_b == sums_of(all.take(i as int)).eg_pst_black,
            0 <= phase <= 4 * i,
            0 <= mg_mat_w <= 1025 * i,
            0 <= mg_mat_b <= 1025 * i,
            0 <= eg_mat_w <= 1025 * i,
            0 <= eg_mat_b <= 1025 * i,
            -200 * i <= mg_pst_w <= 200 * i,
            -200 * i <= mg_pst_b <= 200 * i,
            -200 * i <= eg_pst_w <= 200 * i,
            -200 * i <= eg_pst_b <= 200 * i,
        decreases n - i,
    {
        let (sq, role, is_white) = pieces[i];
        proof {
            pesto::lemma_term_bounds(role, is_white, sq);
            assert(all.take(i + 1 as int).drop_last() =~= all.take(i as int));
            assert(all.take(i + 1 as int).last() == all[i as int]);
        }
        let (ph, mg_v, eg_v, mg_p, eg_p) = pesto::piece_terms(role, is_white, sq);
        phase = phase + ph;
        if is_white {
            mg_mat_w = mg_mat_w + mg_v;
            eg_mat_w = eg_mat_w + eg_v;
            mg_pst_w = mg_pst_w + mg_p;
            eg_pst_w = eg_pst_w + eg_p;
        } else {
            mg_mat_b = mg_mat_b + mg_v;
            eg_mat_b = eg_mat_b + eg_v;
            mg_pst_b = mg_pst_b + mg_p;
            eg_pst_b = eg_pst_b + eg_p;
        }
        i = i + 1;
    }
    proof {
        assert(all.take(n as int) =~= all);
    }

    let mg_phase: i32 = if phase < 24 { phase } else { 24 };
    let eg_phase: i32 = 24 - mg_phase;
    let mg_diff: i32 = mg_mat_w - mg_mat_b + mg_pst_w - mg_pst_b;
    let eg_diff: i32 = eg_mat_w - eg_mat_b + eg_pst_w - eg_pst_b;
    proof {
        assert(-91200 <= mg_diff <= 91200);
        assert(-91200 <= eg_diff <= 91200);
        assert(-2_188_800 <= mg_diff * mg_phase <= 2_188_800 && -2_188_800 <= eg_diff
            * eg_phase <= 2_188_800) by (nonlinear_arith)
            requires
                -91200 <= mg_diff <= 91200,
                -91200 <= eg_diff <= 91200,
                0 <= mg_phase <= 24,
                0 <= eg_phase <= 24,
        ;
    }
    let oriented: i32 = mg_diff * mg_phase + eg_diff * eg_phase;
    let total: i32 = if white_turn { oriented } else { -oriented };
    proof {
        let t = sums_of(all);
        let smg = if t.phase < 24 { t.phase } else { 24int };
        assert(mg_phase == smg);
        assert(mg_diff == t.mg_mat_white - t.mg_mat_black + t.mg_pst_white - t.mg_pst_black);
        let sign: int = if white_to_move_of(*board) { 1int } else { -1int };
        assert(total == sign * ((mg_diff as int) * (mg_phase as int) + (eg_diff as int) * (
        eg_phase as int))) by (nonlinear_arith)
            requires
                total == if white_to_move_of(*board) { oriented as int } else { -(oriented as int) },
                sign == (if white_to_move_of(*board) { 1int } else { -1int }),
                oriented == (mg_diff as int) * (mg_phase as int) + (eg_diff as int) * (
                eg_phase as int),
        ;
        assert(eval_spec(pieces_of(*board), white_to_move_of(*board)) == div24(total as int));
    }

    if total >= 0 {
        total / 24
    } else {
        -((-total) / 24)
    }
}

/// A piece with its color swapped and its square flipped vertically.
pub open spec fn mirror_piece(p: (u8, u8, bool)) -> (u8, u8, bool) {
    (flip_spec(p.0) as u8, p.1, !p.2)
}

/// A whole piece list mirrored.
pub open spec fn mirror_pieces(s: Seq<(u8, u8, bool)>) -> Seq<(u8, u8, bool)> {
    s.map_values(|p: (u8, u8, bool)| mirror_piece(p))
}

proof fn lemma_sums_mirror(s: Seq<(u8, u8, bool)>)
    requires
        wf_pieces(s),
    ensures
        sums_of(mirror_pieces(s)).phase == sums_of(s).phase,
        sums_of(mirror_pieces(s)).mg_mat_white == sums_of(s).mg_mat_black,
        sums_of(mirror_pieces(s)).mg_mat_black == sums_of(s).mg_mat_white,
        sums_of(mirror_pieces(s)).eg_mat_white == sums_of(s).eg_mat_black,
        sums_of(mirror_pieces(s)).eg_mat_black == sums_of(s).eg_mat_white,
        sums_of(mirror_pieces(s)).mg_pst_white == sums_of(s).mg_pst_black,
        sums_of(mirror_pieces(s)).mg_pst_black == sums_of(s).mg_pst_white,
        sums_of(mirror_pieces(s)).eg_pst_white == sums_of(s).eg_pst_black,
        sums_of(mirror_pieces(s)).eg_pst_black == sums_of(s).eg_pst_white,
    decreases s.len(),
{
    if s.len() == 0 {
        assert(mirror_pieces(s) =~= Seq::<(u8, u8, bool)>::empty());
    } else {
        let head = s.drop_last();
        let p = s.last();
        assert(wf_pieces(head));
        lemma_sums_mirror(head);
        assert(mirror_pieces(s).drop_last() =~= mirror_pieces(head));
        assert(mirror_pieces(s).last() == mirror_piece(p));
        pesto::lemma_flip_involution(p.0);
        // the mirrored piece reads the same table entry with colors swapped
        assert(mg_pst_of(p.1, true, flip_spec(p.0) as u8) == mg_pst_of(p.1, false, p.0));
        assert(mg_pst_of(p.1, false, flip_spec(p.0) as u8) == mg_pst_of(p.1, true, p.0));
        assert(eg_pst_of(p.1, true, flip_spec(p.0) as u8) == eg_pst_of(p.1, false, p.0));
        assert(eg_pst_of(p.1, false, flip_spec(p.0) as u8) == eg_pst_of(p.1, true, p.0));
    }
}

/// Law: evaluation is symmetric. Mirroring the board — swapping the colors
/// of all pieces and flipping the board vertically, with the same side to
/// move — negates the evaluation.
pub proof fn lemma_evaluation_symmetry(s: Seq<(u8, u8, bool)>, white_turn: bool)
    requires
        wf_pieces(s),
    ensures
        eval_spec(mirror_pieces(s), white_turn) == -eval_spec(s, white_turn),
{
    lemma_sums_mirror(s);
    let t = sums_of(s);
    let mg_phase = if t.phase < 24 { t.phase } else { 24int };
    let eg_phase = 24 - mg_phase;
    let sign: int = if white_turn { 1 } else { -1 };
    let mg_diff = t.mg_mat_white - t.mg_mat_black + t.mg_pst_white - t.mg_pst_black;
    let eg_diff = t.eg_mat_white - t.eg_mat_black + t.eg_pst_white - t.eg_pst_black;
    assert(sign * ((-mg_diff) * mg_phase + (-eg_diff) * eg_phase) == -(sign * (mg_diff * mg_phase
        + eg_diff * eg_phase))) by (nonlinear_arith);
}

} // verus!
