//! The search core: quiescence extension, alpha-beta, and the per-depth
//! decisions of the iterative deepening driver.
//!
//! Cancellation is a first-class outcome, not an error: an alpha-beta call
//! returns `None` exactly when it observed the stop flag, and the caller
//! discards the partial work.

pub mod move_ordering;
pub mod search_evaluation;
pub mod search_result;
pub mod transpositon_table;
pub mod util;

use vstd::prelude::*;
use shakmaty::{Chess, Move};
use crate::chess::{
    after_of, capture_moves, capture_role_of, captures_of, legal_moves, legal_of, pieces_of,
    play_move, position_hash, white_to_move_of,
};
use crate::evaluation::{eval_spec, evaluate};
use crate::evaluation::evaluation::{lemma_order_totality, Evaluation};
use crate::evaluation::obvious::{get_obvious_evaluation, obvious_spec};
use move_ordering::{order_moves, spec_order};
use transpositon_table::{Bound, TranspositionTable, TranspositionTableEntry};
use util::{stop_requested, AlphaBetaInput, AlphaBetaParams, SearchResult};

verus! {

/// The standing-pat score of a position: its static evaluation, as a score.
pub open spec fn stand_pat_spec(p: Chess) -> Evaluation {
    Evaluation::Centipawns(eval_spec(pieces_of(p), white_to_move_of(p)) as i32)
}

/// The greater of two scores.
pub open spec fn max_score(a: Evaluation, b: Evaluation) -> Evaluation {
    if a.spec_lt(b) {
        b
    } else {
        a
    }
}

/// A score clamped into the window `[alpha, beta]`, keeping fail-hard form.
pub open spec fn clamp_score(e: Evaluation, alpha: Evaluation, beta: Evaluation) -> Evaluation {
    if e.spec_le(alpha) {
        alpha
    } else if beta.spec_le(e) {
        beta
    } else {
        e
    }
}

/// The fuel a child position gets in the quiescence model: its own piece
/// count where that is smaller than the remaining fuel (as it always is on
/// a real board, where a capture removes a piece), else one less.
pub open spec fn child_fuel(child: Chess, fuel: nat) -> nat {
    if pieces_of(child).len() < fuel {
        pieces_of(child).len()
    } else {
        (fuel - 1) as nat
    }
}

/// The fail-hard quiescence value of a position over the window
/// `(alpha, beta)`: the known score of an obvious position; exactly `beta`
/// when the standing pat meets it; otherwise the capture loop below, seeded
/// with the standing pat as the floor. The fuel only bounds the recursion
/// and is immaterial whenever it is at least the piece count.
pub open spec fn qsearch_value(p: Chess, alpha: Evaluation, beta: Evaluation, fuel: nat) -> Evaluation
    decreases fuel, 1nat, 0nat,
{
    match obvious_spec(p) {
        Some(v) => v,
        None => {
            let stand = stand_pat_spec(p);
            if beta.spec_le(stand) {
                beta
            } else {
                qsearch_captures_value(
                    p,
                    spec_order(captures_of(p)),
                    0,
                    max_score(alpha, stand),
                    beta,
                    fuel,
                )
            }
        },
    }
}

/// The capture loop of the quiescence model, from move `i` on with the
/// floor `alpha`: each capture's deeper value is stepped up one ply; `beta`
/// or above cuts off at exactly `beta`, anything above the floor raises it,
/// and the floor is the value once the captures run out.
pub open spec fn qsearch_captures_value(
    p: Chess,
    ms: Seq<Move>,
    i: int,
    alpha: Evaluation,
    beta: Evaluation,
    fuel: nat,
) -> Evaluation
    decreases fuel, 0nat, ms.len() - i,
{
    if i < 0 || i >= ms.len() || fuel == 0 {
        alpha
    } else {
        let child = after_of(p, ms[i]);
        let e = Evaluation::from_deeper_spec(
            qsearch_value(
                child,
                beta.to_deeper_spec(),
                alpha.to_deeper_spec(),
                child_fuel(child, fuel),
            ),
        );
        if beta.spec_le(e) {
            beta
        } else if alpha.spec_lt(e) {
            qsearch_captures_value(p, ms, i + 1, e, beta, fuel)
        } else {
            qsearch_captures_value(p, ms, i + 1, alpha, beta, fuel)
        }
    }
}

/// Performs a quiescence search and returns a score with the number of
/// nodes visited.
///
/// A quiescence search evaluates only captures, to keep tactical exchanges
/// from distorting the horizon. It terminates because every capture
/// strictly shrinks the number of pieces on the board.
///
/// The contract pins the score down exactly: it equals the quiescence model
/// [`qsearch_value`] at the position's own piece count as fuel. The further
/// clauses are its useful corollaries: the known score with one node on an
/// obvious position, exactly `beta` with one node on the stand-pat cutoff,
/// and otherwise a value between the raised floor and `beta` whenever the
/// window is ordered.
fn quiescence_search(position: &Chess, alpha: Evaluation, beta: Evaluation) -> (r: (
    Evaluation,
    u64,
))
    requires
        alpha.valid(),
        beta.valid(),
    ensures
        r.0 == qsearch_value(*position, alpha, beta, pieces_of(*position).len()),
        r.0.valid(),
        r.1 >= 1,
        obvious_spec(*position) matches Some(v) ==> r.0 == v && r.1 == 1,
        obvious_spec(*position) is None && beta.spec_le(stand_pat_spec(*position)) ==> r.0
            == beta && r.1 == 1,
        obvious_spec(*position) is None && stand_pat_spec(*position).spec_lt(beta)
            && alpha.spec_le(beta) ==> max_score(alpha, stand_pat_spec(*position)).spec_le(r.0)
            && r.0.spec_le(beta),
    decreases pieces_of(*position).len(),
{
    if let Some(e) = get_obvious_evaluation(position) {
        return (e, 1);
    }

    let standing_pat = Evaluation::Centipawns(evaluate(position));
    proof {
        lemma_order_totality(standing_pat, beta);
    }

    if standing_pat >= beta {
        return (beta, 1);
    }

    let mut cur_alpha = alpha;

    if cur_alpha < standing_pat {
        cur_alpha = standing_pat;
    }
    proof {
        lemma_order_totality(alpha, standing_pat);
    }

    let cap_vec = capture_moves(position);
    let captures = order_moves(&cap_vec);
    proof {
        assert forall|x: Move| captures_of(*position).contains(x) implies legal_of(
            *position,
        ).contains(x) && capture_role_of(x) is Some by {
            let k = choose|k: int| 0 <= k < cap_vec@.len() && cap_vec@[k] == x;
            assert(legal_of(*position).contains(cap_vec@[k]));
        }
    }

    let mut nodes: u64 = 1;
    let mut i: usize = 0;
    while i < captures.len()
        invariant
            cur_alpha.valid(),
            beta.valid(),
            nodes >= 1,
            obvious_spec(*position) is None,
            stand_pat_spec(*position).spec_lt(beta),
            max_score(alpha, stand_pat_spec(*position)).spec_le(cur_alpha),
            alpha.spec_le(beta) ==> cur_alpha.spec_le(beta),
            captures@ == spec_order(captures_of(*position)),
            i <= captures@.len(),
            qsearch_value(*position, alpha, beta, pieces_of(*position).len())
                == qsearch_captures_value(
                *position,
                captures@,
                i as int,
                cur_alpha,
                beta,
                pieces_of(*position).len(),
            ),
            forall|j: int|
                0 <= j < captures@.len() ==> captures_of(*position).contains(
                    #[trigger] captures@[j],
                ),
            forall|x: Move|
                captures_of(*position).contains(x) ==> legal_of(*position).contains(x)
                    && capture_role_of(x) is Some,
        decreases captures@.len() - i,
    {
        let m = captures[i];
        proof {
            assert(captures_of(*position).contains(m));
        }
        let p = play_move(position, &m);
        let ghost fuel = pieces_of(*position).len();
        proof {
            assert(pieces_of(p).len() < fuel);
            assert(child_fuel(after_of(*position, m), fuel) == pieces_of(p).len());
        }

        let res = quiescence_search(&p, beta.to_deeper(), cur_alpha.to_deeper());
        let eval = Evaluation::from_deeper(&res.0);
        nodes = nodes.saturating_add(res.1);

        proof {
            lemma_order_totality(beta, eval);
            lemma_order_totality(eval, cur_alpha);
            assert(qsearch_captures_value(*position, captures@, i as int, cur_alpha, beta, fuel)
                == (if beta.spec_le(eval) {
                beta
            } else if cur_alpha.spec_lt(eval) {
                qsearch_captures_value(*position, captures@, i + 1, eval, beta, fuel)
            } else {
                qsearch_captures_value(*position, captures@, i + 1, cur_alpha, beta, fuel)
            }));
        }
        if beta <= eval {
            return (beta, nodes);
        }

        if eval > cur_alpha {
            cur_alpha = eval;
        }
        i = i + 1;
    }

    (cur_alpha, nodes)
}

/// Decides what a cached entry justifies at this node: nothing, unless the
/// entry is deep enough and carries a valid score; an exact entry with a
/// validated line short-circuits with its score clamped into the window; a
/// lower (upper) bound entry short-circuits with exactly `beta` (`alpha`)
/// when it already proves a cutoff (a fail-low). The shared cache is
/// untrusted, so this is stated for every possible entry value.
fn apply_table_entry(
    entry: TranspositionTableEntry,
    alpha: Evaluation,
    beta: Evaluation,
    depth: u8,
    pv_root_legal: bool,
) -> (r: Option<SearchResult>)
    requires
        alpha.valid(),
        beta.valid(),
    ensures
        r is Some <==> (entry.depth >= depth && entry.eval.valid() && (match entry.bound {
            Bound::Exact => pv_root_legal,
            Bound::Lower => beta.spec_le(entry.eval),
            Bound::Upper => entry.eval.spec_le(alpha),
        })),
        r matches Some(res) ==> res.nodes == 1 && res.pv@ == entry.pv@ && res.eval.valid()
            && res.eval == (match entry.bound {
            Bound::Exact => clamp_score(entry.eval, alpha, beta),
            Bound::Lower => beta,
            Bound::Upper => alpha,
        }),
{
    if !(entry.depth >= depth) || !entry.eval.is_valid() {
        return None;
    }
    proof {
        lemma_order_totality(entry.eval, alpha);
        lemma_order_totality(entry.eval, beta);
    }
    match entry.bound {
        Bound::Exact => {
            if pv_root_legal {
                // clamped into the window: reused entries keep fail-hard form
                let clamped = if !(alpha < entry.eval) {
                    alpha
                } else if !(entry.eval < beta) {
                    beta
                } else {
                    entry.eval
                };
                Some(SearchResult::new(clamped, entry.pv, 1))
            } else {
                None
            }
        },
        Bound::Lower => {
            if beta <= entry.eval {
                Some(SearchResult::new(beta, entry.pv, 1))
            } else {
                None
            }
        },
        Bound::Upper => {
            if entry.eval <= alpha {
                Some(SearchResult::new(alpha, entry.pv, 1))
            } else {
                None
            }
        },
    }
}

/// Performs an alpha-beta search to the depth in `params` over the window
/// in `params`, against the position, stop flag and shared cache in
/// `input`.
///
/// Returns `None` when cancellation was observed, otherwise a result whose
/// score is valid and lies within the window (whenever the window itself is
/// ordered and the position is not obvious). On an obvious position the
/// result is the known score, one node, no line; at depth zero it is
/// exactly the quiescence value; and at positive depth any score strictly
/// inside the window comes with a non-empty line whose root move is legal
/// in this position.
pub fn alpha_beta_search(params: AlphaBetaParams, input: AlphaBetaInput) -> (r: Option<
    SearchResult,
>)
    requires
        params.alpha.valid(),
        params.beta.valid(),
    ensures
        r matches Some(res) ==> {
            &&& res.eval.valid()
            &&& res.nodes >= 1
            &&& (obvious_spec(*input.position) matches Some(v) ==> res.eval == v && res.pv@
                =~= Seq::<Move>::empty() && res.nodes == 1)
            &&& (obvious_spec(*input.position) is None && params.alpha.spec_le(params.beta)
                ==> params.alpha.spec_le(res.eval) && res.eval.spec_le(params.beta))
            &&& (obvious_spec(*input.position) is None && params.depth == 0 ==> res.eval
                == qsearch_value(
                *input.position,
                params.alpha,
                params.beta,
                pieces_of(*input.position).len(),
            ) && res.pv@.len() == 0)
            &&& (obvious_spec(*input.position) is None && params.depth >= 1
                && params.alpha.spec_lt(res.eval) && res.eval.spec_lt(params.beta)
                ==> res.pv@.len() > 0 && legal_of(*input.position).contains(res.pv@.last()))
        },
    decreases params.depth,
{
    let (depth, alpha_param, beta) = params.as_tuple();
    let (position, please_stop, transpositon_table) = input.as_tuple();

    if stop_requested(please_stop) {
        return None;
    }

    if let Some(eval) = get_obvious_evaluation(position) {
        return Some(SearchResult::from_evaluation(eval));
    }

    if depth == 0 {
        proof {
            lemma_order_totality(beta, stand_pat_spec(*position));
            lemma_order_totality(alpha_param, max_score(alpha_param, stand_pat_spec(*position)));
        }
        return Some(SearchResult::from_qsearch(quiescence_search(position, alpha_param, beta)));
    }

    let hash = position_hash(position);
    let table_hit = transpositon_table.get(hash);
    if let Some(entry) = table_hit {
        // an exact entry may land strictly inside the window, where its line
        // becomes the principal variation: validate the line's root first
        let pv_root_legal = if matches!(entry.bound, Bound::Exact) && entry.pv.len() > 0 {
            let legal = legal_moves(position);
            util::contains_move(&legal, &entry.pv[entry.pv.len() - 1])
        } else {
            false
        };
        proof {
            lemma_order_totality(alpha_param, beta);
        }
        if let Some(res) = apply_table_entry(entry, alpha_param, beta, depth, pv_root_legal) {
            return Some(res);
        }
    }

    let mut nodes: u64 = 1;
    let mut alpha = alpha_param;
    let mut raised = false;
    let mut best_pv: Vec<Move> = vec![];

    let moves = order_moves(&legal_moves(position));

    let mut i: usize = 0;
    while i < moves.len()
        invariant
            params.alpha == alpha_param,
            params.beta == beta,
            params.depth == depth,
            input.position == position,
            obvious_spec(*position) is None,
            depth >= 1,
            alpha.valid(),
            beta.valid(),
            nodes >= 1,
            alpha_param.spec_le(alpha),
            alpha_param.spec_le(beta) ==> alpha.spec_le(beta),
            !raised ==> alpha == alpha_param,
            raised ==> best_pv@.len() > 0 && legal_of(*position).contains(best_pv@.last()),
            forall|j: int|
                0 <= j < moves@.len() ==> legal_of(*position).contains(#[trigger] moves@[j]),
        decreases moves@.len() - i,
    {
        nodes = nodes.saturating_add(1);

        let m = moves[i];
        proof {
            assert(legal_of(*position).contains(m));
        }
        let p = play_move(position, &m);

        let mut move_result = match alpha_beta_search(
            AlphaBetaParams::new(depth - 1, beta.to_deeper(), alpha.to_deeper()),
            AlphaBetaInput::new(&p, please_stop, transpositon_table),
        ) {
            Some(r) => r,
            None => {
                return None;
            },
        };

        nodes = nodes.saturating_add(move_result.nodes);
        let eval = Evaluation::from_deeper(&move_result.eval);

        proof {
            lemma_order_totality(beta, eval);
        }
        if beta <= eval {
            move_result.pv.push(m);
            transpositon_table.insert(
                hash,
                TranspositionTableEntry::new(
                    beta,
                    depth,
                    util::copy_moves(&move_result.pv),
                    nodes,
                    Bound::Lower,
                ),
            );
            move_result.eval = beta;
            move_result.nodes = nodes;
            return Some(move_result);
        }

        if alpha < eval {
            proof {
                lemma_order_totality(eval, alpha);
                lemma_order_totality(alpha_param, eval);
            }
            alpha = eval;
            raised = true;
            best_pv = move_result.pv;
            best_pv.push(m);
        }
        i = i + 1;
    }

    let bound = if raised {
        Bound::Exact
    } else {
        Bound::Upper
    };
    let best_results = SearchResult::new(alpha, best_pv, nodes);

    transpositon_table.insert(
        hash,
        TranspositionTableEntry::from_search_result(&best_results, depth, bound),
    );

    Some(best_results)
}

/// The result the driver keeps from one depth: the first of the workers'
/// results that no later one strictly beats.
pub open spec fn pick_spec(s: Seq<SearchResult>) -> Option<SearchResult>
    decreases s.len(),
{
    if s.len() == 0 {
        None
    } else {
        match pick_spec(s.drop_last()) {
            None => Some(s.last()),
            Some(b) => if b.eval.spec_lt(s.last().eval) {
                Some(s.last())
            } else {
                Some(b)
            },
        }
    }
}

/// Law: what the driver picks from a depth's worker results is one of them,
/// and no worker result has a strictly greater score.
pub proof fn lemma_pick_best_is_max(s: Seq<SearchResult>)
    ensures
        pick_spec(s) is Some <==> s.len() > 0,
        pick_spec(s) matches Some(b) ==> s.contains(b) && forall|i: int|
            0 <= i < s.len() ==> (#[trigger] s[i]).eval.spec_le(b.eval),
    decreases s.len(),
{
    if s.len() > 0 {
        lemma_pick_best_is_max(s.drop_last());
        if let Some(b) = pick_spec(s) {
            lemma_order_totality(b.eval, s.last().eval);
            assert forall|i: int| 0 <= i < s.len() implies (#[trigger] s[i]).eval.spec_le(
                b.eval,
            ) by {
                if i < s.len() - 1 {
                    let hb = pick_spec(s.drop_last()).unwrap();
                    assert(s.drop_last()[i] == s[i]);
                    lemma_order_totality(hb.eval, s.last().eval);
                    lemma_order_totality(s[i].eval, hb.eval);
                    lemma_order_totality(s[i].eval, b.eval);
                }
            }
            if b == s.last() {
                assert(s[s.len() - 1] == b);
            } else {
                let j = choose|j: int|
                    0 <= j < s.drop_last().len() && s.drop_last()[j] == b;
                assert(s[j] == b);
            }
        }
    }
}

/// Picks the best result of one depth, by the score order, keeping the
/// earliest among equals.
pub fn pick_best(results: &Vec<SearchResult>) -> (r: Option<SearchResult>)
    ensures
        r is Some <==> pick_spec(results@) is Some,
        r matches Some(b) ==> pick_spec(results@) matches Some(sb) && b.eval == sb.eval && b.pv@
            == sb.pv@ && b.nodes == sb.nodes,
{
    let mut res: Option<SearchResult> = None;
    let mut i: usize = 0;
    while i < results.len()
        invariant
            i <= results@.len(),
            res is Some <==> pick_spec(results@.take(i as int)) is Some,
            res matches Some(b) ==> pick_spec(results@.take(i as int)) matches Some(sb) && b.eval
                == sb.eval && b.pv@ == sb.pv@ && b.nodes == sb.nodes,
        decreases results@.len() - i,
    {
        proof {
            assert(results@.take(i + 1 as int).drop_last() =~= results@.take(i as int));
            assert(results@.take(i + 1 as int).last() == results@[i as int]);
        }
        match &res {
            None => {
                res = Some(results[i].duplicate());
            },
            Some(b) => {
                if b.eval < results[i].eval {
                    res = Some(results[i].duplicate());
                }
            },
        }
        i = i + 1;
    }
    proof {
        assert(results@.take(results@.len() as int) =~= results@);
    }
    res
}

/// Whether the deepening driver stops after depth `i + 1` (depths are
/// numbered from one), given the results it picks per depth: it stops on a
/// forced mate at exactly the depth just searched.
pub open spec fn stops_at(picks: Seq<Option<SearchResult>>, i: int) -> bool {
    &&& 0 <= i < picks.len()
    &&& picks[i] matches Some(r) && r.eval == Evaluation::Mate((i + 1) as i32)
}

/// How many depths the driver runs from depth `k + 1` on: it walks depth
/// after depth and ends right after the first stop.
pub open spec fn depths_from(picks: Seq<Option<SearchResult>>, k: nat) -> int
    decreases picks.len() - k,
{
    if k >= picks.len() {
        0
    } else if stops_at(picks, k as int) {
        1
    } else {
        1 + depths_from(picks, k + 1)
    }
}

/// Law: mate detection ends the deepening. If the result picked at depth
/// `d0` is a forced mate in exactly `d0` plies — and no earlier depth
/// already stopped the loop — the driver runs exactly `d0` depths, so no
/// later depth can report a slower mate for the same root.
pub proof fn lemma_mate_stops_deepening(picks: Seq<Option<SearchResult>>, i: nat)
    requires
        i < picks.len(),
        stops_at(picks, i as int),
        forall|j: int| 0 <= j < i ==> !stops_at(picks, j),
    ensures
        depths_from(picks, 0) == i + 1,
{
    lemma_depths_prefix(picks, i, 0);
}

proof fn lemma_depths_prefix(picks: Seq<Option<SearchResult>>, i: nat, k: nat)
    requires
        k <= i < picks.len(),
        stops_at(picks, i as int),
        forall|j: int| k <= j < i ==> !stops_at(picks, j),
    ensures
        depths_from(picks, k) == i + 1 - k,
    decreases i - k,
{
    if k < i {
        lemma_depths_prefix(picks, i, k + 1);
    }
}

/// The move the driver emits when the search ends: the root move of the
/// final line, which is the last element of the stored leaf-first
/// variation — or nothing, when no completed depth produced a line and
/// the protocol's null move must be sent instead.
pub fn best_move(best: &Option<SearchResult>) -> (r: Option<Move>)
    ensures
        r is Some <==> (best matches Some(b) && b.pv@.len() > 0),
        best matches Some(b) ==> (b.pv@.len() > 0 ==> r == Some(b.pv@.last())),
{
    match best {
        Some(b) => {
            if b.pv.len() > 0 {
                Some(b.pv[b.pv.len() - 1])
            } else {
                None
            }
        },
        None => None,
    }
}

/// The driver's per-depth stop condition: whether a depth-`depth` result
/// is a forced mate found at exactly this distance.
pub fn mate_at_depth(eval: &Evaluation, depth: u8) -> (r: bool)
    ensures
        r <==> *eval == Evaluation::Mate(depth as i32),
{
    match *eval {
        Evaluation::Mate(v) => v >= 0 && v == depth as i32,
        _ => false,
    }
}

/// The two derived figures of a progress line: nodes per second and cache
/// fullness in thousandths (saturated at the integer limits, and zero
/// fullness for an empty-capacity cache).
pub fn progress_stats(nodes: u64, elapsed_secs: u64, table_len: usize, table_capacity: usize) -> (r:
    (u64, u64))
    requires
        elapsed_secs < u64::MAX,
    ensures
        r.0 == nodes as int / (elapsed_secs as int + 1),
        r.1 as int == if table_capacity == 0 {
            0int
        } else {
            let permille = (table_len as int) * 1000 / (table_capacity as int);
            if permille > u64::MAX {
                u64::MAX as int
            } else {
                permille
            }
        },
{
    let nps = nodes / (elapsed_secs + 1);
    let permille: u64 = if table_capacity == 0 {
        0
    } else {
        let raw = (table_len as u128) * 1000 / (table_capacity as u128);
        if raw > u64::MAX as u128 {
            u64::MAX
        } else {
            raw as u64
        }
    };
    (nps, permille)
}

} // verus!
