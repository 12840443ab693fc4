use axel::evaluation::evaluation::Evaluation;
use axel::search::move_ordering::order_moves;
use axel::search::transpositon_table::{Bound, TranspositionTable, TranspositionTableEntry};
use axel::search::util::{AlphaBetaInput, AlphaBetaParams, SearchResult};
use axel::search::{alpha_beta_search, best_move, mate_at_depth, pick_best, progress_stats};
use shakmaty::{fen::Fen, CastlingMode, Chess, Move, Position, Role, Square};
use std::sync::OnceLock;

fn position(fen: &str) -> Chess {
    fen.parse::<Fen>()
        .unwrap()
        .into_position(CastlingMode::Standard)
        .unwrap()
}

fn quiet(from: Square, to: Square) -> Move {
    Move::Normal { role: Role::Knight, from, capture: None, to, promotion: None }
}

fn capture(attacker: Role, victim: Role, from: Square, to: Square) -> Move {
    Move::Normal { role: attacker, from, capture: Some(victim), to, promotion: None }
}

#[test]
fn ordering_puts_captures_first_mvv_lva() {
    let q = quiet(Square::B1, Square::C3);
    let pawn_takes_queen = capture(Role::Pawn, Role::Queen, Square::E4, Square::D5);
    let rook_takes_pawn = capture(Role::Rook, Role::Pawn, Square::A1, Square::A7);
    let knight_takes_queen = capture(Role::Knight, Role::Queen, Square::F3, Square::D5);
    let moves = vec![q, rook_takes_pawn, knight_takes_queen, pawn_takes_queen];
    let ordered = order_moves(&moves);
    // within one victim, the formula ranks the higher-valued attacker first
    assert_eq!(
        ordered,
        vec![knight_takes_queen, pawn_takes_queen, rook_takes_pawn, q]
    );
}

#[test]
fn ordering_is_stable_and_deterministic() {
    let a = capture(Role::Bishop, Role::Rook, Square::C1, Square::G5);
    let b = capture(Role::Bishop, Role::Rook, Square::F1, Square::B5);
    let q1 = quiet(Square::B1, Square::A3);
    let q2 = quiet(Square::G1, Square::H3);
    let moves = vec![q1, a, q2, b];
    let ordered = order_moves(&moves);
    // equal keys keep their input order; quiets keep theirs
    assert_eq!(ordered, vec![a, b, q1, q2]);
    assert_eq!(order_moves(&moves), order_moves(&moves));
}

fn full_window(depth: u8) -> AlphaBetaParams {
    AlphaBetaParams::new(depth, Evaluation::Min, Evaluation::Max)
}

fn search(p: &Chess, depth: u8, stop: &OnceLock<()>, table: &TranspositionTable) -> SearchResult {
    alpha_beta_search(full_window(depth), AlphaBetaInput::new(p, stop, table)).unwrap()
}

#[test]
fn finds_mate_in_one() {
    let p = position("8/8/8/8/8/6k1/5q2/7K b - - 0 1");
    let stop = OnceLock::new();
    let table = TranspositionTable::with_capacity(1024);
    let result = search(&p, 2, &stop, &table);
    assert_eq!(result.eval, Evaluation::Mate(1));
    assert!(!result.pv.is_empty());
    // the chosen root move (stored last) delivers checkmate
    let best = *result.pv.last().unwrap();
    let mut after = p.clone();
    after.play_unchecked(best);
    assert!(after.is_checkmate());
}

#[test]
fn obvious_root_is_draw_scored() {
    let p = position("7k/8/8/8/8/8/8/K7 w - - 0 1");
    let stop = OnceLock::new();
    let table = TranspositionTable::with_capacity(64);
    let result = search(&p, 6, &stop, &table);
    assert_eq!(result.eval, Evaluation::Centipawns(0));
    assert!(result.pv.is_empty());
    assert_eq!(result.nodes, 1);
}

#[test]
fn pawn_endgame_favors_the_pawn_owner() {
    let p = position("4k3/8/8/8/8/8/4P3/4K3 w - - 0 1");
    let stop = OnceLock::new();
    let table = TranspositionTable::with_capacity(1 << 16);
    let result = search(&p, 5, &stop, &table);
    assert!(result.eval > Evaluation::Centipawns(0));
    assert!(!result.pv.is_empty());
}

#[test]
fn opening_search_plays_a_legal_move() {
    let p = Chess::default();
    let stop = OnceLock::new();
    let table = TranspositionTable::with_capacity(1 << 16);
    let result = search(&p, 3, &stop, &table);
    assert!(!result.pv.is_empty());
    let best = *result.pv.last().unwrap();
    assert!(p.legal_moves().contains(&best));
}

#[test]
fn cancelled_search_returns_none() {
    let stop = OnceLock::new();
    stop.set(()).unwrap();
    let table = TranspositionTable::with_capacity(64);
    let r = alpha_beta_search(
        full_window(3),
        AlphaBetaInput::new(&Chess::default(), &stop, &table),
    );
    assert!(r.is_none());
}

#[test]
fn warm_cache_gives_the_same_score() {
    let p = position("4k3/8/8/8/8/8/4P3/4K3 w - - 0 1");
    let stop = OnceLock::new();
    let warm = TranspositionTable::with_capacity(1 << 16);
    let s1 = search(&p, 4, &stop, &warm).eval;
    // same table again: only speed may differ, not the score
    let s2 = search(&p, 4, &stop, &warm).eval;
    // and a freshly cleared table agrees
    let fresh = TranspositionTable::with_capacity(1 << 16);
    let s3 = search(&p, 4, &stop, &fresh).eval;
    assert_eq!(s1, s2);
    assert_eq!(s1, s3);
}

#[test]
fn table_stores_and_returns_entries() {
    let table = TranspositionTable::with_capacity(1024);
    assert_eq!(table.len(), 0);
    assert!(table.get(42).is_none());
    let entry = TranspositionTableEntry::new(
        Evaluation::Centipawns(17),
        3,
        vec![quiet(Square::B1, Square::C3)],
        99,
        Bound::Exact,
    );
    table.insert(42, entry);
    let got = table.get(42).unwrap();
    assert_eq!(got.eval, Evaluation::Centipawns(17));
    assert_eq!(got.depth, 3);
    assert_eq!(got.nodes, 99);
    assert!(matches!(got.bound, Bound::Exact));
    assert_eq!(got.pv, vec![quiet(Square::B1, Square::C3)]);
    assert_eq!(table.len(), 1);
    // overwrite behaves like removal plus insert
    let replacement = TranspositionTableEntry::new(
        Evaluation::Mate(2),
        7,
        vec![],
        1,
        Bound::Lower,
    );
    table.insert(42, replacement);
    let got = table.get(42).unwrap();
    assert_eq!(got.eval, Evaluation::Mate(2));
    assert_eq!(got.depth, 7);
    assert_eq!(table.len(), 1);
    table.clear();
    assert_eq!(table.len(), 0);
    assert!(table.get(42).is_none());
}

#[test]
fn pick_best_takes_greatest_score_earliest_first() {
    let mk = |eval, nodes| SearchResult::new(eval, vec![], nodes);
    assert!(pick_best(&vec![]).is_none());
    let results = vec![
        mk(Evaluation::Centipawns(10), 1),
        mk(Evaluation::Mate(3), 2),
        mk(Evaluation::Mate(3), 3),
        mk(Evaluation::Centipawns(500), 4),
    ];
    let best = pick_best(&results).unwrap();
    assert_eq!(best.eval, Evaluation::Mate(3));
    // the earliest of the equal bests is kept
    assert_eq!(best.nodes, 2);
}

#[test]
fn best_move_is_root_of_final_line() {
    assert!(best_move(&None).is_none());
    let no_line = SearchResult::new(Evaluation::Centipawns(0), vec![], 1);
    assert!(best_move(&Some(no_line)).is_none());
    let leaf = quiet(Square::G8, Square::F6);
    let root = quiet(Square::G1, Square::F3);
    let with_line = SearchResult::new(Evaluation::Centipawns(12), vec![leaf, root], 5);
    assert_eq!(best_move(&Some(with_line)), Some(root));
}

#[test]
fn mate_at_depth_is_exact() {
    assert!(mate_at_depth(&Evaluation::Mate(3), 3));
    assert!(!mate_at_depth(&Evaluation::Mate(-3), 3));
    assert!(!mate_at_depth(&Evaluation::Mate(2), 3));
    assert!(!mate_at_depth(&Evaluation::Centipawns(3), 3));
    assert!(mate_at_depth(&Evaluation::Mate(0), 0));
}

#[test]
fn progress_stats_values() {
    assert_eq!(progress_stats(1000, 4, 50, 100), (200, 500));
    assert_eq!(progress_stats(1000, 0, 0, 100), (1000, 0));
    assert_eq!(progress_stats(7, 6, 3, 0), (1, 0));
}
