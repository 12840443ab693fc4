use axel::evaluation::evaluate;
use axel::evaluation::evaluation::Evaluation;
use axel::evaluation::obvious::get_obvious_evaluation;
use shakmaty::{fen::Fen, CastlingMode, Chess};

fn position(fen: &str) -> Chess {
    fen.parse::<Fen>()
        .unwrap()
        .into_position(CastlingMode::Standard)
        .unwrap()
}

#[test]
fn starting_position_is_balanced() {
    assert_eq!(evaluate(&Chess::default()), 0);
}

#[test]
fn evaluation_mirror_symmetry() {
    // the same position with colors swapped and the board flipped
    // vertically; the side to move faces the mirrored situation
    let p = position("rnbqkbnr/pppppppp/8/8/4P3/8/PPPP1PPP/RNBQKBNR b KQkq - 0 1");
    let m = position("rnbqkbnr/pppp1ppp/8/4p3/8/8/PPPPPPPP/RNBQKBNR b KQkq - 0 1");
    assert_eq!(evaluate(&p), -evaluate(&m));

    let p2 = position("4k3/8/8/8/8/8/4P3/4K3 w - - 0 1");
    let m2 = position("4k3/4p3/8/8/8/8/8/4K3 w - - 0 1");
    assert_eq!(evaluate(&p2), -evaluate(&m2));
}

#[test]
fn material_advantage_is_positive_for_its_owner() {
    // white to move with an extra queen
    let up = position("3qk3/8/8/8/8/8/8/2QQK3 w - - 0 1");
    assert!(evaluate(&up) > 0);
    // the same position seen by black
    let down = position("3qk3/8/8/8/8/8/8/2QQK3 b - - 0 1");
    assert!(evaluate(&down) < 0);
}

#[test]
fn obvious_checkmate() {
    // fool's mate: white is checkmated
    let p = position("rnb1kbnr/pppp1ppp/8/4p3/6Pq/5P2/PPPPP2P/RNBQKBNR w KQkq - 1 3");
    assert_eq!(get_obvious_evaluation(&p), Some(Evaluation::Mate(0)));
}

#[test]
fn obvious_stalemate() {
    let p = position("7k/5Q2/6K1/8/8/8/8/8 b - - 0 1");
    assert_eq!(get_obvious_evaluation(&p), Some(Evaluation::Centipawns(0)));
}

#[test]
fn obvious_insufficient_material() {
    let p = position("7k/8/8/8/8/8/8/K7 w - - 0 1");
    assert_eq!(get_obvious_evaluation(&p), Some(Evaluation::Centipawns(0)));
}

#[test]
fn obvious_none_for_ordinary_position() {
    assert_eq!(get_obvious_evaluation(&Chess::default()), None);
}
