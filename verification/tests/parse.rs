use axel::engine::{dispatch, EngineAction};
use axel::util::gametime::GameTime;
use axel::util::uci::{UciReport, FEN_STARTPOS};

#[test]
fn parse_plain_commands() {
    assert_eq!(UciReport::parse("uci"), UciReport::Uci);
    assert_eq!(UciReport::parse("ucinewgame"), UciReport::UciNewGame);
    assert_eq!(UciReport::parse("isready"), UciReport::IsReady);
    assert_eq!(UciReport::parse("stop"), UciReport::Stop);
    assert_eq!(UciReport::parse("quit"), UciReport::Quit);
    assert_eq!(UciReport::parse("exit"), UciReport::Quit);
    assert_eq!(UciReport::parse(""), UciReport::Unknown);
    assert_eq!(UciReport::parse("bogus"), UciReport::Unknown);
    // exact commands do not match with trailing text
    assert_eq!(UciReport::parse("uci extra"), UciReport::Unknown);
}

#[test]
fn parse_go_limits() {
    assert_eq!(UciReport::parse("go"), UciReport::GoInfinite);
    assert_eq!(UciReport::parse("go infinite"), UciReport::GoInfinite);
    assert_eq!(UciReport::parse("go depth 5"), UciReport::GoDepth(5));
    assert_eq!(UciReport::parse("go depth -3"), UciReport::GoDepth(-3));
    assert_eq!(UciReport::parse("go depth xyz"), UciReport::GoDepth(1));
    assert_eq!(UciReport::parse("go movetime 200"), UciReport::GoMoveTime(200));
    assert_eq!(UciReport::parse("go nodes 100"), UciReport::GoNodes(100));
    // an overflowing number falls back to the default
    assert_eq!(
        UciReport::parse("go movetime 99999999999999999999999999"),
        UciReport::GoMoveTime(1000)
    );
}

#[test]
fn parse_go_game_time() {
    assert_eq!(
        UciReport::parse("go wtime 1000 btime 2000 winc 10 binc 20"),
        UciReport::GoGameTime(GameTime::new(1000, 10, 2000, 20))
    );
    // a single nonzero clock field is enough
    assert_eq!(
        UciReport::parse("go winc 50"),
        UciReport::GoGameTime(GameTime::new(0, 50, 0, 0))
    );
    // all-zero clocks stay an infinite search
    assert_eq!(
        UciReport::parse("go wtime 0 btime 0"),
        UciReport::GoInfinite
    );
}

#[test]
fn parse_position_startpos() {
    match UciReport::parse("position startpos") {
        UciReport::Position(fen, moves) => {
            assert_eq!(fen, FEN_STARTPOS);
            assert!(moves.is_empty());
        }
        other => panic!("unexpected report: {:?}", other),
    }
}

#[test]
fn parse_position_fen_and_moves() {
    match UciReport::parse("position fen 8/8/8/8/8/6k1/5q2/7K b - - 0 1 moves f2f1") {
        UciReport::Position(fen, moves) => {
            assert_eq!(fen, "8/8/8/8/8/6k1/5q2/7K b - - 0 1");
            assert_eq!(moves, vec!["f2f1".to_string()]);
        }
        other => panic!("unexpected report: {:?}", other),
    }
}

#[test]
fn parse_position_startpos_moves() {
    match UciReport::parse("position startpos moves e2e4 e7e5 g1f3") {
        UciReport::Position(fen, moves) => {
            assert_eq!(fen, FEN_STARTPOS);
            assert_eq!(
                moves,
                vec!["e2e4".to_string(), "e7e5".to_string(), "g1f3".to_string()]
            );
        }
        other => panic!("unexpected report: {:?}", other),
    }
}

#[test]
fn parse_is_deterministic() {
    let a = UciReport::parse("go wtime 123 btime 456");
    let b = UciReport::parse("go wtime 123 btime 456");
    assert_eq!(a, b);
}

#[test]
fn budget_follows_clock_and_increment() {
    let gt = GameTime::new(1000, 100, 2000, 200);
    assert_eq!(gt.search_budget_millis(true), 1000 / 20 + 100 * 3 / 4);
    assert_eq!(gt.search_budget_millis(false), 2000 / 20 + 200 * 3 / 4);
    let huge = GameTime::new(u128::MAX, u128::MAX, 0, 0);
    assert_eq!(huge.search_budget_millis(true), u64::MAX);
}

#[test]
fn dispatch_actions() {
    assert!(matches!(
        dispatch(UciReport::Uci, true),
        EngineAction::EmitIdentity
    ));
    assert!(matches!(
        dispatch(UciReport::UciNewGame, true),
        EngineAction::ResetGame
    ));
    assert!(matches!(
        dispatch(UciReport::GoInfinite, true),
        EngineAction::StartSearch { threads: 4, budget_millis: None }
    ));
    assert!(matches!(
        dispatch(UciReport::GoMoveTime(250), true),
        EngineAction::StartSearch { threads: 4, budget_millis: Some(250) }
    ));
    match dispatch(
        UciReport::GoGameTime(GameTime::new(1000, 100, 2000, 200)),
        false,
    ) {
        EngineAction::StartSearch { threads, budget_millis } => {
            assert_eq!(threads, 2);
            assert_eq!(budget_millis, Some(2000 / 20 + 200 * 3 / 4));
        }
        _ => panic!("unexpected action"),
    }
    assert!(matches!(
        dispatch(UciReport::Stop, true),
        EngineAction::SignalStop
    ));
    assert!(matches!(
        dispatch(UciReport::Quit, true),
        EngineAction::Shutdown
    ));
    assert!(matches!(
        dispatch(UciReport::GoDepth(3), true),
        EngineAction::Ignore
    ));
}
