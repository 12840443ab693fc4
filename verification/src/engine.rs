//! The engine's command dispatch: the decision of what each parsed command
//! makes the engine do. The surrounding command loop performs the actions —
//! reading lines, spawning searches, sleeping on budgets — and hands every
//! parsed report through [`dispatch`].

use vstd::prelude::*;
use crate::util::gametime::budget_spec;
use crate::util::uci::UciReport;

verus! {

/// What the engine does in response to one command.
pub enum EngineAction {
    /// Print the identity lines and the ready marker of the protocol.
    EmitIdentity,
    /// Print `readyok`.
    EmitReady,
    /// Return to the starting position and clear the cache.
    ResetGame,
    /// Install the described position: a FEN and the moves after it.
    SetPosition(String, Vec<String>),
    /// Launch a search with this many workers; stop it after the budget,
    /// when one is given.
    StartSearch { threads: u8, budget_millis: Option<u64> },
    /// Set the stop flag of the running search.
    SignalStop,
    /// Leave the command loop.
    Shutdown,
    /// Nothing: an unknown or unsupported command.
    Ignore,
}

/// Maps a parsed command to the engine's action. Infinite and move-time
/// searches get four workers; game-clock searches get two, with the
/// mover's clock turned into a millisecond budget.
pub fn dispatch(report: UciReport, white_to_move: bool) -> (r: EngineAction)
    ensures
        report == UciReport::Uci ==> r == EngineAction::EmitIdentity,
        report == UciReport::UciNewGame ==> r == EngineAction::ResetGame,
        report == UciReport::IsReady ==> r == EngineAction::EmitReady,
        report matches UciReport::Position(fen, moves) ==> (r matches
            EngineAction::SetPosition(f2, m2) && f2 == fen && m2 == moves),
        report == UciReport::GoInfinite ==> r == (EngineAction::StartSearch {
            threads: 4,
            budget_millis: None,
        }),
        report matches UciReport::GoMoveTime(ms) ==> r == (EngineAction::StartSearch {
            threads: 4,
            budget_millis: Some(ms),
        }),
        report matches UciReport::GoGameTime(gt) ==> (r matches EngineAction::StartSearch {
            threads,
            budget_millis,
        } && threads == 2 && (budget_millis matches Some(b) && b as int == (
        if budget_spec(gt, white_to_move) > u64::MAX {
            u64::MAX as int
        } else {
            budget_spec(gt, white_to_move)
        }))),
        report == UciReport::Stop ==> r == EngineAction::SignalStop,
        report == UciReport::Quit ==> r == EngineAction::Shutdown,
        report == UciReport::Unknown || (report matches UciReport::GoDepth(_)) || (report matches
            UciReport::GoNodes(_)) ==> r == EngineAction::Ignore,
{
    match report {
        UciReport::Uci => EngineAction::EmitIdentity,
        UciReport::UciNewGame => EngineAction::ResetGame,
        UciReport::IsReady => EngineAction::EmitReady,
        UciReport::Position(fen, moves) => EngineAction::SetPosition(fen, moves),
        UciReport::GoInfinite => EngineAction::StartSearch { threads: 4, budget_millis: None },
        UciReport::GoMoveTime(ms) => EngineAction::StartSearch {
            threads: 4,
            budget_millis: Some(ms),
        },
        UciReport::GoGameTime(gt) => EngineAction::StartSearch {
            threads: 2,
            budget_millis: Some(gt.search_budget_millis(white_to_move)),
        },
        UciReport::Stop => EngineAction::SignalStop,
        UciReport::Quit => EngineAction::Shutdown,
        UciReport::GoDepth(_) => EngineAction::Ignore,
        UciReport::GoNodes(_) => EngineAction::Ignore,
        UciReport::Unknown => EngineAction::Ignore,
    }
}

} // verus!
