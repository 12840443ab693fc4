//! The game clock of a timed search command, and the budget the engine
//! allots from it.

use vstd::prelude::*;

verus! {

/// Remaining time and increment per side, in milliseconds.
#[derive(Clone, Copy, Debug, PartialEq, Eq, Structural)]
pub struct GameTime {
    pub wtime: u128,
    pub winc: u128,
    pub btime: u128,
    pub binc: u128,
}

/// The milliseconds a timed search may spend: a twentieth of the mover's
/// remaining clock plus three quarters of the mover's increment.
pub open spec fn budget_spec(gt: GameTime, white_to_move: bool) -> int {
    let time: int = if white_to_move { gt.wtime as int } else { gt.btime as int };
    let inc: int = if white_to_move { gt.winc as int } else { gt.binc as int };
    time / 20 + inc * 3 / 4
}

impl GameTime {
    pub fn new(wtime: u128, winc: u128, btime: u128, binc: u128) -> (r: Self)
        ensures
            r.wtime == wtime,
            r.winc == winc,
            r.btime == btime,
            r.binc == binc,
    {
        Self { wtime, winc, btime, binc }
    }

    /// The search budget for the side to move, saturated at the largest
    /// millisecond count a timer can take.
    pub fn search_budget_millis(&self, white_to_move: bool) -> (r: u64)
        ensures
            r as int == if budget_spec(*self, white_to_move) > u64::MAX {
                u64::MAX as int
            } else {
                budget_spec(*self, white_to_move)
            },
    {
        let time: u128 = if white_to_move { self.wtime } else { self.btime };
        let inc: u128 = if white_to_move { self.winc } else { self.binc };
        let base = time / 20;
        if inc > u128::MAX / 3 {
            proof {
                assert(inc * 3 / 4 > u64::MAX) by (nonlinear_arith)
                    requires
                        inc > u128::MAX / 3,
                ;
            }
            return u64::MAX;
        }
        let bonus = inc * 3 / 4;
        proof {
            assert(base + bonus <= u128::MAX) by (nonlinear_arith)
                requires
                    base == time / 20,
                    bonus == inc * 3 / 4,
                    time <= u128::MAX,
                    inc <= u128::MAX,
            ;
        }
        let total = base + bonus;
        if total > u64::MAX as u128 {
            u64::MAX
        } else {
            total as u64
        }
    }
}

} // verus!
