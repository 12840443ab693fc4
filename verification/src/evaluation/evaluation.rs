//! The score algebra of the search.
//!
//! A score is a centipawn value, a forced-mate distance in plies, or one of
//! two sentinel window bounds. Scores carry a total order
//! (`Min < Mate(v<0) < Centipawns(v) < Mate(v>0) < Max`, with `Mate(0)` the
//! least of all mate scores), a negation, and the two "step one ply"
//! transforms used when a score crosses a recursion boundary.

use vstd::prelude::*;

verus! {

/// Largest mate-distance magnitude a score may carry. The ply-step transform
/// clamps at this horizon, so score arithmetic never overflows; no search of
/// realistic depth comes anywhere near it.
pub const MATE_LIMIT: i32 = 1_000_000;

/// A position score, relative to the side to move.
#[derive(Clone, Copy, Debug, PartialEq, Eq, Structural)]
pub enum Evaluation {
    /// A centipawn estimate.
    Centipawns(i32),
    /// Forced mate in `|v|` plies; positive means the side to move wins,
    /// `Mate(0)` means the side to move is checkmated now.
    Mate(i32),
    /// Upper sentinel window bound, greater than every other score.
    Max,
    /// Lower sentinel window bound, less than every other score.
    Min,
}

impl Evaluation {
    /// Scores produced and consumed by the search: centipawn values above the
    /// unrepresentable `i32::MIN`, mate distances within the clamp horizon.
    pub open spec fn valid(self) -> bool {
        match self {
            Evaluation::Centipawns(v) => i32::MIN < v,
            Evaluation::Mate(v) => -MATE_LIMIT <= v && v <= MATE_LIMIT,
            Evaluation::Max => true,
            Evaluation::Min => true,
        }
    }

    /// Coarse position of a score in the total order: sentinels at the ends,
    /// losing mates below all centipawn scores, winning mates above them.
    pub open spec fn tier(self) -> int {
        match self {
            Evaluation::Min => 0,
            Evaluation::Mate(v) => if v > 0 { 3int } else { 1int },
            Evaluation::Centipawns(_) => 2,
            Evaluation::Max => 4,
        }
    }

    /// Position within a tier, increasing with strength: centipawns by value,
    /// mates by negated distance (a faster win ranks higher, a slower loss
    /// ranks higher, and `Mate(0)` is the least mate score).
    pub open spec fn key(self) -> int {
        match self {
            Evaluation::Min => 0,
            Evaluation::Mate(v) => -(v as int),
            Evaluation::Centipawns(v) => v as int,
            Evaluation::Max => 0,
        }
    }

    /// The strict total order on scores.
    pub open spec fn spec_lt(self, other: Self) -> bool {
        self.tier() < other.tier() || (self.tier() == other.tier() && self.key() < other.key())
    }

    /// The reflexive total order on scores.
    pub open spec fn spec_le(self, other: Self) -> bool {
        self.spec_lt(other) || self == other
    }

    /// Negation, seen from the opponent: centipawns and mate distances flip
    /// sign, the sentinels swap. The unrepresentable negation of `i32::MIN`
    /// is extended by fixing that one point; `valid` scores never reach it.
    pub open spec fn negated_spec(self) -> Self {
        match self {
            Evaluation::Centipawns(v) => if v == i32::MIN {
                Evaluation::Centipawns(i32::MIN)
            } else {
                Evaluation::Centipawns((-v) as i32)
            },
            Evaluation::Mate(v) => if v == i32::MIN {
                Evaluation::Mate(i32::MIN)
            } else {
                Evaluation::Mate((-v) as i32)
            },
            Evaluation::Max => Evaluation::Min,
            Evaluation::Min => Evaluation::Max,
        }
    }

    /// The transform applied to a child score when it returns to its parent,
    /// one ply up: negate, and grow the mate distance by one ply away from
    /// zero (clamped at the mate horizon).
    pub open spec fn from_deeper_spec(value: Self) -> Self {
        match value {
            Evaluation::Mate(v) => if v == 0 {
                Evaluation::Mate(1)
            } else if v > 0 {
                Evaluation::Mate(if v >= MATE_LIMIT { (-MATE_LIMIT) as i32 } else { (-v - 1) as i32 })
            } else {
                Evaluation::Mate(if v <= (-MATE_LIMIT) as i32 { MATE_LIMIT } else { (-v + 1) as i32 })
            },
            Evaluation::Centipawns(_) => value.negated_spec(),
            Evaluation::Max => Evaluation::Min,
            Evaluation::Min => Evaluation::Max,
        }
    }

    /// The transform applied to a window bound when it is handed one ply
    /// down, into the child's frame: negate, and shrink the mate distance by
    /// one ply toward zero.
    pub open spec fn to_deeper_spec(self) -> Self {
        match self {
            Evaluation::Mate(v) => if v > 0 {
                Evaluation::Mate((-v + 1) as i32)
            } else if v < 0 {
                Evaluation::Mate((-v - 1) as i32)
            } else {
                self
            },
            Evaluation::Centipawns(_) => self.negated_spec(),
            Evaluation::Max => Evaluation::Min,
            Evaluation::Min => Evaluation::Max,
        }
    }

    /// Reorients a score that came back from a deeper ply.
    pub fn from_deeper(value: &Self) -> (r: Self)
        requires
            value.valid(),
        ensures
            r == Self::from_deeper_spec(*value),
            r.valid(),
    {
        match *value {
            Evaluation::Mate(0) => Evaluation::Mate(1),
            Evaluation::Mate(v) if v > 0 => Evaluation::Mate(
                if v >= MATE_LIMIT { -MATE_LIMIT } else { -v - 1 },
            ),
            Evaluation::Mate(v) => Evaluation::Mate(
                if v <= -MATE_LIMIT { MATE_LIMIT } else { -v + 1 },
            ),
            Evaluation::Centipawns(v) => Evaluation::Centipawns(-v),
            Evaluation::Max => Evaluation::Min,
            Evaluation::Min => Evaluation::Max,
        }
    }

    /// Reorients a window bound for the next-deeper ply.
    pub fn to_deeper(self) -> (r: Self)
        requires
            self.valid(),
        ensures
            r == self.to_deeper_spec(),
            r.valid(),
    {
        match self {
            Evaluation::Mate(v) if v > 0 => Evaluation::Mate(-v + 1),
            Evaluation::Mate(v) if v < 0 => Evaluation::Mate(-v - 1),
            Evaluation::Centipawns(v) => Evaluation::Centipawns(-v),
            Evaluation::Max => Evaluation::Min,
            Evaluation::Min => Evaluation::Max,
            _ => self,
        }
    }

    /// The score as seen by the opponent.
    pub fn negated(self) -> (r: Self)
        requires
            self.valid(),
        ensures
            r == self.negated_spec(),
            r.valid(),
    {
        match self {
            Evaluation::Centipawns(v) => Evaluation::Centipawns(-v),
            Evaluation::Mate(v) => Evaluation::Mate(-v),
            Evaluation::Max => Evaluation::Min,
            Evaluation::Min => Evaluation::Max,
        }
    }
}

impl PartialOrd for Evaluation {
    fn partial_cmp(&self, other: &Self) -> (r: Option<core::cmp::Ordering>) {
        let st = match *self {
            Evaluation::Min => 0u8,
            Evaluation::Mate(v) => if v > 0 { 3u8 } else { 1u8 },
            Evaluation::Centipawns(_) => 2u8,
            Evaluation::Max => 4u8,
        };
        let ot = match *other {
            Evaluation::Min => 0u8,
            Evaluation::Mate(v) => if v > 0 { 3u8 } else { 1u8 },
            Evaluation::Centipawns(_) => 2u8,
            Evaluation::Max => 4u8,
        };
        if st < ot {
            Some(core::cmp::Ordering::Less)
        } else if ot < st {
            Some(core::cmp::Ordering::Greater)
        } else {
            match (*self, *other) {
                (Evaluation::Centipawns(a), Evaluation::Centipawns(b)) => {
                    if a < b {
                        Some(core::cmp::Ordering::Less)
                    } else if b < a {
                        Some(core::cmp::Ordering::Greater)
                    } else {
                        Some(core::cmp::Ordering::Equal)
                    }
                },
                (Evaluation::Mate(a), Evaluation::Mate(b)) => {
                    // keys are the negated distances, so the comparison flips
                    if b < a {
                        Some(core::cmp::Ordering::Less)
                    } else if a < b {
                        Some(core::cmp::Ordering::Greater)
                    } else {
                        Some(core::cmp::Ordering::Equal)
                    }
                },
                _ => Some(core::cmp::Ordering::Equal),
            }
        }
    }
}

impl vstd::std_specs::cmp::PartialOrdSpecImpl for Evaluation {
    open spec fn obeys_partial_cmp_spec() -> bool {
        true
    }

    open spec fn partial_cmp_spec(&self, other: &Self) -> Option<core::cmp::Ordering> {
        if self.spec_lt(*other) {
            Some(core::cmp::Ordering::Less)
        } else if *self == *other {
            Some(core::cmp::Ordering::Equal)
        } else {
            Some(core::cmp::Ordering::Greater)
        }
    }
}

impl Evaluation {
    /// The protocol form of a score, `(is_mate, value)`: centipawns as
    /// they are, mates as signed full-move counts `sign * (plies+1)/2`
    /// with `Mate(0)` as zero, and the sentinels as the extreme
    /// centipawn values.
    pub open spec fn uci_parts_spec(s: Evaluation) -> (bool, i32) {
        match s {
            Evaluation::Centipawns(v) => (false, v),
            Evaluation::Mate(v) => (
                true,
                if v == 0 {
                    0i32
                } else if v > 0 {
                    ((v + 1) / 2) as i32
                } else {
                    (-((-v + 1) / 2)) as i32
                },
            ),
            Evaluation::Max => (false, i32::MAX),
            Evaluation::Min => (false, i32::MIN),
        }
    }

    /// Decides [`Self::valid`]: whether the score is one the search
    /// produces and consumes.
    pub fn is_valid(&self) -> (r: bool)
        ensures
            r == self.valid(),
    {
        match *self {
            Evaluation::Centipawns(v) => i32::MIN < v,
            Evaluation::Mate(v) => -MATE_LIMIT <= v && v <= MATE_LIMIT,
            _ => true,
        }
    }

    /// The score as the protocol renders it: whether it is a mate, and
    /// the number to print.
    pub fn uci_score(&self) -> (r: (bool, i32))
        requires
            self.valid(),
        ensures
            r == Self::uci_parts_spec(*self),
    {
        match *self {
            Evaluation::Centipawns(v) => (false, v),
            Evaluation::Mate(v) => {
                if v == 0 {
                    (true, 0)
                } else if v > 0 {
                    (true, (v + 1) / 2)
                } else {
                    (true, -((-v + 1) / 2))
                }
            },
            Evaluation::Max => (false, i32::MAX),
            Evaluation::Min => (false, i32::MIN),
        }
    }
}

/// Law: the score order is total. For any two scores exactly one of
/// `a < b`, `a == b`, `b < a` holds.
pub proof fn lemma_order_totality(a: Evaluation, b: Evaluation)
    ensures
        a.spec_lt(b) || a == b || b.spec_lt(a),
        a.spec_lt(b) ==> a != b && !b.spec_lt(a),
        a == b ==> !a.spec_lt(b) && !b.spec_lt(a),
{
}

/// Law: the order is transitive, so together with totality it is a strict
/// total order.
pub proof fn lemma_order_transitive(a: Evaluation, b: Evaluation, c: Evaluation)
    requires
        a.spec_lt(b),
        b.spec_lt(c),
    ensures
        a.spec_lt(c),
{
}

/// Law: negation is an involution, `-(-s) == s` for every score.
pub proof fn lemma_negation_involution(s: Evaluation)
    ensures
        s.negated_spec().negated_spec() == s,
{
}

/// Law: two consecutive ply-step transforms of a centipawn score give the
/// score back, `step(step(Cp(v))) == Cp(v)`.
pub proof fn lemma_step_involution_centipawns(v: i32)
    ensures
        Evaluation::from_deeper_spec(
            Evaluation::from_deeper_spec(Evaluation::Centipawns(v)),
        ) == Evaluation::Centipawns(v),
{
}

} // verus!
