//! A window-oriented score variant for search bookkeeping: beside exact
//! centipawn and mate values it distinguishes scores that are only lower or
//! upper bounds, as alpha-beta windows produce them.

use vstd::prelude::*;

verus! {

#[derive(Clone, Copy, Debug, PartialEq, Eq, Structural)]
pub enum Evaluation {
    /// An exact centipawn score.
    Exact(i32),
    /// A forced mate in `|v|` plies, signed as in the main score type.
    Mate(i32),
    /// The true score is at least this many centipawns.
    LowerBound(i32),
    /// The true score is at most this many centipawns.
    UpperBound(i32),
    /// Upper sentinel.
    Max,
    /// Lower sentinel.
    Min,
}

impl Evaluation {
    /// Values on which the ply-step transform below stays representable.
    pub open spec fn steppable(self) -> bool {
        match self {
            Evaluation::Mate(v) => -i32::MAX < v < i32::MAX,
            Evaluation::Exact(v) => i32::MIN < v,
            Evaluation::LowerBound(v) => i32::MIN < v,
            Evaluation::UpperBound(v) => i32::MIN < v,
            Evaluation::Max => true,
            Evaluation::Min => true,
        }
    }

    /// The transform a score undergoes when it returns one ply up: values
    /// negate, mate distances grow one ply away from zero, and the two
    /// bound kinds swap roles.
    pub open spec fn from_deeper_spec(value: Self) -> Self {
        match value {
            Evaluation::Mate(v) => if v == 0 {
                Evaluation::Mate(1)
            } else if v > 0 {
                Evaluation::Mate((-v - 1) as i32)
            } else {
                Evaluation::Mate((-v + 1) as i32)
            },
            Evaluation::LowerBound(v) => Evaluation::UpperBound((-v) as i32),
            Evaluation::UpperBound(v) => Evaluation::LowerBound((-v) as i32),
            Evaluation::Exact(v) => Evaluation::Exact((-v) as i32),
            Evaluation::Max => Evaluation::Min,
            Evaluation::Min => Evaluation::Max,
        }
    }

    /// Reorients a score that came back from a deeper ply.
    pub fn from_deeper(value: &Self) -> (r: Self)
        requires
            value.steppable(),
        ensures
            r == Self::from_deeper_spec(*value),
    {
        match *value {
            Evaluation::Mate(v) => {
                if v == 0 {
                    Evaluation::Mate(1)
                } else if v > 0 {
                    Evaluation::Mate(-v - 1)
                } else {
                    Evaluation::Mate(-v + 1)
                }
            },
            Evaluation::LowerBound(v) => Evaluation::UpperBound(-v),
            Evaluation::UpperBound(v) => Evaluation::LowerBound(-v),
            Evaluation::Exact(v) => Evaluation::Exact(-v),
            Evaluation::Max => Evaluation::Min,
            Evaluation::Min => Evaluation::Max,
        }
    }

    /// The centipawn value a score carries, if it carries one.
    pub open spec fn unpack_spec(self) -> Option<i32> {
        match self {
            Evaluation::Exact(v) => Some(v),
            Evaluation::LowerBound(v) => Some(v),
            Evaluation::UpperBound(v) => Some(v),
            _ => None,
        }
    }

    pub fn unpack(&self) -> (r: Option<i32>)
        ensures
            r == self.unpack_spec(),
    {
        match *self {
            Evaluation::Exact(v) => Some(v),
            Evaluation::LowerBound(v) => Some(v),
            Evaluation::UpperBound(v) => Some(v),
            _ => None,
        }
    }

    /// The score seen by the opponent: values negate, the bound kinds and
    /// the sentinels swap.
    pub open spec fn negated_spec(self) -> Self {
        match self {
            Evaluation::Exact(v) => Evaluation::Exact((-v) as i32),
            Evaluation::Mate(v) => Evaluation::Mate((-v) as i32),
            Evaluation::LowerBound(v) => Evaluation::UpperBound(v),
            Evaluation::UpperBound(v) => Evaluation::LowerBound(v),
            Evaluation::Max => Evaluation::Min,
            Evaluation::Min => Evaluation::Max,
        }
    }

    pub fn negated(self) -> (r: Self)
        requires
            match self {
                Evaluation::Exact(v) => i32::MIN < v,
                Evaluation::Mate(v) => i32::MIN < v,
                _ => true,
            },
        ensures
            r == self.negated_spec(),
    {
        match self {
            Evaluation::Exact(v) => Evaluation::Exact(-v),
            Evaluation::Mate(v) => Evaluation::Mate(-v),
            Evaluation::LowerBound(v) => Evaluation::UpperBound(v),
            Evaluation::UpperBound(v) => Evaluation::LowerBound(v),
            Evaluation::Max => Evaluation::Min,
            Evaluation::Min => Evaluation::Max,
        }
    }

    /// Comparison of two integers as an ordering value.
    pub open spec fn int_cmp(a: int, b: int) -> Option<core::cmp::Ordering> {
        if a < b {
            Some(core::cmp::Ordering::Less)
        } else if a == b {
            Some(core::cmp::Ordering::Equal)
        } else {
            Some(core::cmp::Ordering::Greater)
        }
    }

    /// The comparison this type actually performs: sentinels dominate,
    /// `Mate(0)` sorts low, losing mates compare by distance, winning mates
    /// in reverse, mates of opposite signs by sign, and the three
    /// value-carrying kinds compare by their raw values.
    pub open spec fn cmp_spec(self, other: Self) -> Option<core::cmp::Ordering> {
        match self {
            Evaluation::Max => Some(core::cmp::Ordering::Greater),
            Evaluation::Min => Some(core::cmp::Ordering::Less),
            Evaluation::Mate(v) => if v == 0 {
                Some(core::cmp::Ordering::Less)
            } else {
                match other {
                    Evaluation::Mate(v2) => if v < 0 && v2 < 0 {
                        Self::int_cmp(v as int, v2 as int)
                    } else if v >= 0 && v2 >= 0 {
                        Self::int_cmp(v2 as int, v as int)
                    } else {
                        Self::int_cmp(if v > 0 { 1int } else { -1int }, if v2 > 0 { 1int } else if v2 == 0 { 0int } else { -1int })
                    },
                    _ => if v <= 0 {
                        Some(core::cmp::Ordering::Less)
                    } else {
                        Some(core::cmp::Ordering::Greater)
                    },
                }
            },
            _ => match other {
                Evaluation::Max => Some(core::cmp::Ordering::Less),
                Evaluation::Min => Some(core::cmp::Ordering::Greater),
                Evaluation::Mate(v2) => if v2 == 0 {
                    Some(core::cmp::Ordering::Greater)
                } else if v2 < 0 {
                    Some(core::cmp::Ordering::Greater)
                } else {
                    Some(core::cmp::Ordering::Less)
                },
                _ => Self::int_cmp(
                    self.unpack_spec().unwrap() as int,
                    other.unpack_spec().unwrap() as int,
                ),
            },
        }
    }
}

impl PartialOrd for Evaluation {
    fn partial_cmp(&self, other: &Self) -> (r: Option<core::cmp::Ordering>) {
        match *self {
            Evaluation::Max => Some(core::cmp::Ordering::Greater),
            Evaluation::Min => Some(core::cmp::Ordering::Less),
            Evaluation::Mate(v) => {
                if v == 0 {
                    Some(core::cmp::Ordering::Less)
                } else {
                    match *other {
                        Evaluation::Mate(v2) => {
                            if v < 0 && v2 < 0 {
                                if v < v2 {
                                    Some(core::cmp::Ordering::Less)
                                } else if v == v2 {
                                    Some(core::cmp::Ordering::Equal)
                                } else {
                                    Some(core::cmp::Ordering::Greater)
                                }
                            } else if v >= 0 && v2 >= 0 {
                                if v2 < v {
                                    Some(core::cmp::Ordering::Less)
                                } else if v2 == v {
                                    Some(core::cmp::Ordering::Equal)
                                } else {
                                    Some(core::cmp::Ordering::Greater)
                                }
                            } else {
                                let s1: i32 = if v > 0 { 1 } else { -1 };
                                let s2: i32 = if v2 > 0 { 1 } else if v2 == 0 { 0 } else { -1 };
                                if s1 < s2 {
                                    Some(core::cmp::Ordering::Less)
                                } else if s1 == s2 {
                                    Some(core::cmp::Ordering::Equal)
                                } else {
                                    Some(core::cmp::Ordering::Greater)
                                }
                            }
                        },
                        _ => {
                            if v <= 0 {
                                Some(core::cmp::Ordering::Less)
                            } else {
                                Some(core::cmp::Ordering::Greater)
                            }
                        },
                    }
                }
            },
            _ => {
                match *other {
                    Evaluation::Max => Some(core::cmp::Ordering::Less),
                    Evaluation::Min => Some(core::cmp::Ordering::Greater),
                    Evaluation::Mate(v2) => {
                        if v2 == 0 {
                            Some(core::cmp::Ordering::Greater)
                        } else if v2 < 0 {
                            Some(core::cmp::Ordering::Greater)
                        } else {
                            Some(core::cmp::Ordering::Less)
                        }
                    },
                    _ => {
                        let a = match self.unpack() {
                            Some(a) => a,
                            None => 0,
                        };
                        let b = match other.unpack() {
                            Some(b) => b,
                            None => 0,
                        };
                        if a < b {
                            Some(core::cmp::Ordering::Less)
                        } else if a == b {
                            Some(core::cmp::Ordering::Equal)
                        } else {
                            Some(core::cmp::Ordering::Greater)
                        }
                    },
                }
            },
        }
    }
}

impl vstd::std_specs::cmp::PartialOrdSpecImpl for Evaluation {
    open spec fn obeys_partial_cmp_spec() -> bool {
        true
    }

    open spec fn partial_cmp_spec(&self, other: &Self) -> Option<core::cmp::Ordering> {
        self.cmp_spec(*other)
    }
}

} // verus!
