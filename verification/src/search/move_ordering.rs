//! Deterministic MVV-LVA move ordering.
//!
//! Each move gets an integer key from the victim-minus-attacker formula:
//! captures of more valuable victims rank earlier, quiet moves all share
//! key zero. The list is then stably sorted by ascending key, so captures
//! precede quiet moves and equal keys keep their generation order.

use vstd::prelude::*;
use shakmaty::Move;
use crate::chess::{attacker_of, capture_role_of, move_attacker_role, move_capture_role};

verus! {

/// The sort key of a move: `-12 * victim - attacker` for a capture, else 0.
pub open spec fn key_of(m: Move) -> int {
    match capture_role_of(m) {
        Some(v) => -12 * (v as int) - (attacker_of(m) as int),
        None => 0,
    }
}


fn score_move(move_: &Move) -> (r: i32)
    ensures
        r as int == key_of(*move_),
{
    let victim = move_capture_role(move_);
    match victim {
        Some(v) => {
            let attacker = move_attacker_role(move_);
            assert(1 <= v <= 6);
            assert(1 <= attacker <= 6);
            let victim_part: i32 = 12 * (v as i32);
            0 - victim_part - (attacker as i32)
        },
        None => 0,
    }
}

/// `m` inserted into `s` after every element whose key is not above its own:
/// one step of a stable insertion sort.
pub open spec fn insert_sorted(s: Seq<Move>, m: Move) -> Seq<Move>
    decreases s.len(),
{
    if s.len() == 0 {
        seq![m]
    } else if key_of(m) < key_of(s.last()) {
        insert_sorted(s.drop_last(), m).push(s.last())
    } else {
        s.push(m)
    }
}

/// The stable ascending-key ordering of a move list.
pub open spec fn spec_order(s: Seq<Move>) -> Seq<Move>
    decreases s.len(),
{
    if s.len() == 0 {
        Seq::empty()
    } else {
        insert_sorted(spec_order(s.drop_last()), s.last())
    }
}

/// Keys never decrease along the list.
pub open spec fn sorted_by_key(s: Seq<Move>) -> bool {
    forall|i: int, j: int| 0 <= i <= j < s.len() ==> key_of(s[i]) <= key_of(s[j])
}

proof fn lemma_insert_at(s: Seq<Move>, m: Move, p: int)
    requires
        0 <= p <= s.len(),
        forall|j: int| p <= j < s.len() ==> key_of(#[trigger] s[j]) > key_of(m),
        p > 0 ==> key_of(s[p - 1]) <= key_of(m),
    ensures
        insert_sorted(s, m) == s.subrange(0, p) + seq![m] + s.subrange(p, s.len() as int),
    decreases s.len(),
{
    if s.len() == 0 {
        assert(insert_sorted(s, m) =~= s.subrange(0, p) + seq![m] + s.subrange(p, 0));
    } else if p == s.len() {
        assert(insert_sorted(s, m) == s.push(m));
        assert(s.push(m) =~= s.subrange(0, p) + seq![m] + s.subrange(p, s.len() as int));
    } else {
        assert(key_of(s.last()) > key_of(m));
        lemma_insert_at(s.drop_last(), m, p);
        assert(insert_sorted(s, m) == insert_sorted(s.drop_last(), m).push(s.last()));
        assert((s.drop_last().subrange(0, p) + seq![m] + s.drop_last().subrange(
            p,
            s.len() - 1,
        )).push(s.last()) =~= s.subrange(0, p) + seq![m] + s.subrange(p, s.len() as int));
    }
}

proof fn lemma_insert_props(s: Seq<Move>, m: Move)
    ensures
        insert_sorted(s, m).len() == s.len() + 1,
        forall|x: Move| #[trigger]
            insert_sorted(s, m).contains(x) ==> s.contains(x) || x == m,
        sorted_by_key(s) ==> sorted_by_key(insert_sorted(s, m)),
    decreases s.len(),
{
    if s.len() == 0 {
    } else if key_of(m) < key_of(s.last()) {
        lemma_insert_props(s.drop_last(), m);
        assert forall|x: Move| #[trigger] insert_sorted(s, m).contains(x) implies s.contains(x)
            || x == m by {
            if x != s.last() {
                let t = insert_sorted(s.drop_last(), m);
                let i = choose|i: int| 0 <= i < insert_sorted(s, m).len() && insert_sorted(s, m)[i]
                    == x;
                if i < t.len() {
                    assert(t.contains(x));
                    if s.drop_last().contains(x) {
                        let j = choose|j: int|
                            0 <= j < s.drop_last().len() && s.drop_last()[j] == x;
                        assert(s[j] == x);
                    }
                }
            } else {
                assert(s.contains(x)) by {
                    assert(s[s.len() - 1] == x);
                }
            }
        }
        if sorted_by_key(s) {
            assert(sorted_by_key(s.drop_last())) by {
                assert(forall|i: int, j: int|
                    0 <= i <= j < s.len() - 1 ==> key_of(s.drop_last()[i]) == key_of(s[i])
                        && key_of(s.drop_last()[j]) == key_of(s[j]));
            }
            let t = insert_sorted(s.drop_last(), m);
            assert forall|i: int, j: int|
                0 <= i <= j < insert_sorted(s, m).len() implies key_of(
                insert_sorted(s, m)[i],
            ) <= key_of(insert_sorted(s, m)[j]) by {
                if j == insert_sorted(s, m).len() - 1 && i < j {
                    // the final element is s.last(); everything in t came
                    // from s.drop_last() or is m, and all have keys <= it
                    assert(t.contains(t[i]));
                    if t[i] != m {
                        assert(s.drop_last().contains(t[i]));
                        let k = choose|k: int|
                            0 <= k < s.drop_last().len() && s.drop_last()[k] == t[i];
                        assert(key_of(s[k]) <= key_of(s[s.len() - 1]));
                    }
                }
            }
        }
    } else {
        assert forall|x: Move| #[trigger] insert_sorted(s, m).contains(x) implies s.contains(x)
            || x == m by {
            let i = choose|i: int| 0 <= i < s.push(m).len() && s.push(m)[i] == x;
            if i < s.len() {
                assert(s[i] == x);
            }
        }
        if sorted_by_key(s) {
            assert forall|i: int, j: int| 0 <= i <= j < s.push(m).len() implies key_of(
                s.push(m)[i],
            ) <= key_of(s.push(m)[j]) by {
                if j == s.len() && i < j {
                    assert(key_of(s[i]) <= key_of(s.last()));
                }
            }
        }
    }
}

proof fn lemma_order_props(s: Seq<Move>)
    ensures
        spec_order(s).len() == s.len(),
        forall|x: Move| #[trigger] spec_order(s).contains(x) ==> s.contains(x),
        sorted_by_key(spec_order(s)),
    decreases s.len(),
{
    if s.len() > 0 {
        lemma_order_props(s.drop_last());
        lemma_insert_props(spec_order(s.drop_last()), s.last());
        assert forall|x: Move| #[trigger] spec_order(s).contains(x) implies s.contains(x) by {
            if x == s.last() {
                assert(s[s.len() - 1] == x);
            } else if spec_order(s.drop_last()).contains(x) {
                assert(s.drop_last().contains(x));
                let j = choose|j: int| 0 <= j < s.drop_last().len() && s.drop_last()[j] == x;
                assert(s[j] == x);
            }
        }
    }
}

/// Law: move ordering is deterministic, a pure function of the input
/// list: two equal lists order identically, and `order_moves` returns
/// exactly that ordering.
pub proof fn lemma_order_deterministic(a: Seq<Move>, b: Seq<Move>)
    requires
        a == b,
    ensures
        spec_order(a) == spec_order(b),
{
}

/// Returns a stably sorted copy of the move list: ascending by key, so
/// captures come first, best captures earliest, and the order is a pure
/// function of the input list.
pub fn order_moves(moves: &Vec<Move>) -> (r: Vec<Move>)
    ensures
        r@ == spec_order(moves@),
        r@.len() == moves@.len(),
        forall|i: int| 0 <= i < r@.len() ==> moves@.contains(#[trigger] r@[i]),
        sorted_by_key(r@),
{
    let n = moves.len();
    let mut r: Vec<Move> = Vec::new();
    let mut i: usize = 0;
    while i < n
        invariant
            n == moves@.len(),
            i <= n,
            r@ == spec_order(moves@.take(i as int)),
            r@.len() == i,
        decreases n - i,
    {
        let m = moves[i];
        let k = score_move(&m);
        let mut p: usize = r.len();
        while p > 0 && score_move(&r[p - 1]) > k
            invariant
                p <= r@.len(),
                k as int == key_of(m),
                forall|j: int| p <= j < r@.len() ==> key_of(#[trigger] r@[j]) > key_of(m),
            decreases p,
        {
            p = p - 1;
        }
        proof {
            lemma_insert_at(r@, m, p as int);
            lemma_order_props(moves@.take(i as int));
            assert(moves@.take(i + 1 as int).drop_last() =~= moves@.take(i as int));
            assert(moves@.take(i + 1 as int).last() == moves@[i as int]);
        }
        r.insert(p, m);
        proof {
            assert(r@ =~= spec_order(moves@.take(i as int)).subrange(0, p as int) + seq![m]
                + spec_order(moves@.take(i as int)).subrange(
                p as int,
                spec_order(moves@.take(i as int)).len() as int,
            ));
        }
        i = i + 1;
    }
    proof {
        assert(moves@.take(n as int) =~= moves@);
        lemma_order_props(moves@);
        assert forall|i2: int| 0 <= i2 < r@.len() implies moves@.contains(#[trigger] r@[i2]) by {
            assert(r@.contains(r@[i2]));
        }
    }
    r
}

} // verus!
