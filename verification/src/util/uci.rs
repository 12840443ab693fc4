//! Parsing of the line-oriented command protocol into reports.
//!
//! A command line is split into tokens on ASCII whitespace; the `go` and
//! `position` commands then run a small token-state machine over the
//! tokens. Numeric arguments follow the usual decimal grammar — an
//! optional sign, then digits, rejected on overflow — and a bad or
//! oversized number falls back to a forgiving default.

use vstd::prelude::*;
use vstd::string::StrSliceExecFns;
use vstd::string::StringExecFns;
use super::gametime::GameTime;

verus! {

pub const FEN_STARTPOS: &'static str = "rnbqkbnr/pppppppp/8/8/8/8/PPPPPPPP/RNBQKBNR w KQkq - 0 1";

/// A parsed engine command.
#[derive(PartialEq, Clone, Debug)]
pub enum UciReport {
    Uci,
    UciNewGame,
    IsReady,
    /// A position: the FEN text and the moves to apply after it.
    Position(String, Vec<String>),
    GoInfinite,
    GoDepth(i8),
    GoMoveTime(u64),
    GoNodes(usize),
    GoGameTime(GameTime),
    Stop,
    Quit,
    /// An empty or unrecognized command.
    Unknown,
}

/// The token separators: ASCII whitespace.
pub open spec fn is_ws(c: char) -> bool {
    c == ' ' || c == '\t' || c == '\n' || c == '\r' || c == '\u{c}'
}

fn is_ws_exec(c: char) -> (r: bool)
    ensures
        r == is_ws(c),
{
    c == ' ' || c == '\t' || c == '\n' || c == '\r' || c == '\u{c}'
}

/// The tokens of `s` with `cur` as the token under construction.
pub open spec fn tok_rec(s: Seq<char>, cur: Seq<char>) -> Seq<Seq<char>>
    decreases s.len(),
{
    if s.len() == 0 {
        if cur.len() > 0 {
            seq![cur]
        } else {
            Seq::empty()
        }
    } else if is_ws(s[0]) {
        if cur.len() > 0 {
            seq![cur] + tok_rec(s.skip(1), Seq::empty())
        } else {
            tok_rec(s.skip(1), Seq::empty())
        }
    } else {
        tok_rec(s.skip(1), cur.push(s[0]))
    }
}

/// The maximal runs of non-whitespace characters, in order.
pub open spec fn spec_tokenize(s: Seq<char>) -> Seq<Seq<char>> {
    tok_rec(s, Seq::empty())
}

/// Splits a command line into its whitespace-separated tokens.
fn tokenize(cmd: &str) -> (out: Vec<String>)
    ensures
        out@.map_values(|t: String| t@) == spec_tokenize(cmd@),
{
    let n = cmd.unicode_len();
    let ghost s = cmd@;
    let mut out: Vec<String> = Vec::new();
    let mut start: usize = 0;
    let mut i: usize = 0;
    proof {
        assert(s.skip(0) =~= s);
        assert(s.subrange(0, 0) =~= Seq::<char>::empty());
        assert(Seq::<String>::empty().map_values(|t: String| t@) =~= Seq::<Seq<char>>::empty());
        assert(Seq::<Seq<char>>::empty() + tok_rec(s, Seq::<char>::empty()) =~= tok_rec(
            s,
            Seq::<char>::empty(),
        ));
    }
    while i < n
        invariant
            n == s.len(),
            cmd@ == s,
            start <= i <= n,
            spec_tokenize(s) == out@.map_values(|t: String| t@) + tok_rec(
                s.skip(i as int),
                s.subrange(start as int, i as int),
            ),
        decreases n - i,
    {
        let c = cmd.get_char(i);
        proof {
            assert(s.skip(i as int)[0] == s[i as int]);
            assert(s.skip(i as int).skip(1) =~= s.skip(i + 1 as int));
        }
        if is_ws_exec(c) {
            if start < i {
                let token = cmd.substring_char(start, i).to_owned();
                out.push(token);
                proof {
                    assert(out@.map_values(|t: String| t@) =~= out@.drop_last().map_values(
                        |t: String| t@,
                    ).push(s.subrange(start as int, i as int)));
                    assert(out@.drop_last().map_values(|t: String| t@) + (seq![
                        s.subrange(start as int, i as int),
                    ] + tok_rec(s.skip(i + 1 as int), Seq::empty())) =~= out@.map_values(
                        |t: String| t@,
                    ) + tok_rec(s.skip(i + 1 as int), Seq::empty()));
                }
            }
            start = i + 1;
            proof {
                assert(s.subrange(start as int, start as int) =~= Seq::<char>::empty());
            }
        } else {
            proof {
                assert(s.subrange(start as int, i + 1 as int) =~= s.subrange(
                    start as int,
                    i as int,
                ).push(s[i as int]));
            }
        }
        i = i + 1;
    }
    if start < n {
        let token = cmd.substring_char(start, n).to_owned();
        out.push(token);
        proof {
            assert(s.subrange(start as int, n as int).len() > 0);
            assert(s.skip(n as int).len() == 0);
            assert(out@.map_values(|t: String| t@) =~= out@.drop_last().map_values(
                |t: String| t@,
            ).push(s.subrange(start as int, n as int)));
            assert(out@.drop_last().map_values(|t: String| t@) + seq![
                s.subrange(start as int, n as int),
            ] =~= out@.map_values(|t: String| t@));
        }
    } else {
        proof {
            assert(s.skip(n as int).len() == 0);
            assert(out@.map_values(|t: String| t@) + Seq::<Seq<char>>::empty() =~= out@.map_values(
                |t: String| t@,
            ));
        }
    }
    out
}

/// Whether two strings hold the same characters.
fn str_eq_str(a: &str, b: &str) -> (r: bool)
    ensures
        r == (a@ == b@),
{
    let n = a.unicode_len();
    let m = b.unicode_len();
    if n != m {
        proof {
            if a@ == b@ {
                assert(a@.len() == b@.len());
            }
        }
        return false;
    }
    let mut i: usize = 0;
    while i < n
        invariant
            n == a@.len(),
            n == b@.len(),
            i <= n,
            forall|j: int| 0 <= j < i ==> a@[j] == b@[j],
        decreases n - i,
    {
        if a.get_char(i) != b.get_char(i) {
            return false;
        }
        i = i + 1;
    }
    proof {
        assert(a@ =~= b@);
    }
    true
}

/// The value of a decimal digit, or -1 for any other character.
pub open spec fn digit_of(c: char) -> int {
    if c == '0' {
        0
    } else if c == '1' {
        1
    } else if c == '2' {
        2
    } else if c == '3' {
        3
    } else if c == '4' {
        4
    } else if c == '5' {
        5
    } else if c == '6' {
        6
    } else if c == '7' {
        7
    } else if c == '8' {
        8
    } else if c == '9' {
        9
    } else {
        -1
    }
}

/// The value of a digit string.
pub open spec fn digits_val(s: Seq<char>) -> int
    decreases s.len(),
{
    if s.len() == 0 {
        0
    } else {
        digits_val(s.drop_last()) * 10 + digit_of(s.last())
    }
}

/// Whether `s` is one or more decimal digits.
pub open spec fn all_digits(s: Seq<char>) -> bool {
    s.len() >= 1 && forall|i: int| 0 <= i < s.len() ==> digit_of(#[trigger] s[i]) >= 0
}

/// The unsigned decimal grammar: an optional leading `+`, then digits.
pub open spec fn spec_parse_uint(s: Seq<char>) -> Option<int> {
    let body = if s.len() >= 1 && s[0] == '+' {
        s.skip(1)
    } else {
        s
    };
    if all_digits(body) {
        Some(digits_val(body))
    } else {
        None
    }
}

/// The signed decimal grammar: an optional leading `+` or `-`, then digits.
pub open spec fn spec_parse_int(s: Seq<char>) -> Option<int> {
    if s.len() >= 1 && s[0] == '-' {
        if all_digits(s.skip(1)) {
            Some(-digits_val(s.skip(1)))
        } else {
            None
        }
    } else {
        spec_parse_uint(s)
    }
}

proof fn lemma_digits_nonneg(s: Seq<char>)
    requires
        forall|i: int| 0 <= i < s.len() ==> digit_of(#[trigger] s[i]) >= 0,
    ensures
        digits_val(s) >= 0,
    decreases s.len(),
{
    if s.len() > 0 {
        lemma_digits_nonneg(s.drop_last());
    }
}

/// A digit string is worth at least any of its prefixes.
proof fn lemma_digits_prefix(s: Seq<char>, k: int)
    requires
        0 <= k <= s.len(),
        forall|i: int| 0 <= i < s.len() ==> digit_of(#[trigger] s[i]) >= 0,
    ensures
        digits_val(s) >= digits_val(s.take(k)) >= 0,
    decreases s.len() - k,
{
    lemma_digits_nonneg(s.take(k));
    if k < s.len() {
        lemma_digits_prefix(s, k + 1);
        assert(s.take(k + 1).drop_last() =~= s.take(k));
        assert(digits_val(s.take(k + 1)) == digits_val(s.take(k)) * 10 + digit_of(s[k]));
    } else {
        assert(s.take(k) =~= s);
    }
}

/// Parses an unsigned decimal number below the given bound, as the digits
/// of `s`: `None` when the grammar does not match or the value is too big.
fn parse_bounded_uint(s: &str, bound: u128) -> (r: Option<u128>)
    requires
        bound >= 9,
    ensures
        r is Some <==> (spec_parse_uint(s@) matches Some(v) && v <= bound),
        r matches Some(v) ==> spec_parse_uint(s@) == Some(v as int) && v <= bound,
{
    let n = s.unicode_len();
    let start: usize = if n >= 1 && s.get_char(0) == '+' {
        1
    } else {
        0
    };
    let ghost body = if s@.len() >= 1 && s@[0] == '+' {
        s@.skip(1)
    } else {
        s@
    };
    proof {
        assert(body =~= s@.subrange(start as int, n as int));
    }
    if start >= n {
        return None;
    }
    let mut acc: u128 = 0;
    let mut i: usize = start;
    proof {
        assert(s@.subrange(start as int, start as int) =~= Seq::<char>::empty());
    }
    while i < n
        invariant
            n == s@.len(),
            start <= i <= n,
            start < n,
            bound >= 9,
            body == s@.subrange(start as int, n as int),
            body == (if s@.len() >= 1 && s@[0] == '+' {
                s@.skip(1)
            } else {
                s@
            }),
            forall|j: int| start <= j < i ==> digit_of(#[trigger] s@[j]) >= 0,
            acc == digits_val(s@.subrange(start as int, i as int)),
            acc <= bound,
            bound <= u128::MAX,
        decreases n - i,
    {
        let c = s.get_char(i);
        let d: u128 = if c == '0' {
            0
        } else if c == '1' {
            1
        } else if c == '2' {
            2
        } else if c == '3' {
            3
        } else if c == '4' {
            4
        } else if c == '5' {
            5
        } else if c == '6' {
            6
        } else if c == '7' {
            7
        } else if c == '8' {
            8
        } else if c == '9' {
            9
        } else {
            proof {
                assert(body[i - start] == s@[i as int]);
            }
            return None;
        };
        proof {
            assert(s@.subrange(start as int, i + 1 as int).drop_last() =~= s@.subrange(
                start as int,
                i as int,
            ));
            assert(s@.subrange(start as int, i + 1 as int).last() == s@[i as int]);
        }
        if acc > (bound - d) / 10 {
            proof {
                // the value already exceeds the bound, and digits only grow it
                assert(acc * 10 + d > bound) by (nonlinear_arith)
                    requires
                        acc > (bound - d) / 10,
                        0 <= d <= 9,
                        d <= bound,
                        (bound - d) / 10 == ((bound - d) as int) / 10,
                ;
                if spec_parse_uint(s@) is Some {
                    assert(all_digits(body));
                    lemma_digits_prefix(body, i + 1 - start as int);
                    assert(body.take(i + 1 - start as int) =~= s@.subrange(
                        start as int,
                        i + 1 as int,
                    ));
                }
            }
            return None;
        }
        proof {
            assert(acc * 10 + d <= bound) by (nonlinear_arith)
                requires
                    acc <= (bound - d) / 10,
                    0 <= d <= 9,
                    d <= bound,
                    bound <= u128::MAX,
                    (bound - d) / 10 == ((bound - d) as int) / 10,
            ;
        }
        acc = acc * 10 + d;
        i = i + 1;
    }
    proof {
        assert(body =~= s@.subrange(start as int, n as int));
        assert(all_digits(body));
    }
    Some(acc)
}

/// Whether `b` is a prefix of `a`.
pub open spec fn has_prefix(a: Seq<char>, b: Seq<char>) -> bool {
    a.len() >= b.len() && a.subrange(0, b.len() as int) == b
}

fn str_starts_with(a: &str, b: &str) -> (r: bool)
    ensures
        r == has_prefix(a@, b@),
{
    let n = a.unicode_len();
    let m = b.unicode_len();
    if n < m {
        return false;
    }
    let mut i: usize = 0;
    while i < m
        invariant
            n == a@.len(),
            m == b@.len(),
            m <= n,
            i <= m,
            forall|j: int| 0 <= j < i ==> a@[j] == b@[j],
        decreases m - i,
    {
        if a.get_char(i) != b.get_char(i) {
            proof {
                if has_prefix(a@, b@) {
                    assert(a@.subrange(0, m as int)[i as int] == b@[i as int]);
                }
            }
            return false;
        }
        i = i + 1;
    }
    proof {
        assert(a@.subrange(0, m as int) =~= b@);
    }
    true
}

/// Parses a depth argument: signed, within `i8`.
fn parse_depth(s: &str) -> (r: Option<i8>)
    ensures
        r is Some <==> (spec_parse_int(s@) matches Some(v) && -128 <= v <= 127),
        r matches Some(v) ==> spec_parse_int(s@) == Some(v as int),
{
    let n = s.unicode_len();
    if n >= 1 && s.get_char(0) == '-' {
        let rest = s.substring_char(1, n);
        proof {
            assert(rest@ =~= s@.skip(1));
        }
        if rest.unicode_len() >= 1 && rest.get_char(0) == '+' {
            return None;
        }
        match parse_bounded_uint(rest, 128) {
            Some(v) => {
                proof {
                    assert(spec_parse_uint(rest@) == Some(digits_val(rest@)));
                }
                if v == 128 {
                    Some(i8::MIN)
                } else {
                    Some(-(v as i8))
                }
            },
            None => None,
        }
    } else {
        match parse_bounded_uint(s, 127) {
            Some(v) => Some(v as i8),
            None => None,
        }
    }
}

/// The argument kind the `go` parser is waiting for.
#[derive(Clone, Copy, PartialEq, Eq, Structural, Debug)]
pub enum GoToken {
    Nothing,
    Depth,
    Nodes,
    MoveTime,
    WTime,
    BTime,
    WInc,
    BInc,
    MovesToGo,
}

pub open spec fn i8_or(t: Seq<char>, default: i8) -> i8 {
    match spec_parse_int(t) {
        Some(v) => if -128 <= v <= 127 {
            v as i8
        } else {
            default
        },
        None => default,
    }
}

pub open spec fn u64_or(t: Seq<char>, default: u64) -> u64 {
    match spec_parse_uint(t) {
        Some(v) => if v <= u64::MAX {
            v as u64
        } else {
            default
        },
        None => default,
    }
}

pub open spec fn usize_or(t: Seq<char>, default: usize) -> usize {
    match spec_parse_uint(t) {
        Some(v) => if v <= usize::MAX {
            v as usize
        } else {
            default
        },
        None => default,
    }
}

pub open spec fn u128_or(t: Seq<char>, default: u128) -> u128 {
    match spec_parse_uint(t) {
        Some(v) => if v <= u128::MAX {
            v as u128
        } else {
            default
        },
        None => default,
    }
}

/// What a finished `go` command means: a timed game search if any clock
/// field was set, otherwise an infinite search — provided a `go` token was
/// seen at all.
pub open spec fn go_finish(started: bool, gt: GameTime) -> UciReport {
    if started && (gt.wtime > 0 || gt.btime > 0 || gt.winc > 0 || gt.binc > 0) {
        UciReport::GoGameTime(gt)
    } else if started {
        UciReport::GoInfinite
    } else {
        UciReport::Unknown
    }
}

/// The `go` token machine, from token `i` in state `(tok, started, gt)`.
pub open spec fn go_rec(
    toks: Seq<Seq<char>>,
    i: nat,
    tok: GoToken,
    started: bool,
    gt: GameTime,
) -> UciReport
    decreases toks.len() - i,
{
    if i >= toks.len() {
        go_finish(started, gt)
    } else {
        let t = toks[i as int];
        if t == "go"@ {
            go_rec(toks, i + 1, tok, true, gt)
        } else if t == "infinite"@ {
            go_finish(started, gt)
        } else if t == "depth"@ {
            go_rec(toks, i + 1, GoToken::Depth, started, gt)
        } else if t == "movetime"@ {
            go_rec(toks, i + 1, GoToken::MoveTime, started, gt)
        } else if t == "nodes"@ {
            go_rec(toks, i + 1, GoToken::Nodes, started, gt)
        } else if t == "wtime"@ {
            go_rec(toks, i + 1, GoToken::WTime, started, gt)
        } else if t == "btime"@ {
            go_rec(toks, i + 1, GoToken::BTime, started, gt)
        } else if t == "winc"@ {
            go_rec(toks, i + 1, GoToken::WInc, started, gt)
        } else if t == "binc"@ {
            go_rec(toks, i + 1, GoToken::BInc, started, gt)
        } else if t == "movestogo"@ {
            go_rec(toks, i + 1, GoToken::MovesToGo, started, gt)
        } else {
            match tok {
                GoToken::Nothing => go_rec(toks, i + 1, tok, started, gt),
                GoToken::Depth => UciReport::GoDepth(i8_or(t, 1)),
                GoToken::MoveTime => UciReport::GoMoveTime(u64_or(t, 1000)),
                GoToken::Nodes => UciReport::GoNodes(usize_or(t, 1)),
                GoToken::WTime => go_rec(
                    toks,
                    i + 1,
                    tok,
                    started,
                    GameTime { wtime: u128_or(t, 0), ..gt },
                ),
                GoToken::BTime => go_rec(
                    toks,
                    i + 1,
                    tok,
                    started,
                    GameTime { btime: u128_or(t, 0), ..gt },
                ),
                GoToken::WInc => go_rec(
                    toks,
                    i + 1,
                    tok,
                    started,
                    GameTime { winc: u128_or(t, 0), ..gt },
                ),
                GoToken::BInc => go_rec(
                    toks,
                    i + 1,
                    tok,
                    started,
                    GameTime { binc: u128_or(t, 0), ..gt },
                ),
                GoToken::MovesToGo => go_rec(toks, i + 1, tok, started, gt),
            }
        }
    }
}

/// The meaning of a whole `go` command line.
pub open spec fn go_spec(toks: Seq<Seq<char>>) -> UciReport {
    go_rec(toks, 0, GoToken::Nothing, false, GameTime { wtime: 0, winc: 0, btime: 0, binc: 0 })
}

fn go_finish_exec(started: bool, gt: GameTime) -> (r: UciReport)
    ensures
        r == go_finish(started, gt),
{
    if started && (gt.wtime > 0 || gt.btime > 0 || gt.winc > 0 || gt.binc > 0) {
        UciReport::GoGameTime(gt)
    } else if started {
        UciReport::GoInfinite
    } else {
        UciReport::Unknown
    }
}

impl UciReport {
    /// Parses the tail of a `go` command: a token machine that reads search
    /// limits, falling back to an infinite or game-time search.
    pub fn parse_go(cmd: &str) -> (report: UciReport)
        ensures
            report == go_spec(spec_tokenize(cmd@)),
    {
        let tokens = tokenize(cmd);
        let ghost toks = spec_tokenize(cmd@);
        let mut tok = GoToken::Nothing;
        let mut started = false;
        let mut game_time = GameTime::new(0, 0, 0, 0);
        let mut i: usize = 0;
        while i < tokens.len()
            invariant
                toks == spec_tokenize(cmd@),
                tokens@.map_values(|t: String| t@) == toks,
                i <= tokens@.len(),
                go_spec(toks) == go_rec(toks, i as nat, tok, started, game_time),
            decreases tokens@.len() - i,
        {
            proof {
                assert(toks[i as int] == tokens@[i as int]@);
            }
            let t = tokens[i].as_str();
            if str_eq_str(t, "go") {
                started = true;
            } else if str_eq_str(t, "infinite") {
                return go_finish_exec(started, game_time);
            } else if str_eq_str(t, "depth") {
                tok = GoToken::Depth;
            } else if str_eq_str(t, "movetime") {
                tok = GoToken::MoveTime;
            } else if str_eq_str(t, "nodes") {
                tok = GoToken::Nodes;
            } else if str_eq_str(t, "wtime") {
                tok = GoToken::WTime;
            } else if str_eq_str(t, "btime") {
                tok = GoToken::BTime;
            } else if str_eq_str(t, "winc") {
                tok = GoToken::WInc;
            } else if str_eq_str(t, "binc") {
                tok = GoToken::BInc;
            } else if str_eq_str(t, "movestogo") {
                tok = GoToken::MovesToGo;
            } else {
                match tok {
                    GoToken::Nothing => {},
                    GoToken::Depth => {
                        let depth = match parse_depth(t) {
                            Some(d) => d,
                            None => 1,
                        };
                        return UciReport::GoDepth(depth);
                    },
                    GoToken::MoveTime => {
                        let ms = match parse_bounded_uint(t, u64::MAX as u128) {
                            Some(v) => v as u64,
                            None => 1000,
                        };
                        return UciReport::GoMoveTime(ms);
                    },
                    GoToken::Nodes => {
                        let nodes = match parse_bounded_uint(t, usize::MAX as u128) {
                            Some(v) => v as usize,
                            None => 1,
                        };
                        return UciReport::GoNodes(nodes);
                    },
                    GoToken::WTime => {
                        game_time.wtime = match parse_bounded_uint(t, u128::MAX) {
                            Some(v) => v,
                            None => 0,
                        };
                    },
                    GoToken::BTime => {
                        game_time.btime = match parse_bounded_uint(t, u128::MAX) {
                            Some(v) => v,
                            None => 0,
                        };
                    },
                    GoToken::WInc => {
                        game_time.winc = match parse_bounded_uint(t, u128::MAX) {
                            Some(v) => v,
                            None => 0,
                        };
                    },
                    GoToken::BInc => {
                        game_time.binc = match parse_bounded_uint(t, u128::MAX) {
                            Some(v) => v,
                            None => 0,
                        };
                    },
                    GoToken::MovesToGo => {},
                }
            }
            i = i + 1;
        }
        go_finish_exec(started, game_time)
    }
}

/// The parts of a FEN joined by single spaces.
pub open spec fn join_ws(parts: Seq<Seq<char>>) -> Seq<char>
    decreases parts.len(),
{
    if parts.len() == 0 {
        Seq::empty()
    } else if parts.len() == 1 {
        parts[0]
    } else {
        join_ws(parts.drop_last()) + seq![' '] + parts.last()
    }
}

/// The section the `position` parser is inside.
#[derive(Clone, Copy, PartialEq, Eq, Structural, Debug)]
pub enum PosToken {
    Nothing,
    Fen,
    Moves,
}

/// The `position` token machine: collects FEN parts and move tokens.
pub open spec fn pos_rec(
    toks: Seq<Seq<char>>,
    i: nat,
    state: PosToken,
    skip_fen: bool,
    fen_parts: Seq<Seq<char>>,
    moves: Seq<Seq<char>>,
) -> (Seq<Seq<char>>, Seq<Seq<char>>)
    decreases toks.len() - i,
{
    if i >= toks.len() {
        (fen_parts, moves)
    } else {
        let t = toks[i as int];
        if t == "position"@ {
            pos_rec(toks, i + 1, state, skip_fen, fen_parts, moves)
        } else if t == "startpos"@ {
            pos_rec(toks, i + 1, state, true, fen_parts, moves)
        } else if t == "fen"@ && !skip_fen {
            pos_rec(toks, i + 1, PosToken::Fen, skip_fen, fen_parts, moves)
        } else if t == "moves"@ {
            pos_rec(toks, i + 1, PosToken::Moves, skip_fen, fen_parts, moves)
        } else {
            match state {
                PosToken::Nothing => pos_rec(toks, i + 1, state, skip_fen, fen_parts, moves),
                PosToken::Fen => pos_rec(toks, i + 1, state, skip_fen, fen_parts.push(t), moves),
                PosToken::Moves => pos_rec(toks, i + 1, state, skip_fen, fen_parts, moves.push(t)),
            }
        }
    }
}

/// The FEN text a `position` command denotes: its FEN parts joined, or the
/// starting position when it gave none.
pub open spec fn position_fen(toks: Seq<Seq<char>>) -> Seq<char> {
    let parts = pos_rec(toks, 0, PosToken::Nothing, false, Seq::empty(), Seq::empty()).0;
    if parts.len() == 0 {
        FEN_STARTPOS@
    } else {
        join_ws(parts)
    }
}

/// The move tokens a `position` command carries.
pub open spec fn position_moves(toks: Seq<Seq<char>>) -> Seq<Seq<char>> {
    pos_rec(toks, 0, PosToken::Nothing, false, Seq::empty(), Seq::empty()).1
}

/// What `parse` promises: each command form maps to its report, with
/// `position` and `go` handed to their token machines.
pub open spec fn report_matches(r: UciReport, s: Seq<char>) -> bool {
    if s == "uci"@ {
        r == UciReport::Uci
    } else if s == "ucinewgame"@ {
        r == UciReport::UciNewGame
    } else if s == "isready"@ {
        r == UciReport::IsReady
    } else if s == "stop"@ {
        r == UciReport::Stop
    } else if s == "quit"@ || s == "exit"@ {
        r == UciReport::Quit
    } else if has_prefix(s, "position"@) {
        r matches UciReport::Position(fen, moves) && fen@ == position_fen(spec_tokenize(s))
            && moves@.map_values(|m: String| m@) == position_moves(spec_tokenize(s))
    } else if has_prefix(s, "go"@) {
        r == go_spec(spec_tokenize(s))
    } else {
        r == UciReport::Unknown
    }
}

impl UciReport {
    /// Parses a `position` command: an optional FEN (or the start
    /// position), and the moves played after it.
    pub fn parse_position(cmd: &str) -> (r: UciReport)
        ensures
            r matches UciReport::Position(fen, moves) && fen@ == position_fen(
                spec_tokenize(cmd@),
            ) && moves@.map_values(|m: String| m@) == position_moves(spec_tokenize(cmd@)),
    {
        let tokens = tokenize(cmd);
        let ghost toks = spec_tokenize(cmd@);
        let mut state = PosToken::Nothing;
        let mut skip_fen = false;
        let mut fen = String::new();
        let mut have_fen = false;
        let mut moves: Vec<String> = Vec::new();
        let ghost empty_parts = Seq::<Seq<char>>::empty();
        let mut i: usize = 0;
        let ghost mut parts = empty_parts;
        proof {
            assert(Seq::<String>::empty().map_values(|m: String| m@)
                =~= Seq::<Seq<char>>::empty());
        }
        while i < tokens.len()
            invariant
                toks == spec_tokenize(cmd@),
                tokens@.map_values(|t: String| t@) == toks,
                i <= tokens@.len(),
                have_fen <==> parts.len() > 0,
                fen@ == join_ws(parts),
                pos_rec(toks, 0, PosToken::Nothing, false, Seq::empty(), Seq::empty()) == pos_rec(
                    toks,
                    i as nat,
                    state,
                    skip_fen,
                    parts,
                    moves@.map_values(|m: String| m@),
                ),
            decreases tokens@.len() - i,
        {
            proof {
                assert(toks[i as int] == tokens@[i as int]@);
            }
            let t = tokens[i].as_str();
            let ghost state0 = state;
            let ghost skip0 = skip_fen;
            let ghost parts0 = parts;
            let ghost moves0 = moves@.map_values(|m: String| m@);
            if str_eq_str(t, "position") {
            } else if str_eq_str(t, "startpos") {
                skip_fen = true;
            } else if str_eq_str(t, "fen") && !skip_fen {
                state = PosToken::Fen;
            } else if str_eq_str(t, "moves") {
                state = PosToken::Moves;
            } else {
                match state {
                    PosToken::Nothing => {},
                    PosToken::Fen => {
                        proof {
                            reveal_strlit(" ");
                        }
                        if have_fen {
                            fen.append(" ");
                        }
                        fen.append(t);
                        have_fen = true;
                        proof {
                            reveal_strlit(" ");
                            let parts_before = parts;
                            parts = parts.push(t@);
                            assert(parts.drop_last() =~= parts_before);
                            assert(parts.last() == t@);
                            if parts_before.len() == 0 {
                                assert(join_ws(parts) == parts[0]);
                                assert(fen@ =~= t@);
                                assert(parts[0] == t@);
                            } else {
                                assert(join_ws(parts) == join_ws(parts_before) + seq![' ']
                                    + parts.last());
                                assert(fen@ =~= join_ws(parts_before) + seq![' '] + t@);
                            }
                        }
                    },
                    PosToken::Moves => {
                        moves.push(t.to_owned());
                        proof {
                            assert(moves@.map_values(|m: String| m@) =~= moves0.push(t@));
                        }
                    },
                }
            }
            proof {
                assert(pos_rec(toks, i as nat, state0, skip0, parts0, moves0) == pos_rec(
                    toks,
                    (i + 1) as nat,
                    state,
                    skip_fen,
                    parts,
                    moves@.map_values(|m: String| m@),
                ));
            }
            i = i + 1;
        }
        if !have_fen {
            fen = FEN_STARTPOS.to_owned();
            proof {
                assert(parts.len() == 0);
            }
        }
        UciReport::Position(fen, moves)
    }

    /// Parses one command line into its report.
    pub fn parse(cmd: &str) -> (r: UciReport)
        ensures
            report_matches(r, cmd@),
    {
        if str_eq_str(cmd, "uci") {
            UciReport::Uci
        } else if str_eq_str(cmd, "ucinewgame") {
            UciReport::UciNewGame
        } else if str_eq_str(cmd, "isready") {
            UciReport::IsReady
        } else if str_eq_str(cmd, "stop") {
            UciReport::Stop
        } else if str_eq_str(cmd, "quit") || str_eq_str(cmd, "exit") {
            UciReport::Quit
        } else if str_starts_with(cmd, "position") {
            Self::parse_position(cmd)
        } else if str_starts_with(cmd, "go") {
            Self::parse_go(cmd)
        } else {
            UciReport::Unknown
        }
    }
}

} // verus!
