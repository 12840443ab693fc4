use axel::evaluation::evaluation::Evaluation;

#[test]
fn order_sentinels_bound_everything() {
    let samples = [
        Evaluation::Centipawns(0),
        Evaluation::Centipawns(30000),
        Evaluation::Centipawns(-30000),
        Evaluation::Mate(1),
        Evaluation::Mate(-1),
        Evaluation::Mate(0),
    ];
    for s in samples {
        assert!(Evaluation::Min < s);
        assert!(s < Evaluation::Max);
    }
    assert!(Evaluation::Min < Evaluation::Max);
}

#[test]
fn order_mate_edge_cases() {
    // being mated now is worse than being mated in one
    assert!(Evaluation::Mate(0) < Evaluation::Mate(-1));
    // a forced mate beats any centipawn score
    assert!(Evaluation::Mate(1) > Evaluation::Centipawns(30000));
    // losing by force still beats the lower sentinel
    assert!(Evaluation::Mate(-3) > Evaluation::Min);
    // faster wins are better
    assert!(Evaluation::Mate(2) > Evaluation::Mate(5));
    // slower losses are better
    assert!(Evaluation::Mate(-5) > Evaluation::Mate(-2));
    // losing mates sort below all centipawn scores, winning mates above
    assert!(Evaluation::Mate(-9) < Evaluation::Centipawns(-30000));
    assert!(Evaluation::Mate(9) > Evaluation::Centipawns(30000));
}

#[test]
fn order_centipawns_natural() {
    assert!(Evaluation::Centipawns(-5) < Evaluation::Centipawns(3));
    assert!(Evaluation::Centipawns(3) < Evaluation::Centipawns(4));
    assert_eq!(Evaluation::Centipawns(7), Evaluation::Centipawns(7));
}

#[test]
fn order_is_total_on_samples() {
    let samples = [
        Evaluation::Min,
        Evaluation::Mate(0),
        Evaluation::Mate(-2),
        Evaluation::Centipawns(-1),
        Evaluation::Centipawns(1),
        Evaluation::Mate(3),
        Evaluation::Max,
    ];
    for a in samples {
        for b in samples {
            let lt = a < b;
            let eq = a == b;
            let gt = a > b;
            assert_eq!(1, [lt, eq, gt].iter().filter(|x| **x).count());
        }
    }
}

#[test]
fn negation_involution_samples() {
    let samples = [
        Evaluation::Centipawns(250),
        Evaluation::Centipawns(-17),
        Evaluation::Mate(4),
        Evaluation::Mate(-6),
        Evaluation::Mate(0),
        Evaluation::Max,
        Evaluation::Min,
    ];
    for s in samples {
        assert_eq!(s.negated().negated(), s);
    }
    assert_eq!(Evaluation::Centipawns(5).negated(), Evaluation::Centipawns(-5));
    assert_eq!(Evaluation::Mate(3).negated(), Evaluation::Mate(-3));
    assert_eq!(Evaluation::Max.negated(), Evaluation::Min);
}

#[test]
fn step_from_deeper_values() {
    assert_eq!(
        Evaluation::from_deeper(&Evaluation::Mate(0)),
        Evaluation::Mate(1)
    );
    assert_eq!(
        Evaluation::from_deeper(&Evaluation::Mate(1)),
        Evaluation::Mate(-2)
    );
    assert_eq!(
        Evaluation::from_deeper(&Evaluation::Mate(-1)),
        Evaluation::Mate(2)
    );
    assert_eq!(
        Evaluation::from_deeper(&Evaluation::Centipawns(7)),
        Evaluation::Centipawns(-7)
    );
    assert_eq!(Evaluation::from_deeper(&Evaluation::Max), Evaluation::Min);
    assert_eq!(Evaluation::from_deeper(&Evaluation::Min), Evaluation::Max);
}

#[test]
fn step_involution_on_centipawns() {
    for v in [-12345, -1, 0, 1, 999] {
        let s = Evaluation::Centipawns(v);
        assert_eq!(Evaluation::from_deeper(&Evaluation::from_deeper(&s)), s);
    }
}

#[test]
fn to_deeper_values() {
    assert_eq!(Evaluation::Mate(1).to_deeper(), Evaluation::Mate(0));
    assert_eq!(Evaluation::Mate(3).to_deeper(), Evaluation::Mate(-2));
    assert_eq!(Evaluation::Mate(-2).to_deeper(), Evaluation::Mate(1));
    assert_eq!(Evaluation::Mate(0).to_deeper(), Evaluation::Mate(0));
    assert_eq!(
        Evaluation::Centipawns(31).to_deeper(),
        Evaluation::Centipawns(-31)
    );
    assert_eq!(Evaluation::Max.to_deeper(), Evaluation::Min);
}

#[test]
fn uci_rendering_values() {
    assert_eq!(Evaluation::Centipawns(42).uci_score(), (false, 42));
    assert_eq!(Evaluation::Centipawns(-3).uci_score(), (false, -3));
    assert_eq!(Evaluation::Mate(0).uci_score(), (true, 0));
    assert_eq!(Evaluation::Mate(1).uci_score(), (true, 1));
    assert_eq!(Evaluation::Mate(3).uci_score(), (true, 2));
    assert_eq!(Evaluation::Mate(-4).uci_score(), (true, -2));
    assert_eq!(Evaluation::Mate(-1).uci_score(), (true, -1));
    assert_eq!(Evaluation::Max.uci_score(), (false, i32::MAX));
    assert_eq!(Evaluation::Min.uci_score(), (false, i32::MIN));
}

#[test]
fn validity_bounds() {
    assert!(Evaluation::Centipawns(0).is_valid());
    assert!(!Evaluation::Centipawns(i32::MIN).is_valid());
    assert!(Evaluation::Mate(1_000_000).is_valid());
    assert!(!Evaluation::Mate(1_000_001).is_valid());
    assert!(Evaluation::Max.is_valid());
}
