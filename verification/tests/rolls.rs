use tilegame::rng::{precept, random_precept, roll, roll_range, PRECEPT_COUNT};

#[test]
fn roll_zero_never_succeeds() {
    for _ in 0..500 {
        assert!(!roll(0));
        assert!(!roll(-7));
    }
}

#[test]
fn roll_hundred_or_more_always_succeeds() {
    for _ in 0..500 {
        assert!(roll(100));
        assert!(roll(127));
    }
}

#[test]
fn roll_rate_approximates_chance() {
    let trials = 20000;
    for &chance in &[10i8, 50, 90] {
        let mut hits = 0;
        for _ in 0..trials {
            if roll(chance) {
                hits += 1;
            }
        }
        let rate = hits as f64 / trials as f64;
        let expected = chance as f64 / 100.0;
        assert!(
            (rate - expected).abs() < 0.05,
            "chance {} gave rate {}",
            chance,
            rate
        );
    }
}

#[test]
fn roll_range_never_succeeds_below_zero() {
    for _ in 0..500 {
        assert!(!roll_range(-10, 0));
        assert!(!roll_range(-128, -100));
    }
}

#[test]
fn roll_range_always_succeeds_at_hundred() {
    for _ in 0..500 {
        assert!(roll_range(100, 127));
    }
}

#[test]
fn precepts_are_the_fixed_eighteen() {
    let expected = [
        "Accept everything just the way it is.",
        "Do not seek pleasure for its own sake.",
        "Do not, under any circumstances, depend on a partial feeling.",
        "Think lightly about yourself and deeply about the world.",
        "Be detached from desire your whole life long.",
        "Do not regret what you have done.",
        "Never be jealous.",
        "Never let yourself be saddened by separation.",
        "Resentment and complaint are appropriate neither for oneself nor others.",
        "Do not let yourself be guided by the feeling of lust or love.",
        "In all things have no preferences.",
        "Be indifferent to where you live.",
        "Do not pursue the taste of good food.",
        "Do not hold on to possessions you no longer need.",
        "Do not act following customary beliefs.",
        "Do not collect weapons or practice with weapons beyond what is useful.",
        "Do not fear death.",
        "Do not seek to possess either goods or fiefs for your old age.",
    ];
    assert_eq!(PRECEPT_COUNT, expected.len());
    for (i, want) in expected.iter().enumerate() {
        assert_eq!(precept(i), *want);
    }
    for _ in 0..200 {
        let p = random_precept();
        assert!(expected.contains(&p));
    }
}
