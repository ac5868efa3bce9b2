use baseball::{
    Balls, BaseOutcome, BaserunnerState, BattingPosition, Count, PitchOutcome, PlateAppearance,
    PlateAppearanceResult, PlayOutcome, Strikes,
};

#[test]
fn test_count_new() {
    let count = Count::new(Balls::One, Strikes::Two);
    assert_eq!(count.balls(), Balls::One);
    assert_eq!(count.strikes(), Strikes::Two);
}

#[test]
fn test_count_default() {
    let count = Count::default();
    assert_eq!(count.balls(), Balls::Zero);
    assert_eq!(count.strikes(), Strikes::Zero);
}

#[test]
fn test_plate_appearance_new() {
    let pa = PlateAppearance::new();
    assert_eq!(pa.count(), Count::default());
}

#[test]
fn test_advance_ball() {
    let pa = PlateAppearance::new();
    let pa = pa.advance(PitchOutcome::Ball);

    if let PlateAppearanceResult::InProgress(pa) = pa {
        assert_eq!(pa.count().balls(), Balls::One);
        assert_eq!(pa.count().strikes(), Strikes::Zero);
    } else {
        panic!("Expected in-progress plate appearance");
    }
}

#[test]
fn test_advance_strike() {
    let pa = PlateAppearance::new();
    let pa = pa.advance(PitchOutcome::Strike);

    if let PlateAppearanceResult::InProgress(pa) = pa {
        assert_eq!(pa.count().balls(), Balls::Zero);
        assert_eq!(pa.count().strikes(), Strikes::One);
    } else {
        panic!("Expected in-progress plate appearance");
    }
}

#[test]
fn test_advance_foul() {
    let pa = PlateAppearance::new();
    let pa = pa.advance(PitchOutcome::Foul);

    if let PlateAppearanceResult::InProgress(pa) = pa {
        assert_eq!(pa.count().balls(), Balls::Zero);
        assert_eq!(pa.count().strikes(), Strikes::One);
    } else {
        panic!("Expected in-progress plate appearance");
    }
}

#[test]
fn test_advance_foul_with_two_strikes() {
    let count = Count::new(Balls::Two, Strikes::Two);
    let pa = PlateAppearance::with_count(count);
    let pa = pa.advance(PitchOutcome::Foul);

    if let PlateAppearanceResult::InProgress(pa) = pa {
        assert_eq!(pa.count().balls(), Balls::Two);
        assert_eq!(pa.count().strikes(), Strikes::Two);
    } else {
        panic!("Expected in-progress plate appearance");
    }
}

#[test]
fn test_walk() {
    let count = Count::new(Balls::Three, Strikes::One);
    let pa = PlateAppearance::with_count(count);
    let pa = pa.advance(PitchOutcome::Ball);

    assert!(pa.is_complete());
    assert!(matches!(pa, PlateAppearanceResult::Walk));
}

#[test]
fn test_strikeout() {
    let count = Count::new(Balls::One, Strikes::Two);
    let pa = PlateAppearance::with_count(count);
    let pa = pa.advance(PitchOutcome::Strike);

    assert!(pa.is_complete());
    assert!(matches!(pa, PlateAppearanceResult::Strikeout));
}

#[test]
fn test_hit_by_pitch() {
    let pa = PlateAppearance::new();
    let pa = pa.advance(PitchOutcome::HitByPitch);

    assert!(pa.is_complete());
    assert!(matches!(pa, PlateAppearanceResult::HitByPitch));
}

#[test]
fn test_single() {
    let pa = PlateAppearance::new();
    let pa = pa.advance(PitchOutcome::InPlay(PlayOutcome::single(
        BaserunnerState::empty(),
        BattingPosition::First,
    )));

    assert!(pa.is_complete());
    if let PlateAppearanceResult::InPlay(outcome) = pa {
        assert_eq!(outcome.first(), BaseOutcome::Runner(BattingPosition::First))
    } else {
        panic!("Expected single");
    }
}

#[test]
fn test_home_run() {
    let count = Count::new(Balls::Two, Strikes::Two);
    let pa = PlateAppearance::with_count(count);
    let pa = pa.advance(PitchOutcome::HomeRun);

    assert!(pa.is_complete());
    assert!(matches!(pa, PlateAppearanceResult::HomeRun));
}

#[test]
fn test_full_count_scenarios() {
    // Test a full count walk
    let pa = PlateAppearance::new();
    let pa_advance = pa.advance(PitchOutcome::Ball); // 1-0

    let pa_advance = if let PlateAppearanceResult::InProgress(pa) = pa_advance {
        pa.advance(PitchOutcome::Strike) // 1-1
    } else {
        panic!("Expected in-progress");
    };

    let pa_advance = if let PlateAppearanceResult::InProgress(pa) = pa_advance {
        pa.advance(PitchOutcome::Ball) // 2-1
    } else {
        panic!("Expected in-progress");
    };

    let pa_advance = if let PlateAppearanceResult::InProgress(pa) = pa_advance {
        pa.advance(PitchOutcome::Strike) // 2-2
    } else {
        panic!("Expected in-progress");
    };

    let pa_advance = if let PlateAppearanceResult::InProgress(pa) = pa_advance {
        pa.advance(PitchOutcome::Ball) // 3-2
    } else {
        panic!("Expected in-progress");
    };

    let final_advance = if let PlateAppearanceResult::InProgress(pa) = pa_advance {
        pa.advance(PitchOutcome::Ball) // Walk
    } else {
        panic!("Expected in-progress");
    };

    assert!(final_advance.is_complete());
    assert!(matches!(final_advance, PlateAppearanceResult::Walk));
}

#[test]
fn demo_plate_appearance() {
    let pa = PlateAppearance::new();
    let pitches = [
        (
            "Ball",
            PitchOutcome::Ball,
            Count::new(Balls::One, Strikes::Zero),
        ),
        (
            "Strike",
            PitchOutcome::Strike,
            Count::new(Balls::One, Strikes::One),
        ),
        (
            "Ball",
            PitchOutcome::Ball,
            Count::new(Balls::Two, Strikes::One),
        ),
        (
            "Strike",
            PitchOutcome::Strike,
            Count::new(Balls::Two, Strikes::Two),
        ),
        (
            "Ball",
            PitchOutcome::Ball,
            Count::new(Balls::Three, Strikes::Two),
        ),
        (
            "Foul ball",
            PitchOutcome::Foul,
            Count::new(Balls::Three, Strikes::Two),
        ),
        (
            "Foul ball",
            PitchOutcome::Foul,
            Count::new(Balls::Three, Strikes::Two),
        ),
        ("Ball", PitchOutcome::Ball, Count::default()),
    ];

    let mut advance = PlateAppearanceResult::InProgress(pa);

    for (_, pitch, count) in pitches.into_iter() {
        advance = advance.advance(pitch);

        if let Some(pa) = advance.plate_appearance() {
            assert_eq!(pa.count(), count, "Count mismatch");
        } else {
            assert_eq!(advance, PlateAppearanceResult::Walk, "expected walk");
            break;
        }
    }
}
