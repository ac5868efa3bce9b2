use baseball::{
    Balls, Base, BaseOutcome, BaserunnerState, BattingPosition, Count, CountAdvance, Game,
    GameResult, GameScore, GameState, GameWinner, HalfInning, HalfInningAdvance, HomeOutcome,
    InningHalf, InningNumber, Outs, PitchOutcome, PlateAppearance, PlateAppearanceResult,
    PlayOutcome, Strikes,
};

fn loaded() -> BaserunnerState {
    BaserunnerState::new()
        .set_first(Some(BattingPosition::Seventh))
        .set_second(Some(BattingPosition::Eighth))
        .set_third(Some(BattingPosition::Ninth))
}

fn groundout() -> PitchOutcome {
    PitchOutcome::InPlay(PlayOutcome::groundout())
}

fn pitch_all(mut result: GameResult, pitches: &[PitchOutcome]) -> GameResult {
    for p in pitches {
        result = result.advance(*p);
    }
    result
}

fn three_outs(result: GameResult) -> GameResult {
    pitch_all(result, &[groundout(), groundout(), groundout()])
}

#[test]
fn four_balls_from_empty_count_walk() {
    let mut r = PlateAppearanceResult::InProgress(PlateAppearance::new());
    for _ in 0..3 {
        r = r.advance(PitchOutcome::Ball);
        assert!(r.is_in_progress());
    }
    r = r.advance(PitchOutcome::Ball);
    assert_eq!(r, PlateAppearanceResult::Walk);

    let c = CountAdvance::InProgress(Count::default())
        .advance(PitchOutcome::Ball)
        .advance(PitchOutcome::Ball)
        .advance(PitchOutcome::Ball)
        .advance(PitchOutcome::Ball);
    assert_eq!(c, CountAdvance::Walk);
}

#[test]
fn three_strikes_from_empty_count_strike_out() {
    let r = PlateAppearanceResult::InProgress(PlateAppearance::new())
        .advance(PitchOutcome::Strike)
        .advance(PitchOutcome::Strike)
        .advance(PitchOutcome::Strike);
    assert_eq!(r, PlateAppearanceResult::Strikeout);
    assert_eq!(
        Count::new(Balls::Three, Strikes::Two).advance(PitchOutcome::Strike),
        CountAdvance::Strikeout
    );
}

#[test]
fn foul_with_two_strikes_changes_nothing() {
    for balls in [Balls::Zero, Balls::One, Balls::Two, Balls::Three] {
        let count = Count::new(balls, Strikes::Two);
        assert_eq!(count.advance(PitchOutcome::Foul), CountAdvance::InProgress(count));
        let pa = PlateAppearance::with_count(count);
        assert_eq!(pa.advance(PitchOutcome::Foul), PlateAppearanceResult::InProgress(pa));
    }
    let one = Count::new(Balls::One, Strikes::One).advance(PitchOutcome::Foul);
    assert_eq!(one, CountAdvance::InProgress(Count::new(Balls::One, Strikes::Two)));
}

#[test]
fn count_ignores_pitches_that_are_not_balls_strikes_or_fouls() {
    let count = Count::new(Balls::Two, Strikes::One);
    assert_eq!(count.advance(PitchOutcome::HomeRun), CountAdvance::InProgress(count));
    assert_eq!(count.advance(PitchOutcome::HitByPitch), CountAdvance::InProgress(count));
}

#[test]
fn walk_with_bases_loaded_forces_in_one_run() {
    let (after, runs) = loaded().walk(BattingPosition::First);
    assert_eq!(runs, 1);
    assert_eq!(after.first(), Some(BattingPosition::First));
    assert_eq!(after.second(), Some(BattingPosition::Seventh));
    assert_eq!(after.third(), Some(BattingPosition::Eighth));
    assert_eq!(after.runner_count(), 3);
}

#[test]
fn walk_with_bases_empty_puts_batter_on_first() {
    let (after, runs) = BaserunnerState::empty().walk(BattingPosition::Fourth);
    assert_eq!(runs, 0);
    assert_eq!(
        after,
        BaserunnerState::new().set_first(Some(BattingPosition::Fourth))
    );
}

#[test]
fn walk_moves_only_forced_runners() {
    let third_only = BaserunnerState::new().set_third(Some(BattingPosition::Second));
    let (after, runs) = third_only.walk(BattingPosition::Third);
    assert_eq!(runs, 0);
    assert_eq!(after.first(), Some(BattingPosition::Third));
    assert_eq!(after.second(), None);
    assert_eq!(after.third(), Some(BattingPosition::Second));

    let second_only = BaserunnerState::new().set_second(Some(BattingPosition::Fifth));
    let (after, runs) = second_only.walk(BattingPosition::Sixth);
    assert_eq!(runs, 0);
    assert_eq!(after.second(), Some(BattingPosition::Fifth));
    assert_eq!(after.third(), None);

    let first_and_third = BaserunnerState::new()
        .set_first(Some(BattingPosition::First))
        .set_third(Some(BattingPosition::Second));
    let (after, runs) = first_and_third.walk(BattingPosition::Third);
    assert_eq!(runs, 0);
    assert_eq!(after.first(), Some(BattingPosition::Third));
    assert_eq!(after.second(), Some(BattingPosition::First));
    assert_eq!(after.third(), Some(BattingPosition::Second));
}

#[test]
fn grand_slam_scores_four_and_clears_bases() {
    let play = PlayOutcome::homerun(loaded(), BattingPosition::First);
    assert_eq!(play.runs_scored(), 4);
    assert_eq!(play.home(), HomeOutcome::Four);
    assert!(play.baserunners().is_empty());
    assert_eq!(play.outs(), 0);
    assert_eq!(loaded().home_run(), 4);
    assert_eq!(BaserunnerState::empty().home_run(), 1);
}

#[test]
fn hits_move_every_runner_the_same_number_of_bases() {
    let third_only = BaserunnerState::new().set_third(Some(BattingPosition::Second));
    let single = PlayOutcome::single(third_only, BattingPosition::Third);
    assert_eq!(single.runs_scored(), 1);
    assert_eq!(single.first(), BaseOutcome::Runner(BattingPosition::Third));
    assert_eq!(single.second(), BaseOutcome::Empty);
    assert_eq!(single.third(), BaseOutcome::Empty);

    let single = PlayOutcome::single(loaded(), BattingPosition::First);
    assert_eq!(single.runs_scored(), 1);
    assert_eq!(single.second(), BaseOutcome::Runner(BattingPosition::Seventh));
    assert_eq!(single.third(), BaseOutcome::Runner(BattingPosition::Eighth));

    let double = PlayOutcome::double(loaded(), BattingPosition::First);
    assert_eq!(double.runs_scored(), 2);
    assert_eq!(double.first(), BaseOutcome::Empty);
    assert_eq!(double.second(), BaseOutcome::Runner(BattingPosition::First));
    assert_eq!(double.third(), BaseOutcome::Runner(BattingPosition::Seventh));

    let triple = PlayOutcome::triple(loaded(), BattingPosition::First);
    assert_eq!(triple.runs_scored(), 3);
    assert_eq!(triple.third(), BaseOutcome::Runner(BattingPosition::First));
    assert_eq!(
        triple.baserunners(),
        BaserunnerState::new().set_third(Some(BattingPosition::First))
    );
}

#[test]
fn outs_of_a_play_add_up() {
    let double_play = PlayOutcome::groundout().with_second(BaseOutcome::ForceOut);
    assert_eq!(double_play.outs(), 2);
    let odd = PlayOutcome::new(
        BaseOutcome::TagOut,
        BaseOutcome::Runner(BattingPosition::Third),
        BaseOutcome::ForceOut,
        HomeOutcome::Out,
    );
    assert_eq!(odd.outs(), 3);
    assert_eq!(odd.runs_scored(), 0);
    assert!(BaseOutcome::TagOut.is_out());
    assert!(!BaseOutcome::Runner(BattingPosition::First).is_out());
    assert!(HomeOutcome::Out.is_out());
    assert_eq!(HomeOutcome::Three.outs(), 0);
    assert_eq!(
        odd.with_home(HomeOutcome::Two).with_first(BaseOutcome::Empty).runs_scored(),
        2
    );
}

#[test]
fn bases_advance_and_stop_at_home() {
    assert_eq!(Base::First.advance_by(0), Base::First);
    assert_eq!(Base::First.advance_by(3), Base::Home);
    assert_eq!(Base::Second.advance_by(1), Base::Third);
    assert_eq!(Base::Home.advance_by(255), Base::Home);
}

#[test]
fn double_play_at_two_outs_retires_the_side() {
    let mut half = HalfInning::new(InningHalf::Top, BattingPosition::First);
    half.outs = Outs::Two;
    let double_play = PlayOutcome::groundout().with_second(BaseOutcome::ForceOut);
    let r = half.advance(PitchOutcome::InPlay(double_play));
    assert!(r.is_complete());
    assert_eq!(r.half_inning(), None);
}

#[test]
fn double_play_at_one_out_retires_the_side_and_at_none_leaves_two() {
    let double_play = PlayOutcome::groundout().with_second(BaseOutcome::ForceOut);
    let mut half = HalfInning::new(InningHalf::Bottom, BattingPosition::Ninth);
    let r = half.advance(PitchOutcome::InPlay(double_play));
    let next = r.half_inning().expect("the side is not retired yet");
    assert_eq!(next.outs(), Outs::Two);
    assert_eq!(next.current_batter(), BattingPosition::First);
    half.outs = Outs::One;
    assert!(half.advance(PitchOutcome::InPlay(double_play)).is_complete());
}

#[test]
fn runs_scored_before_the_third_out_count_for_the_half() {
    let mut half = HalfInning::new(InningHalf::Top, BattingPosition::First);
    half.outs = Outs::Two;
    half.baserunners = BaserunnerState::new().set_third(Some(BattingPosition::Ninth));
    half.runs_scored = 2;
    let play = PlayOutcome::new(
        BaseOutcome::ForceOut,
        BaseOutcome::Empty,
        BaseOutcome::Empty,
        HomeOutcome::One,
    );
    match half.advance(PitchOutcome::InPlay(play)) {
        HalfInningAdvance::Complete(summary) => assert_eq!(summary.runs_scored(), 3),
        HalfInningAdvance::InProgress(_) => panic!("the third out was made"),
    }
}

#[test]
fn walk_and_hit_by_pitch_award_first_base() {
    let mut half = HalfInning::new(InningHalf::Top, BattingPosition::Fourth);
    half.baserunners = loaded();
    let r = half.advance(PitchOutcome::HitByPitch);
    let next = r.half_inning().expect("no out on a hit batter");
    assert_eq!(next.runs_scored(), 1);
    assert_eq!(next.outs(), Outs::Zero);
    assert_eq!(next.current_batter(), BattingPosition::Fifth);
    assert_eq!(next.baserunners().first(), Some(BattingPosition::Fourth));

    half.current_pa = PlateAppearance::with_count(Count::new(Balls::Three, Strikes::Zero));
    let next = half
        .advance(PitchOutcome::Ball)
        .half_inning()
        .expect("no out on a walk");
    assert_eq!(next.runs_scored(), 1);
    assert_eq!(next.current_plate_appearance().count(), Count::default());
}

#[test]
fn pitch_during_an_appearance_keeps_batter_outs_and_bases() {
    let mut half = HalfInning::new(InningHalf::Top, BattingPosition::Third);
    half.baserunners = loaded();
    let next = half
        .advance(PitchOutcome::Strike)
        .half_inning()
        .expect("one strike ends nothing");
    assert_eq!(next.current_batter(), BattingPosition::Third);
    assert_eq!(next.baserunners(), loaded());
    assert_eq!(
        next.current_plate_appearance().count(),
        Count::new(Balls::Zero, Strikes::One)
    );
}

#[test]
fn home_ahead_after_top_of_ninth_ends_the_game() {
    let mut game = Game::new();
    game.current_inning = InningNumber::Ninth;
    game.score = GameScore::new().add_away_runs(2).add_home_runs(5);
    let r = three_outs(GameResult::InProgress(game));
    let summary = r.summary().expect("the bottom of the ninth is not played");
    assert_eq!(summary.winner(), GameWinner::Home);
    assert_eq!(summary.innings_played(), InningNumber::Ninth);
    assert_eq!(summary.final_score(), GameScore::new().add_away_runs(2).add_home_runs(5));
}

#[test]
fn home_behind_after_top_of_ninth_bats_in_the_bottom() {
    let mut game = Game::new();
    game.current_inning = InningNumber::Ninth;
    game.score = GameScore::new().add_away_runs(5).add_home_runs(2);
    let r = three_outs(GameResult::InProgress(game));
    let game = r.game().expect("the home team still bats");
    assert_eq!(game.state(), GameState::Inning(InningHalf::Bottom));
    assert_eq!(game.inning_description(), "Bottom of the 9th");
}

#[test]
fn tie_after_bottom_of_ninth_goes_to_the_tenth() {
    let mut game = Game::with_batting_orders(BattingPosition::Fourth, BattingPosition::Sixth);
    game.current_inning = InningNumber::Ninth;
    game.state = GameState::Inning(InningHalf::Bottom);
    game.current_half_inning = HalfInning::new(InningHalf::Bottom, BattingPosition::Sixth);
    game.score = GameScore::new().add_away_runs(3).add_home_runs(3);
    let r = three_outs(GameResult::InProgress(game));
    let game = r.game().expect("a tie goes to extra innings");
    assert_eq!(game.current_inning(), InningNumber::Extra(10));
    assert_eq!(game.state(), GameState::Inning(InningHalf::Top));
    assert_eq!(game.current_half_inning().current_batter(), BattingPosition::Fourth);
    assert_eq!(game.inning_description(), "Top of the 10th");
}

#[test]
fn away_ahead_after_bottom_of_ninth_wins() {
    let mut game = Game::new();
    game.current_inning = InningNumber::Ninth;
    game.state = GameState::Inning(InningHalf::Bottom);
    game.score = GameScore::new().add_away_runs(4).add_home_runs(3);
    let summary = three_outs(GameResult::InProgress(game))
        .summary()
        .expect("the game is over");
    assert_eq!(summary.winner(), GameWinner::Away);
}

#[test]
fn lead_taken_in_bottom_of_ninth_ends_the_game_at_once() {
    let mut game = Game::new();
    game.current_inning = InningNumber::Ninth;
    game.state = GameState::Inning(InningHalf::Bottom);
    game.score = GameScore::new().add_away_runs(5).add_home_runs(3);
    let mut half = HalfInning::new(InningHalf::Bottom, BattingPosition::First);
    half.outs = Outs::One;
    half.baserunners = BaserunnerState::new()
        .set_first(Some(BattingPosition::Eighth))
        .set_second(Some(BattingPosition::Ninth));
    game.current_half_inning = half;
    let summary = game
        .advance(PitchOutcome::HomeRun)
        .summary()
        .expect("walk-off");
    assert_eq!(summary.winner(), GameWinner::Home);
    assert_eq!(summary.final_score().away(), 5);
    assert_eq!(summary.final_score().home(), 6);
}

#[test]
fn tying_run_in_bottom_of_ninth_does_not_end_the_game() {
    let mut game = Game::new();
    game.current_inning = InningNumber::Ninth;
    game.state = GameState::Inning(InningHalf::Bottom);
    game.score = GameScore::new().add_away_runs(1);
    let r = game.advance(PitchOutcome::HomeRun);
    let game = r.game().expect("a tie does not end the game");
    assert_eq!(game.current_half_inning().runs_scored(), 1);
    assert_eq!(game.score().home(), 0);
}

#[test]
fn lead_taken_in_bottom_of_an_extra_inning_waits_for_the_third_out() {
    let mut game = Game::new();
    game.current_inning = InningNumber::Extra(10);
    game.state = GameState::Inning(InningHalf::Bottom);
    let r = GameResult::InProgress(game).advance(PitchOutcome::HomeRun);
    assert!(!r.is_complete());
    let r = three_outs(r);
    let summary = r.summary_ref().expect("over after the third out");
    assert_eq!(summary.winner(), GameWinner::Home);
    assert_eq!(summary.innings_played().as_number(), 10);
}

#[test]
fn full_game_ends_on_a_walk_off_home_run() {
    let start = GameResult::InProgress(Game::new());

    let r = three_outs(start);
    let g = r.game_ref().expect("bottom of the first");
    assert_eq!(g.state(), GameState::Inning(InningHalf::Bottom));
    assert_eq!(g.current_inning(), InningNumber::First);
    assert_eq!(g.score(), GameScore::new());

    let r = three_outs(r.advance(PitchOutcome::HomeRun));
    let g = r.game_ref().expect("top of the second");
    assert_eq!(g.state(), GameState::Inning(InningHalf::Top));
    assert_eq!(g.current_inning(), InningNumber::Second);
    assert_eq!(g.score().away(), 0);
    assert_eq!(g.score().home(), 1);

    // top 2nd, bottom 2nd
    let mut r = three_outs(three_outs(r));
    // top 3rd: three solo home runs for the away team
    r = three_outs(pitch_all(
        r,
        &[PitchOutcome::HomeRun, PitchOutcome::HomeRun, PitchOutcome::HomeRun],
    ));
    // bottom 3rd, top 4th
    r = three_outs(three_outs(r));
    // bottom 4th: two solo home runs for the home team
    r = three_outs(pitch_all(r, &[PitchOutcome::HomeRun, PitchOutcome::HomeRun]));
    // 5th through 8th, then the top of the 9th
    for _ in 0..9 {
        r = three_outs(r);
    }
    let g = r.game_ref().expect("bottom of the ninth");
    assert_eq!(g.current_inning(), InningNumber::Ninth);
    assert_eq!(g.state(), GameState::Inning(InningHalf::Bottom));
    assert_eq!(g.score(), GameScore::new().add_away_runs(3).add_home_runs(3));
    assert!(g.current_half_inning().baserunners().is_empty());

    let r = r.advance(PitchOutcome::HomeRun);
    assert!(r.is_complete());
    let summary = r.summary().expect("walk-off home run");
    assert_eq!(summary.winner(), GameWinner::Home);
    assert_eq!(summary.final_score().away(), 3);
    assert_eq!(summary.final_score().home(), 4);
    assert_eq!(summary.innings_played(), InningNumber::Ninth);
}

#[test]
fn finished_results_ignore_further_pitches() {
    for done in [
        PlateAppearanceResult::Strikeout,
        PlateAppearanceResult::Walk,
        PlateAppearanceResult::HomeRun,
    ] {
        assert_eq!(done.advance(PitchOutcome::Ball), done);
        assert_eq!(done.advance(PitchOutcome::HomeRun), done);
        assert_eq!(done.plate_appearance(), None);
    }
    assert_eq!(CountAdvance::Walk.advance(PitchOutcome::Strike), CountAdvance::Walk);
    assert_eq!(CountAdvance::Strikeout.count(), None);

    let mut half = HalfInning::new(InningHalf::Top, BattingPosition::First);
    half.outs = Outs::Two;
    let done = half.advance(groundout());
    assert!(done.is_complete());
    assert_eq!(done.advance(PitchOutcome::HomeRun), done);
    assert_eq!(done.half_inning_ref(), None);

    let mut game = Game::new();
    game.current_inning = InningNumber::Ninth;
    game.state = GameState::Inning(InningHalf::Bottom);
    let done = game.advance(PitchOutcome::HomeRun);
    assert!(done.is_complete());
    assert_eq!(done.advance(PitchOutcome::HomeRun), done);
    assert_eq!(done.advance(groundout()), done);
    assert_eq!(done.game_ref(), None);
}

#[test]
fn game_marked_complete_ignores_pitches() {
    let mut game = Game::new();
    game.state = GameState::Complete;
    assert!(game.is_complete());
    assert_eq!(game.advance(PitchOutcome::HomeRun), GameResult::InProgress(game));
    assert_eq!(game.inning_description(), "Game Complete");
}

#[test]
fn inning_descriptions() {
    let mut game = Game::new();
    game.current_inning = InningNumber::Second;
    game.state = GameState::InningEnd(InningHalf::Top);
    assert_eq!(game.inning_description(), "Mid of the 2nd");
    game.current_inning = InningNumber::Third;
    game.state = GameState::InningEnd(InningHalf::Bottom);
    assert_eq!(game.inning_description(), "End of the 3rd");
    game.current_inning = InningNumber::Seventh;
    assert_eq!(game.inning_description(), "End of the 7th");
    game.current_inning = InningNumber::Extra(255);
    game.state = GameState::Inning(InningHalf::Bottom);
    assert_eq!(game.inning_description(), "Bottom of the 255th");
    game.current_inning = InningNumber::Extra(101);
    assert_eq!(game.inning_description(), "Bottom of the 101th");
}

#[test]
fn inning_numbers_count_up() {
    assert_eq!(InningNumber::Eighth.next(), InningNumber::Ninth);
    assert_eq!(InningNumber::Extra(11).next(), InningNumber::Extra(12));
    assert_eq!(InningNumber::Sixth.as_number(), 6);
    assert!(!InningNumber::Ninth.is_extra());
}

#[test]
fn score_and_winner() {
    assert_eq!(GameScore::new().winner(), None);
    assert_eq!(GameScore::default().add_home_runs(1).winner(), Some(GameWinner::Home));
    assert!(GameState::Inning(InningHalf::Top).is_top());
    assert!(!GameState::InningEnd(InningHalf::Bottom).is_bottom());
    assert_eq!(Outs::Three.add_out(), Outs::Three);
    assert_eq!(Outs::Two.as_number(), 2);
}

#[test]
fn overflow_checks_before_a_pitch() {
    let mut half = HalfInning::new(InningHalf::Top, BattingPosition::First);
    half.baserunners = loaded();
    assert_eq!(half.pitch_runs(PitchOutcome::HomeRun), 4);
    assert_eq!(half.pitch_runs(PitchOutcome::HitByPitch), 1);
    assert_eq!(half.pitch_runs(PitchOutcome::Strike), 0);
    half.runs_scored = u32::MAX - 3;
    assert!(!half.can_advance(PitchOutcome::HomeRun));
    assert!(half.can_advance(PitchOutcome::Ball));
    assert!(!HalfInningAdvance::InProgress(half).can_advance(PitchOutcome::HomeRun));

    let mut game = Game::new();
    game.score = GameScore::new().add_away_runs(u32::MAX);
    assert!(!game.can_advance(PitchOutcome::HomeRun));
    assert!(game.can_advance(PitchOutcome::Strike));
    game.state = GameState::Inning(InningHalf::Bottom);
    assert!(game.can_advance(PitchOutcome::HomeRun));
    game.current_inning = InningNumber::Extra(255);
    assert!(!game.can_advance(PitchOutcome::Strike));
    assert!(!InningNumber::Extra(255).can_follow());
    assert!(InningNumber::Extra(254).can_follow());
    let done = GameResult::Complete(baseball::GameSummary::new(
        GameScore::new().add_home_runs(1),
        InningNumber::Ninth,
        GameWinner::Home,
    ));
    assert!(done.can_advance(PitchOutcome::HomeRun));
}

#[test]
fn count_numbers() {
    assert_eq!(Balls::Three.as_number(), 3);
    assert_eq!(Strikes::Two.as_number(), 2);
    assert_eq!(Count::default().balls().as_number(), 0);
}

#[test]
fn text_forms() {
    assert_eq!(BattingPosition::Third.to_text(), "Third");
    assert_eq!(Balls::Two.to_text(), "2");
    assert_eq!(Strikes::One.to_text(), "1");
    assert_eq!(Count::new(Balls::Three, Strikes::Two).to_text(), "3-2");
    assert_eq!(
        BaseOutcome::Runner(BattingPosition::Eighth).to_text(),
        "Runner: Eighth"
    );
    assert_eq!(HomeOutcome::Out.to_text(), "X");
    assert_eq!(PlayOutcome::groundout().to_text(), "Force Out, None, None, 0");
    assert_eq!(
        PlayOutcome::double(loaded(), BattingPosition::First).to_text(),
        "None, Runner: First, Runner: Seventh, 2"
    );
    assert_eq!(
        GameScore::new().add_away_runs(3).add_home_runs(2).to_text(),
        "Away: 3 - Home: 2"
    );
    assert_eq!(
        GameScore::new().add_away_runs(u32::MAX).to_text(),
        "Away: 4294967295 - Home: 0"
    );
    assert_eq!(
        Game::new().to_text(),
        "Top of the 1st Score: Away: 0 - Home: 0"
    );
    let summary = baseball::GameSummary::new(
        GameScore::new().add_away_runs(3).add_home_runs(40),
        InningNumber::Extra(11),
        GameWinner::Home,
    );
    assert_eq!(summary.to_text(), "Final Score: Away: 3 - Home: 40");
    assert_eq!(GameResult::Complete(summary).to_text(), summary.to_text());
    assert_eq!(
        GameResult::InProgress(Game::new()).to_text(),
        Game::new().to_text()
    );
}
