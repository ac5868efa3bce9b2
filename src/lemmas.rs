//! Facts about how the layers of the engine behave over several pitches or
//! for whole families of inputs, proved from the transition functions.
use vstd::prelude::*;

use crate::baserunners::{BaserunnerState, PlayOutcome};
use crate::game::{Game, GameResult, GameScore, GameState, GameSummary, GameWinner, InningNumber};
use crate::inning::{HalfInning, HalfInningAdvance, HalfInningSummary, InningHalf};
use crate::lineup::BattingPosition;
use crate::pa::{CountAdvance, PitchOutcome, PlateAppearance, PlateAppearanceResult, Strikes};
use crate::Runs;

verus! {

/// Four balls walk the batter, whatever the count they start from.
pub proof fn lemma_four_balls_walk(pa: PlateAppearance)
    ensures
        PlateAppearanceResult::InProgress(pa).after(PitchOutcome::Ball).after(
            PitchOutcome::Ball,
        ).after(PitchOutcome::Ball).after(PitchOutcome::Ball) == PlateAppearanceResult::Walk,
{
}

/// Three strikes strike the batter out, whatever the count they start from.
pub proof fn lemma_three_strikes_out(pa: PlateAppearance)
    ensures
        PlateAppearanceResult::InProgress(pa).after(PitchOutcome::Strike).after(
            PitchOutcome::Strike,
        ).after(PitchOutcome::Strike) == PlateAppearanceResult::Strikeout,
{
}

/// With two strikes a foul leaves the count as it is and the batter at the plate.
pub proof fn lemma_two_strike_foul(pa: PlateAppearance)
    requires
        pa.count.strikes == Strikes::Two,
    ensures
        pa.count.after(PitchOutcome::Foul) == CountAdvance::InProgress(pa.count),
        pa.after(PitchOutcome::Foul) == PlateAppearanceResult::InProgress(pa),
{
}

/// A walk with the bases loaded forces in exactly one run and leaves the bases loaded.
pub proof fn lemma_walk_bases_loaded(baserunners: BaserunnerState, batter: BattingPosition)
    requires
        baserunners.first is Some,
        baserunners.second is Some,
        baserunners.third is Some,
    ensures
        baserunners.walk_runs() == 1,
        baserunners.walked(batter).count() == 3,
{
}

/// A walk with the bases empty scores nobody and puts only the batter on, at first.
pub proof fn lemma_walk_bases_empty(batter: BattingPosition)
    ensures
        BaserunnerState::empty_bases().walk_runs() == 0,
        BaserunnerState::empty_bases().walked(batter) == (BaserunnerState {
            first: Some(batter),
            second: None,
            third: None,
        }),
{
}

/// A home run with the bases loaded scores four and empties the bases.
pub proof fn lemma_grand_slam(baserunners: BaserunnerState, batter: BattingPosition)
    requires
        baserunners.first is Some,
        baserunners.second is Some,
        baserunners.third is Some,
    ensures
        PlayOutcome::hit(baserunners, batter, 4).home.runs() == 4,
        PlayOutcome::hit(baserunners, batter, 4).runners() == BaserunnerState::empty_bases(),
        PlayOutcome::hit(baserunners, batter, 4).out_count() == 0,
{
}

/// A ball in play retires the side exactly when its outs bring the half's
/// total to three, however many of them it records at once; otherwise the
/// outs add up.
pub proof fn lemma_outs_retire_side(half_inning: HalfInning, play: PlayOutcome)
    requires
        half_inning.outs.value() < 3,
        half_inning.runs_scored + play.home.runs() <= Runs::MAX,
    ensures
        match half_inning.after(PitchOutcome::InPlay(play)) {
            HalfInningAdvance::Complete(summary) => {
                &&& half_inning.outs.value() + play.out_count() >= 3
                &&& summary.runs_scored == half_inning.runs_scored + play.home.runs()
            },
            HalfInningAdvance::InProgress(next) => {
                &&& half_inning.outs.value() + play.out_count() < 3
                &&& next.outs.value() == half_inning.outs.value() + play.out_count()
            },
        },
{
}

/// A half-inning that goes on after a pitch has fewer than three outs.
pub proof fn lemma_in_progress_below_three_outs(half_inning: HalfInning, pitch: PitchOutcome)
    requires
        half_inning.outs.value() < 3,
    ensures
        half_inning.after(pitch) matches HalfInningAdvance::InProgress(next) ==> next.outs.value()
            < 3,
{
}

/// When the top of the ninth ends with the home team ahead, the game ends
/// there: the bottom of the ninth is not played.
pub proof fn lemma_home_ahead_after_top_of_ninth(game: Game, pitch: PitchOutcome)
    requires
        game.current_inning == InningNumber::Ninth,
        game.state == GameState::Inning(InningHalf::Top),
        game.has_room_for(pitch),
        game.current_half_inning.after(pitch) matches HalfInningAdvance::Complete(summary)
            && game.score.home > game.score.away + summary.runs_scored,
    ensures
        game.after(pitch) matches GameResult::Complete(summary) && summary.winner
            == GameWinner::Home && summary.innings_played == InningNumber::Ninth
            && summary.final_score.home == game.score.home && summary.final_score.away
            == game.score.away + game.current_half_inning.after(pitch)->Complete_0.runs_scored,
{
}

/// When the bottom of the ninth ends with the score tied, play goes on to the
/// top of the tenth, the away team leading off from its slot.
pub proof fn lemma_tie_after_ninth_goes_to_tenth(game: Game, pitch: PitchOutcome)
    requires
        game.current_inning == InningNumber::Ninth,
        game.state == GameState::Inning(InningHalf::Bottom),
        game.has_room_for(pitch),
        game.current_half_inning.after(pitch) matches HalfInningAdvance::Complete(summary)
            && game.score.home + summary.runs_scored == game.score.away,
    ensures
        game.after(pitch) matches GameResult::InProgress(next) && next.current_inning
            == InningNumber::Extra(10) && next.state == GameState::Inning(InningHalf::Top)
            && next.score == (GameScore { away: game.score.away, home: game.score.away })
            && next.current_half_inning == HalfInning::start(
            InningHalf::Top,
            game.away_batting_order,
        ),
{
}

/// The pitch on which the home team takes the lead in the bottom of the ninth
/// ends the game at once, with the runs it brought in on the board, even
/// though the side has not been retired.
pub proof fn lemma_walk_off(game: Game, pitch: PitchOutcome)
    requires
        game.current_inning == InningNumber::Ninth,
        game.state == GameState::Inning(InningHalf::Bottom),
        game.has_room_for(pitch),
        game.current_half_inning.after(pitch) matches HalfInningAdvance::InProgress(half_inning)
            && game.score.home + half_inning.runs_scored > game.score.away,
    ensures
        game.after(pitch) matches GameResult::Complete(summary) && summary.winner
            == GameWinner::Home && summary.final_score.away == game.score.away
            && summary.final_score.home == game.score.home + game.current_half_inning.after(
            pitch,
        )->InProgress_0.runs_scored,
{
}

/// A game that goes on after a pitch is being played in one of its halves,
/// with the half-inning of that half, when it was so before the pitch.
pub proof fn lemma_game_stays_live(game: Game, pitch: PitchOutcome)
    requires
        game.state == GameState::Inning(game.current_half_inning.half),
    ensures
        game.after(pitch) matches GameResult::InProgress(next) ==> next.state == GameState::Inning(
            next.current_half_inning.half,
        ),
{
}

/// A finished game is never tied, and its winner is the team ahead.
pub proof fn lemma_finished_game_has_winner(game: Game, pitch: PitchOutcome)
    requires
        game.has_room_for(pitch),
    ensures
        game.after(pitch) matches GameResult::Complete(summary) ==> summary.final_score.leader()
            == Some(summary.winner),
{
}

/// A finished count ignores further pitches.
pub proof fn lemma_finished_count_stays(result: CountAdvance, pitch: PitchOutcome)
    requires
        !(result is InProgress),
    ensures
        result.after(pitch) == result,
{
}

/// A finished plate appearance ignores further pitches.
pub proof fn lemma_finished_plate_appearance_stays(
    result: PlateAppearanceResult,
    pitch: PitchOutcome,
)
    requires
        !(result is InProgress),
    ensures
        result.after(pitch) == result,
{
}

/// A finished half-inning ignores further pitches.
pub proof fn lemma_finished_half_inning_stays(summary: HalfInningSummary, pitch: PitchOutcome)
    ensures
        HalfInningAdvance::Complete(summary).after(pitch) == HalfInningAdvance::Complete(summary),
{
}

/// A finished game ignores further pitches.
pub proof fn lemma_finished_game_stays(summary: GameSummary, pitch: PitchOutcome)
    ensures
        GameResult::Complete(summary).after(pitch) == GameResult::Complete(summary),
{
}

} // verus!
