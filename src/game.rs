use vstd::prelude::*;

use crate::inning::{HalfInning, HalfInningAdvance, InningHalf};
use crate::lineup::BattingPosition;
use crate::pa::PitchOutcome;
use crate::text::{decimal, decimal_string};
use crate::Runs;

verus! {

/// Which inning is being played: the regulation nine, then extra ones.
#[derive(Default, Debug, Clone, Copy, PartialEq, Eq, Structural)]
pub enum InningNumber {
    #[default]
    First,
    Second,
    Third,
    Fourth,
    Fifth,
    Sixth,
    Seventh,
    Eighth,
    Ninth,
    Extra(u8),
}

impl InningNumber {
    pub open spec fn number(self) -> nat {
        match self {
            InningNumber::First => 1,
            InningNumber::Second => 2,
            InningNumber::Third => 3,
            InningNumber::Fourth => 4,
            InningNumber::Fifth => 5,
            InningNumber::Sixth => 6,
            InningNumber::Seventh => 7,
            InningNumber::Eighth => 8,
            InningNumber::Ninth => 9,
            InningNumber::Extra(n) => n as nat,
        }
    }

    /// Whether the next inning's number still fits in a `u8`.
    pub open spec fn has_next(self) -> bool {
        match self {
            InningNumber::Extra(n) => n < u8::MAX,
            _ => true,
        }
    }

    /// The inning after this one; the ninth is followed by the tenth.
    pub open spec fn successor(self) -> InningNumber {
        match self {
            InningNumber::First => InningNumber::Second,
            InningNumber::Second => InningNumber::Third,
            InningNumber::Third => InningNumber::Fourth,
            InningNumber::Fourth => InningNumber::Fifth,
            InningNumber::Fifth => InningNumber::Sixth,
            InningNumber::Sixth => InningNumber::Seventh,
            InningNumber::Seventh => InningNumber::Eighth,
            InningNumber::Eighth => InningNumber::Ninth,
            InningNumber::Ninth => InningNumber::Extra(10),
            InningNumber::Extra(n) => InningNumber::Extra((n + 1) as u8),
        }
    }

    pub fn next(self) -> (r: InningNumber)
        requires
            self.has_next(),
        ensures
            r == self.successor(),
            r.number() == self.number() + 1,
    {
        match self {
            InningNumber::First => InningNumber::Second,
            InningNumber::Second => InningNumber::Third,
            InningNumber::Third => InningNumber::Fourth,
            InningNumber::Fourth => InningNumber::Fifth,
            InningNumber::Fifth => InningNumber::Sixth,
            InningNumber::Sixth => InningNumber::Seventh,
            InningNumber::Seventh => InningNumber::Eighth,
            InningNumber::Eighth => InningNumber::Ninth,
            InningNumber::Ninth => InningNumber::Extra(10),
            InningNumber::Extra(n) => InningNumber::Extra(n + 1),
        }
    }

    /// Whether `next` may be called: the next number must fit in a `u8`.
    pub fn can_follow(&self) -> (r: bool)
        ensures
            r == self.has_next(),
    {
        match self {
            InningNumber::Extra(n) => *n < u8::MAX,
            _ => true,
        }
    }

    pub fn as_number(self) -> (r: u8)
        ensures
            r == self.number(),
    {
        match self {
            InningNumber::First => 1,
            InningNumber::Second => 2,
            InningNumber::Third => 3,
            InningNumber::Fourth => 4,
            InningNumber::Fifth => 5,
            InningNumber::Sixth => 6,
            InningNumber::Seventh => 7,
            InningNumber::Eighth => 8,
            InningNumber::Ninth => 9,
            InningNumber::Extra(n) => n,
        }
    }

    pub fn is_extra(&self) -> (r: bool)
        ensures
            r == (self is Extra),
    {
        match self {
            InningNumber::Extra(_) => true,
            _ => false,
        }
    }
}

/// How an inning is named: "1st", "2nd", "3rd", then the number and "th".
pub open spec fn ordinal(inning: InningNumber) -> Seq<char> {
    match inning {
        InningNumber::First => "1st"@,
        InningNumber::Second => "2nd"@,
        InningNumber::Third => "3rd"@,
        _ => decimal(inning.number()) + "th"@,
    }
}

fn ordinal_string(inning: InningNumber) -> (r: String)
    ensures
        r@ == ordinal(inning),
{
    match inning {
        InningNumber::First => String::from_str("1st"),
        InningNumber::Second => String::from_str("2nd"),
        InningNumber::Third => String::from_str("3rd"),
        _ => {
            let mut s = decimal_string(inning.as_number() as u32);
            s.append("th");
            s
        },
    }
}

/// Runs of each team so far.
#[derive(Debug, Clone, Copy, PartialEq, Eq, Structural)]
pub struct GameScore {
    pub away: Runs,
    pub home: Runs,
}

/// The team that won.
#[derive(Debug, Clone, Copy, PartialEq, Eq, Structural)]
pub enum GameWinner {
    Away,
    Home,
}

impl GameScore {
    pub open spec fn zero() -> GameScore {
        GameScore { away: 0, home: 0 }
    }

    /// The team ahead, if either is.
    pub open spec fn leader(self) -> Option<GameWinner> {
        if self.away > self.home {
            Some(GameWinner::Away)
        } else if self.home > self.away {
            Some(GameWinner::Home)
        } else {
            None
        }
    }

    pub fn new() -> (r: GameScore)
        ensures
            r == Self::zero(),
    {
        GameScore { away: 0, home: 0 }
    }

    pub fn away(&self) -> (r: Runs)
        ensures
            r == self.away,
    {
        self.away
    }

    pub fn home(&self) -> (r: Runs)
        ensures
            r == self.home,
    {
        self.home
    }

    pub fn add_away_runs(self, runs: Runs) -> (r: GameScore)
        requires
            self.away + runs <= Runs::MAX,
        ensures
            r.away == self.away + runs,
            r.home == self.home,
    {
        GameScore { away: self.away + runs, home: self.home }
    }

    pub fn add_home_runs(self, runs: Runs) -> (r: GameScore)
        requires
            self.home + runs <= Runs::MAX,
        ensures
            r.away == self.away,
            r.home == self.home + runs,
    {
        GameScore { away: self.away, home: self.home + runs }
    }

    pub fn winner(&self) -> (r: Option<GameWinner>)
        ensures
            r == self.leader(),
    {
        if self.away > self.home {
            Some(GameWinner::Away)
        } else if self.home > self.away {
            Some(GameWinner::Home)
        } else {
            None
        }
    }
}

impl GameScore {
    /// "Away: 3 - Home: 2".
    pub open spec fn text(self) -> Seq<char> {
        "Away: "@ + decimal(self.away as nat) + " - Home: "@ + decimal(self.home as nat)
    }

    pub fn to_text(&self) -> (r: String)
        ensures
            r@ == self.text(),
    {
        let mut s = String::from_str("Away: ");
        let away = decimal_string(self.away);
        s.append(away.as_str());
        s.append(" - Home: ");
        let home = decimal_string(self.home);
        s.append(home.as_str());
        s
    }
}

impl Default for GameScore {
    fn default() -> (r: GameScore)
        ensures
            r == GameScore::zero(),
    {
        GameScore::new()
    }
}

/// A finished game.
#[derive(Debug, Clone, Copy, PartialEq, Eq, Structural)]
pub struct GameSummary {
    pub final_score: GameScore,
    pub innings_played: InningNumber,
    pub winner: GameWinner,
}

impl GameSummary {
    pub fn new(final_score: GameScore, innings_played: InningNumber, winner: GameWinner) -> (r:
        GameSummary)
        ensures
            r.final_score == final_score,
            r.innings_played == innings_played,
            r.winner == winner,
    {
        GameSummary { final_score, innings_played, winner }
    }

    pub fn final_score(&self) -> (r: GameScore)
        ensures
            r == self.final_score,
    {
        self.final_score
    }

    pub fn innings_played(&self) -> (r: InningNumber)
        ensures
            r == self.innings_played,
    {
        self.innings_played
    }

    pub fn winner(&self) -> (r: GameWinner)
        ensures
            r == self.winner,
    {
        self.winner
    }

    /// "Final Score: " and the score.
    pub open spec fn text(self) -> Seq<char> {
        "Final Score: "@ + self.final_score.text()
    }

    pub fn to_text(&self) -> (r: String)
        ensures
            r@ == self.text(),
    {
        let mut s = String::from_str("Final Score: ");
        let score = self.final_score.to_text();
        s.append(score.as_str());
        s
    }
}

/// Which half is being played, or has just ended, or that the game is over.
#[derive(Debug, Clone, Copy, PartialEq, Eq, Structural)]
pub enum GameState {
    Inning(InningHalf),
    InningEnd(InningHalf),
    Complete,
}

impl GameState {
    pub fn is_bottom(&self) -> (r: bool)
        ensures
            r == (*self == GameState::Inning(InningHalf::Bottom)),
    {
        match self {
            GameState::Inning(InningHalf::Bottom) => true,
            _ => false,
        }
    }

    pub fn is_top(&self) -> (r: bool)
        ensures
            r == (*self == GameState::Inning(InningHalf::Top)),
    {
        match self {
            GameState::Inning(InningHalf::Top) => true,
            _ => false,
        }
    }
}

/// A game under way. Each half-inning starts from its team's fixed leadoff
/// slot: the order is not carried over from one half to the team's next.
#[derive(Debug, Clone, Copy, PartialEq, Eq, Structural)]
pub struct Game {
    pub current_inning: InningNumber,
    pub state: GameState,
    pub score: GameScore,
    pub current_half_inning: HalfInning,
    pub away_batting_order: BattingPosition,
    pub home_batting_order: BattingPosition,
}

/// What one pitch did to a game: still going, or over.
#[derive(Debug, Clone, Copy, PartialEq, Eq, Structural)]
pub enum GameResult {
    InProgress(Game),
    Complete(GameSummary),
}

impl Game {
    /// Inning one, top half, no score, each team leading off from its slot.
    pub open spec fn start(away_order: BattingPosition, home_order: BattingPosition) -> Game {
        Game {
            current_inning: InningNumber::First,
            state: GameState::Inning(InningHalf::Top),
            score: GameScore::zero(),
            current_half_inning: HalfInning::start(InningHalf::Top, away_order),
            away_batting_order: away_order,
            home_batting_order: home_order,
        }
    }

    /// Whether the game is over at this moment, with `pending` runs of the
    /// half being played not yet on the board. Before the ninth it never is;
    /// after the top of the ninth it is when the home team leads; after the
    /// bottom of the ninth or of an extra inning it is unless the score is
    /// tied; during the bottom of the ninth it is as soon as the home team
    /// leads.
    pub open spec fn ends(self, pending: nat) -> bool {
        match self.current_inning {
            InningNumber::Ninth => match self.state {
                GameState::InningEnd(InningHalf::Top) => self.score.home > self.score.away,
                GameState::InningEnd(InningHalf::Bottom) => self.score.home != self.score.away,
                GameState::Inning(InningHalf::Top) => false,
                GameState::Inning(InningHalf::Bottom) => self.score.home + pending
                    > self.score.away,
                GameState::Complete => true,
            },
            InningNumber::Extra(_) => match self.state {
                GameState::InningEnd(InningHalf::Bottom) => self.score.home != self.score.away,
                GameState::Complete => true,
                _ => false,
            },
            _ => false,
        }
    }

    /// The game once the half being played is over, its `runs` credited to
    /// the team that batted.
    pub open spec fn credited(self, runs: nat) -> Game {
        match self.state {
            GameState::Inning(InningHalf::Top) => Game {
                score: GameScore { away: (self.score.away + runs) as Runs, ..self.score },
                state: GameState::InningEnd(InningHalf::Top),
                ..self
            },
            GameState::Inning(InningHalf::Bottom) => Game {
                score: GameScore { home: (self.score.home + runs) as Runs, ..self.score },
                state: GameState::InningEnd(InningHalf::Bottom),
                ..self
            },
            _ => self,
        }
    }

    /// The game with the next half under way: the bottom of the same inning
    /// after a top, the top of the next inning after a bottom.
    pub open spec fn next_half(self) -> Game {
        match self.state {
            GameState::InningEnd(InningHalf::Top) => Game {
                state: GameState::Inning(InningHalf::Bottom),
                current_half_inning: HalfInning::start(InningHalf::Bottom, self.home_batting_order),
                ..self
            },
            GameState::InningEnd(InningHalf::Bottom) => Game {
                current_inning: self.current_inning.successor(),
                state: GameState::Inning(InningHalf::Top),
                current_half_inning: HalfInning::start(InningHalf::Top, self.away_batting_order),
                ..self
            },
            _ => self,
        }
    }

    /// The summary of a game that ends here.
    pub open spec fn summary_of(self) -> GameSummary {
        GameSummary {
            final_score: self.score,
            innings_played: self.current_inning,
            winner: if self.score.home > self.score.away {
                GameWinner::Home
            } else {
                GameWinner::Away
            },
        }
    }

    /// What `pitch` does to this game. When the half-inning is over its runs
    /// go on the board and the game either ends or moves to the next half.
    /// In the bottom of the ninth, the pitch that puts the home team ahead
    /// ends the game at once; in an extra inning the half is played out.
    /// A game marked complete ignores the pitch.
    pub open spec fn after(self, pitch: PitchOutcome) -> GameResult {
        if self.state is Complete {
            GameResult::InProgress(self)
        } else {
            match self.current_half_inning.after(pitch) {
                HalfInningAdvance::InProgress(hi) => {
                    let g = Game { current_half_inning: hi, ..self };
                    if self.current_inning == InningNumber::Ninth && self.state == GameState::Inning(
                        InningHalf::Bottom,
                    ) && g.ends(hi.runs_scored as nat) {
                        GameResult::Complete(g.credited(hi.runs_scored as nat).summary_of())
                    } else {
                        GameResult::InProgress(g)
                    }
                },
                HalfInningAdvance::Complete(summary) => {
                    let g = self.credited(summary.runs_scored as nat);
                    if g.ends(0) {
                        GameResult::Complete(g.summary_of())
                    } else {
                        GameResult::InProgress(g.next_half())
                    }
                },
            }
        }
    }

    /// Whether `pitch` can be taken without a run total or the inning number
    /// overflowing.
    pub open spec fn has_room_for(self, pitch: PitchOutcome) -> bool {
        let total = self.current_half_inning.runs_scored + self.current_half_inning.runs_on(pitch);
        &&& total <= Runs::MAX
        &&& self.state == GameState::Inning(InningHalf::Top) ==> self.score.away + total
            <= Runs::MAX
        &&& self.state == GameState::Inning(InningHalf::Bottom) ==> self.score.home + total
            <= Runs::MAX
        &&& (self.state == GameState::Inning(InningHalf::Bottom) || self.state
            == GameState::InningEnd(InningHalf::Bottom)) ==> self.current_inning.has_next()
    }

    pub fn new() -> (r: Game)
        ensures
            r == Self::start(BattingPosition::First, BattingPosition::First),
    {
        Game {
            current_inning: InningNumber::First,
            state: GameState::Inning(InningHalf::Top),
            score: GameScore::new(),
            current_half_inning: HalfInning::new(InningHalf::Top, BattingPosition::First),
            away_batting_order: BattingPosition::First,
            home_batting_order: BattingPosition::First,
        }
    }

    pub fn with_batting_orders(away_order: BattingPosition, home_order: BattingPosition) -> (r:
        Game)
        ensures
            r == Self::start(away_order, home_order),
    {
        let first_half = HalfInning::new(InningHalf::Top, away_order);
        Game {
            current_inning: InningNumber::First,
            state: GameState::Inning(InningHalf::Top),
            score: GameScore::new(),
            current_half_inning: first_half,
            away_batting_order: away_order,
            home_batting_order: home_order,
        }
    }

    pub fn current_inning(&self) -> (r: InningNumber)
        ensures
            r == self.current_inning,
    {
        self.current_inning
    }

    pub fn state(&self) -> (r: GameState)
        ensures
            r == self.state,
    {
        self.state
    }

    pub fn score(&self) -> (r: GameScore)
        ensures
            r == self.score,
    {
        self.score
    }

    pub fn current_half_inning(&self) -> (r: &HalfInning)
        ensures
            *r == self.current_half_inning,
    {
        &self.current_half_inning
    }

    /// Whether `advance` may take `pitch`: no run total and no inning number
    /// may overflow.
    pub fn can_advance(&self, pitch: PitchOutcome) -> (r: bool)
        ensures
            r == self.has_room_for(pitch),
    {
        let half = &self.current_half_inning;
        if !half.can_advance(pitch) {
            return false;
        }
        let total = half.runs_scored + half.pitch_runs(pitch);
        match self.state {
            GameState::Inning(InningHalf::Top) => total <= Runs::MAX - self.score.away,
            GameState::Inning(InningHalf::Bottom) => {
                total <= Runs::MAX - self.score.home && self.current_inning.can_follow()
            },
            GameState::InningEnd(InningHalf::Bottom) => self.current_inning.can_follow(),
            _ => true,
        }
    }

    /// Moves the game on by one pitch. A game already over ignores it.
    pub fn advance(self, outcome: PitchOutcome) -> (r: GameResult)
        requires
            self.has_room_for(outcome),
        ensures
            r == self.after(outcome),
            r matches GameResult::Complete(summary) ==> summary.final_score.home
                != summary.final_score.away,
    {
        if self.is_complete() {
            return GameResult::InProgress(self);
        }
        let mut game = self;
        match self.current_half_inning.advance(outcome) {
            HalfInningAdvance::InProgress(half_inning) => {
                game.current_half_inning = half_inning;
                let pending_runs = half_inning.runs_scored();
                if game.is_bottom_of_ninth() && game.should_end_game(pending_runs) {
                    game.complete_half_inning(pending_runs);
                    let winner = game.score.winner().unwrap();
                    GameResult::Complete(GameSummary::new(game.score, game.current_inning, winner))
                } else {
                    GameResult::InProgress(game)
                }
            },
            HalfInningAdvance::Complete(summary) => {
                game.complete_half_inning(summary.runs_scored());
                if game.should_end_game(0) {
                    let winner = game.score.winner().unwrap();
                    GameResult::Complete(GameSummary::new(game.score, game.current_inning, winner))
                } else {
                    GameResult::InProgress(game.start_next_half())
                }
            },
        }
    }

    /// Puts the runs of the half being played on the board and marks that
    /// half as over.
    pub fn complete_half_inning(&mut self, pending_runs: Runs)
        requires
            old(self).state == GameState::Inning(InningHalf::Top) ==> old(self).score.away
                + pending_runs <= Runs::MAX,
            old(self).state == GameState::Inning(InningHalf::Bottom) ==> old(self).score.home
                + pending_runs <= Runs::MAX,
        ensures
            *final(self) == old(self).credited(pending_runs as nat),
    {
        match self.state {
            GameState::Inning(InningHalf::Top) => {
                self.score = self.score.add_away_runs(pending_runs);
                self.state = GameState::InningEnd(InningHalf::Top);
            },
            GameState::Inning(InningHalf::Bottom) => {
                self.score = self.score.add_home_runs(pending_runs);
                self.state = GameState::InningEnd(InningHalf::Bottom);
            },
            GameState::InningEnd(_) | GameState::Complete => {},
        }
    }

    /// Whether the game is over now, with `pending_runs` of the half being
    /// played not yet on the board.
    pub fn should_end_game(&self, pending_runs: Runs) -> (r: bool)
        ensures
            r == self.ends(pending_runs as nat),
    {
        match self.current_inning {
            InningNumber::Ninth => match self.state {
                GameState::InningEnd(InningHalf::Top) => self.score.home > self.score.away,
                GameState::InningEnd(InningHalf::Bottom) => self.score.home != self.score.away,
                GameState::Inning(InningHalf::Top) => false,
                GameState::Inning(InningHalf::Bottom) => {
                    self.score.home as u64 + pending_runs as u64 > self.score.away as u64
                },
                GameState::Complete => true,
            },
            InningNumber::Extra(_) => match self.state {
                GameState::InningEnd(InningHalf::Top) => false,
                GameState::InningEnd(InningHalf::Bottom) => self.score.home != self.score.away,
                GameState::Inning(_) => false,
                GameState::Complete => true,
            },
            InningNumber::First | InningNumber::Second | InningNumber::Third
            | InningNumber::Fourth | InningNumber::Fifth | InningNumber::Sixth
            | InningNumber::Seventh | InningNumber::Eighth => false,
        }
    }

    fn start_next_half(self) -> (r: Game)
        requires
            self.state == GameState::InningEnd(InningHalf::Bottom) ==> self.current_inning.has_next(),
        ensures
            r == self.next_half(),
    {
        let (half, batting_order) = match self.state {
            GameState::InningEnd(InningHalf::Top) => (InningHalf::Bottom, self.home_batting_order),
            GameState::InningEnd(InningHalf::Bottom) => (InningHalf::Top, self.away_batting_order),
            GameState::Inning(_) | GameState::Complete => {
                return self;
            },
        };
        let mut game = self;
        if half == InningHalf::Top {
            game.current_inning = self.current_inning.next();
        }
        game.current_half_inning = HalfInning::new(half, batting_order);
        game.state = GameState::Inning(half);
        game
    }

    pub fn is_complete(&self) -> (r: bool)
        ensures
            r == (self.state is Complete),
    {
        match self.state {
            GameState::Complete => true,
            _ => false,
        }
    }

    /// How the moment is announced: "Top of the 1st", "Mid of the 9th",
    /// "End of the 12th", "Game Complete".
    pub open spec fn description(self) -> Seq<char> {
        match self.state {
            GameState::Inning(InningHalf::Top) => "Top"@ + " of the "@ + ordinal(
                self.current_inning,
            ),
            GameState::Inning(InningHalf::Bottom) => "Bottom"@ + " of the "@ + ordinal(
                self.current_inning,
            ),
            GameState::InningEnd(InningHalf::Top) => "Mid"@ + " of the "@ + ordinal(
                self.current_inning,
            ),
            GameState::InningEnd(InningHalf::Bottom) => "End"@ + " of the "@ + ordinal(
                self.current_inning,
            ),
            GameState::Complete => "Game Complete"@,
        }
    }

    pub fn inning_description(&self) -> (r: String)
        ensures
            r@ == self.description(),
    {
        let inning_text = ordinal_string(self.current_inning);
        let mut text = match self.state {
            GameState::Inning(InningHalf::Top) => String::from_str("Top"),
            GameState::Inning(InningHalf::Bottom) => String::from_str("Bottom"),
            GameState::InningEnd(InningHalf::Top) => String::from_str("Mid"),
            GameState::InningEnd(InningHalf::Bottom) => String::from_str("End"),
            GameState::Complete => {
                return String::from_str("Game Complete");
            },
        };
        text.append(" of the ");
        text.append(inning_text.as_str());
        text
    }

    /// Where the game stands, then " Score: " and the score.
    pub open spec fn text(self) -> Seq<char> {
        self.description() + " Score: "@ + self.score.text()
    }

    pub fn to_text(&self) -> (r: String)
        ensures
            r@ == self.text(),
    {
        let mut s = self.inning_description();
        s.append(" Score: ");
        let score = self.score.to_text();
        s.append(score.as_str());
        s
    }

    fn is_bottom_of_ninth(&self) -> (r: bool)
        ensures
            r == (self.current_inning == InningNumber::Ninth && self.state == GameState::Inning(
                InningHalf::Bottom,
            )),
    {
        self.current_inning == InningNumber::Ninth && self.state.is_bottom()
    }
}

impl Default for Game {
    fn default() -> (r: Game)
        ensures
            r == Game::start(BattingPosition::First, BattingPosition::First),
    {
        Game::new()
    }
}

impl GameResult {
    /// Whether `pitch` can be taken without an overflow.
    pub open spec fn has_room_for(self, pitch: PitchOutcome) -> bool {
        match self {
            GameResult::InProgress(game) => game.has_room_for(pitch),
            GameResult::Complete(_) => true,
        }
    }

    /// What `pitch` does here: a finished game stays as it is.
    pub open spec fn after(self, pitch: PitchOutcome) -> GameResult {
        match self {
            GameResult::InProgress(game) => game.after(pitch),
            GameResult::Complete(_) => self,
        }
    }

    /// Whether `advance` may take `pitch`.
    pub fn can_advance(&self, pitch: PitchOutcome) -> (r: bool)
        ensures
            r == self.has_room_for(pitch),
    {
        match self {
            GameResult::InProgress(game) => game.can_advance(pitch),
            GameResult::Complete(_) => true,
        }
    }

    pub fn advance(self, outcome: PitchOutcome) -> (r: GameResult)
        requires
            self.has_room_for(outcome),
        ensures
            r == self.after(outcome),
    {
        match self {
            GameResult::InProgress(game) => game.advance(outcome),
            GameResult::Complete(_) => self,
        }
    }

    /// The text of the game under way, or of the finished game.
    pub open spec fn text(self) -> Seq<char> {
        match self {
            GameResult::InProgress(game) => game.text(),
            GameResult::Complete(summary) => summary.text(),
        }
    }

    pub fn to_text(&self) -> (r: String)
        ensures
            r@ == self.text(),
    {
        match self {
            GameResult::InProgress(game) => game.to_text(),
            GameResult::Complete(summary) => summary.to_text(),
        }
    }

    pub fn is_complete(&self) -> (r: bool)
        ensures
            r == (self is Complete),
    {
        match self {
            GameResult::Complete(_) => true,
            GameResult::InProgress(_) => false,
        }
    }

    pub fn game(self) -> (r: Option<Game>)
        ensures
            r == (match self {
                GameResult::InProgress(game) => Some(game),
                GameResult::Complete(_) => None,
            }),
    {
        match self {
            GameResult::InProgress(game) => Some(game),
            GameResult::Complete(_) => None,
        }
    }

    pub fn game_ref(&self) -> (r: Option<&Game>)
        ensures
            r == (match self {
                GameResult::InProgress(game) => Some(game),
                GameResult::Complete(_) => None,
            }),
    {
        match self {
            GameResult::InProgress(game) => Some(game),
            GameResult::Complete(_) => None,
        }
    }

    pub fn summary(self) -> (r: Option<GameSummary>)
        ensures
            r == (match self {
                GameResult::InProgress(_) => None,
                GameResult::Complete(summary) => Some(summary),
            }),
    {
        match self {
            GameResult::InProgress(_) => None,
            GameResult::Complete(summary) => Some(summary),
        }
    }

    pub fn summary_ref(&self) -> (r: Option<&GameSummary>)
        ensures
            r == (match self {
                GameResult::InProgress(_) => None,
                GameResult::Complete(summary) => Some(summary),
            }),
    {
        match self {
            GameResult::InProgress(_) => None,
            GameResult::Complete(summary) => Some(summary),
        }
    }
}

} // verus!
