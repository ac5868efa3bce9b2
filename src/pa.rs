use vstd::prelude::*;

use crate::baserunners::PlayOutcome;
use crate::text::{decimal, decimal_string};

verus! {

/// Balls in the count; a fourth ball is a walk, never a state.
#[derive(Default, Debug, Clone, Copy, PartialEq, Eq, Structural)]
pub enum Balls {
    #[default]
    Zero,
    One,
    Two,
    Three,
}

impl Balls {
    pub open spec fn value(self) -> nat {
        match self {
            Balls::Zero => 0,
            Balls::One => 1,
            Balls::Two => 2,
            Balls::Three => 3,
        }
    }

    pub fn as_number(self) -> (r: u8)
        ensures
            r == self.value(),
    {
        match self {
            Balls::Zero => 0,
            Balls::One => 1,
            Balls::Two => 2,
            Balls::Three => 3,
        }
    }

    pub fn to_text(&self) -> (r: String)
        ensures
            r@ == decimal(self.value()),
    {
        decimal_string(self.as_number() as u32)
    }

    /// The ball count `n`, for `n` up to three.
    pub open spec fn from_value(n: nat) -> Balls {
        if n == 0 {
            Balls::Zero
        } else if n == 1 {
            Balls::One
        } else if n == 2 {
            Balls::Two
        } else {
            Balls::Three
        }
    }
}

/// Strikes in the count; a third strike is a strikeout, never a state.
#[derive(Default, Debug, Clone, Copy, PartialEq, Eq, Structural)]
pub enum Strikes {
    #[default]
    Zero,
    One,
    Two,
}

impl Strikes {
    pub open spec fn value(self) -> nat {
        match self {
            Strikes::Zero => 0,
            Strikes::One => 1,
            Strikes::Two => 2,
        }
    }

    pub fn as_number(self) -> (r: u8)
        ensures
            r == self.value(),
    {
        match self {
            Strikes::Zero => 0,
            Strikes::One => 1,
            Strikes::Two => 2,
        }
    }

    pub fn to_text(&self) -> (r: String)
        ensures
            r@ == decimal(self.value()),
    {
        decimal_string(self.as_number() as u32)
    }

    /// The strike count `n`, for `n` up to two.
    pub open spec fn from_value(n: nat) -> Strikes {
        if n == 0 {
            Strikes::Zero
        } else if n == 1 {
            Strikes::One
        } else {
            Strikes::Two
        }
    }
}

/// Balls and strikes of one plate appearance.
#[derive(Debug, Clone, Copy, PartialEq, Eq, Structural)]
pub struct Count {
    pub balls: Balls,
    pub strikes: Strikes,
}

/// What one pitch did to a count.
#[derive(Debug, Clone, Copy, PartialEq, Eq, Structural)]
pub enum CountAdvance {
    InProgress(Count),
    Strikeout,
    Walk,
}

/// The outcome of one pitch: the only input of the whole engine.
#[derive(Debug, Clone, Copy, PartialEq, Eq, Structural)]
pub enum PitchOutcome {
    Ball,
    Strike,
    Foul,
    InPlay(PlayOutcome),
    HomeRun,
    HitByPitch,
}

/// Kinds of batted ball.
#[derive(Debug, Clone, Copy, PartialEq, Eq, Structural)]
pub enum BallInPlay {
    Out,
    Single,
    Double,
    Triple,
    HomeRun,
    Error,
}

impl Count {
    pub open spec fn empty() -> Count {
        Count { balls: Balls::Zero, strikes: Strikes::Zero }
    }

    /// The count one more strike makes: the next strike, or a strikeout at two.
    pub open spec fn with_strike(self) -> CountAdvance {
        if self.strikes.value() == 2 {
            CountAdvance::Strikeout
        } else {
            CountAdvance::InProgress(
                Count { strikes: Strikes::from_value(self.strikes.value() + 1), ..self },
            )
        }
    }

    /// What `pitch` does to this count. Only a ball, a strike or a foul
    /// moves it; a foul never makes the third strike.
    pub open spec fn after(self, pitch: PitchOutcome) -> CountAdvance {
        match pitch {
            PitchOutcome::Ball => if self.balls.value() == 3 {
                CountAdvance::Walk
            } else {
                CountAdvance::InProgress(
                    Count { balls: Balls::from_value(self.balls.value() + 1), ..self },
                )
            },
            PitchOutcome::Strike => self.with_strike(),
            PitchOutcome::Foul => if self.strikes.value() == 2 {
                CountAdvance::InProgress(self)
            } else {
                self.with_strike()
            },
            _ => CountAdvance::InProgress(self),
        }
    }

    pub fn new(balls: Balls, strikes: Strikes) -> (r: Count)
        ensures
            r.balls == balls,
            r.strikes == strikes,
    {
        Count { balls, strikes }
    }

    pub fn balls(&self) -> (r: Balls)
        ensures
            r == self.balls,
    {
        self.balls
    }

    pub fn strikes(&self) -> (r: Strikes)
        ensures
            r == self.strikes,
    {
        self.strikes
    }

    pub fn advance(self, outcome: PitchOutcome) -> (r: CountAdvance)
        ensures
            r == self.after(outcome),
    {
        match outcome {
            PitchOutcome::Ball => self.advance_ball(),
            PitchOutcome::Strike => self.advance_strike(),
            PitchOutcome::Foul => self.advance_foul(),
            _ => CountAdvance::in_progress(self),
        }
    }

    fn advance_ball(self) -> (r: CountAdvance)
        ensures
            r == self.after(PitchOutcome::Ball),
    {
        match self.balls {
            Balls::Zero => CountAdvance::in_progress(Count::new(Balls::One, self.strikes)),
            Balls::One => CountAdvance::in_progress(Count::new(Balls::Two, self.strikes)),
            Balls::Two => CountAdvance::in_progress(Count::new(Balls::Three, self.strikes)),
            Balls::Three => CountAdvance::Walk,
        }
    }

    fn advance_strike(self) -> (r: CountAdvance)
        ensures
            r == self.after(PitchOutcome::Strike),
    {
        match self.strikes {
            Strikes::Zero => CountAdvance::in_progress(Count::new(self.balls, Strikes::One)),
            Strikes::One => CountAdvance::in_progress(Count::new(self.balls, Strikes::Two)),
            Strikes::Two => CountAdvance::Strikeout,
        }
    }

    fn advance_foul(self) -> (r: CountAdvance)
        ensures
            r == self.after(PitchOutcome::Foul),
    {
        match self.strikes {
            Strikes::Zero => CountAdvance::in_progress(Count::new(self.balls, Strikes::One)),
            Strikes::One => CountAdvance::in_progress(Count::new(self.balls, Strikes::Two)),
            Strikes::Two => CountAdvance::in_progress(self),
        }
    }
}

impl Count {
    /// Balls, a dash, strikes: "3-2".
    pub open spec fn text(self) -> Seq<char> {
        decimal(self.balls.value()) + "-"@ + decimal(self.strikes.value())
    }

    pub fn to_text(&self) -> (r: String)
        ensures
            r@ == self.text(),
    {
        let mut s = decimal_string(self.balls.as_number() as u32);
        s.append("-");
        let strikes = decimal_string(self.strikes.as_number() as u32);
        s.append(strikes.as_str());
        s
    }
}

impl Default for Count {
    fn default() -> (r: Count)
        ensures
            r == Count::empty(),
    {
        Count { balls: Balls::Zero, strikes: Strikes::Zero }
    }
}

impl CountAdvance {
    /// What `pitch` does here: a finished count stays as it is.
    pub open spec fn after(self, pitch: PitchOutcome) -> CountAdvance {
        match self {
            CountAdvance::InProgress(count) => count.after(pitch),
            _ => self,
        }
    }

    pub fn advance(self, outcome: PitchOutcome) -> (r: CountAdvance)
        ensures
            r == self.after(outcome),
    {
        match self {
            CountAdvance::InProgress(count) => count.advance(outcome),
            _ => self,
        }
    }

    pub fn in_progress(count: Count) -> (r: CountAdvance)
        ensures
            r == CountAdvance::InProgress(count),
    {
        CountAdvance::InProgress(count)
    }

    pub fn count(self) -> (r: Option<Count>)
        ensures
            r == (match self {
                CountAdvance::InProgress(count) => Some(count),
                _ => None,
            }),
    {
        match self {
            CountAdvance::InProgress(count) => Some(count),
            _ => None,
        }
    }
}

/// One batter's turn, while it lasts: its count.
#[derive(Debug, Clone, Copy, PartialEq, Eq, Structural)]
pub struct PlateAppearance {
    pub count: Count,
}

/// What one pitch did to a plate appearance: still going, or how it ended.
#[derive(Debug, Clone, Copy, PartialEq, Eq, Structural)]
pub enum PlateAppearanceResult {
    InProgress(PlateAppearance),
    InPlay(PlayOutcome),
    Walk,
    Strikeout,
    HitByPitch,
    HomeRun,
}

impl PlateAppearance {
    pub open spec fn fresh() -> PlateAppearance {
        PlateAppearance { count: Count::empty() }
    }

    /// What `pitch` does to this plate appearance. Balls, strikes and fouls go
    /// through the count; every other pitch ends it.
    pub open spec fn after(self, pitch: PitchOutcome) -> PlateAppearanceResult {
        match pitch {
            PitchOutcome::InPlay(outcome) => PlateAppearanceResult::InPlay(outcome),
            PitchOutcome::HomeRun => PlateAppearanceResult::HomeRun,
            PitchOutcome::HitByPitch => PlateAppearanceResult::HitByPitch,
            _ => match self.count.after(pitch) {
                CountAdvance::InProgress(count) => PlateAppearanceResult::InProgress(
                    PlateAppearance { count },
                ),
                CountAdvance::Strikeout => PlateAppearanceResult::Strikeout,
                CountAdvance::Walk => PlateAppearanceResult::Walk,
            },
        }
    }

    pub fn new() -> (r: PlateAppearance)
        ensures
            r == Self::fresh(),
    {
        Self::default()
    }

    pub fn with_count(count: Count) -> (r: PlateAppearance)
        ensures
            r.count == count,
    {
        PlateAppearance { count }
    }

    pub fn advance(self, outcome: PitchOutcome) -> (r: PlateAppearanceResult)
        ensures
            r == self.after(outcome),
    {
        match outcome {
            PitchOutcome::Ball | PitchOutcome::Strike | PitchOutcome::Foul => {
                let count_advance = self.count.advance(outcome);
                match count_advance {
                    CountAdvance::InProgress(count) => PlateAppearanceResult::InProgress(
                        PlateAppearance::with_count(count),
                    ),
                    CountAdvance::Strikeout => PlateAppearanceResult::Strikeout,
                    CountAdvance::Walk => PlateAppearanceResult::Walk,
                }
            },
            PitchOutcome::InPlay(outcome) => PlateAppearanceResult::InPlay(outcome),
            PitchOutcome::HomeRun => PlateAppearanceResult::HomeRun,
            PitchOutcome::HitByPitch => PlateAppearanceResult::HitByPitch,
        }
    }

    pub fn count(&self) -> (r: Count)
        ensures
            r == self.count,
    {
        self.count
    }
}

impl Default for PlateAppearance {
    fn default() -> (r: PlateAppearance)
        ensures
            r == Self::fresh(),
    {
        PlateAppearance { count: Count::default() }
    }
}

impl PlateAppearanceResult {
    /// What `pitch` does here: a finished plate appearance stays as it is.
    pub open spec fn after(self, pitch: PitchOutcome) -> PlateAppearanceResult {
        match self {
            PlateAppearanceResult::InProgress(pa) => pa.after(pitch),
            _ => self,
        }
    }

    pub fn advance(self, outcome: PitchOutcome) -> (r: PlateAppearanceResult)
        ensures
            r == self.after(outcome),
    {
        match self {
            PlateAppearanceResult::InProgress(pa) => pa.advance(outcome),
            _ => self,
        }
    }

    pub fn is_in_progress(self) -> (r: bool)
        ensures
            r == (self is InProgress),
    {
        !self.is_complete()
    }

    pub fn is_complete(self) -> (r: bool)
        ensures
            r == !(self is InProgress),
    {
        match self {
            PlateAppearanceResult::InProgress(_) => false,
            PlateAppearanceResult::Walk => true,
            PlateAppearanceResult::Strikeout => true,
            PlateAppearanceResult::InPlay(_) => true,
            PlateAppearanceResult::HitByPitch => true,
            PlateAppearanceResult::HomeRun => true,
        }
    }

    pub fn plate_appearance(self) -> (r: Option<PlateAppearance>)
        ensures
            r == (match self {
                PlateAppearanceResult::InProgress(pa) => Some(pa),
                _ => None,
            }),
    {
        match self {
            PlateAppearanceResult::InProgress(pa) => Some(pa),
            _ => None,
        }
    }
}

} // verus!
