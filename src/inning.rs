use vstd::prelude::*;

use crate::baserunners::BaserunnerState;
use crate::lineup::BattingPosition;
use crate::pa::{PitchOutcome, PlateAppearance, PlateAppearanceResult};
use crate::Runs;

verus! {

/// Which team bats: the away team in the top, the home team in the bottom.
#[derive(Default, Debug, Clone, Copy, PartialEq, Eq, Structural)]
pub enum InningHalf {
    #[default]
    Top,
    Bottom,
}

/// Outs in a half-inning; three retire the side.
#[derive(Default, Debug, Clone, Copy, PartialEq, Eq, Structural)]
pub enum Outs {
    #[default]
    Zero,
    One,
    Two,
    Three,
}

impl Outs {
    pub open spec fn value(self) -> nat {
        match self {
            Outs::Zero => 0,
            Outs::One => 1,
            Outs::Two => 2,
            Outs::Three => 3,
        }
    }

    /// `n` outs, where three is as many as there can be.
    pub open spec fn from_value(n: nat) -> Outs {
        if n == 0 {
            Outs::Zero
        } else if n == 1 {
            Outs::One
        } else if n == 2 {
            Outs::Two
        } else {
            Outs::Three
        }
    }

    /// One more out; three stays three.
    pub fn add_out(self) -> (r: Outs)
        ensures
            r == Outs::from_value(self.value() + 1),
    {
        match self {
            Outs::Zero => Outs::One,
            Outs::One => Outs::Two,
            Outs::Two => Outs::Three,
            Outs::Three => Outs::Three,
        }
    }

    pub fn as_number(self) -> (r: Runs)
        ensures
            r == self.value(),
    {
        match self {
            Outs::Zero => 0,
            Outs::One => 1,
            Outs::Two => 2,
            Outs::Three => 3,
        }
    }
}

/// One team's turn at bat while it lasts.
#[derive(Debug, Clone, Copy, PartialEq, Eq, Structural)]
pub struct HalfInning {
    pub half: InningHalf,
    pub outs: Outs,
    pub current_batter: BattingPosition,
    pub current_pa: PlateAppearance,
    pub runs_scored: Runs,
    pub baserunners: BaserunnerState,
}

/// What is left of a half-inning once the side is retired.
#[derive(Debug, Clone, Copy, PartialEq, Eq, Structural)]
pub struct HalfInningSummary {
    pub runs_scored: Runs,
}

/// What one pitch did to a half-inning: still going, or over.
#[derive(Debug, Clone, Copy, PartialEq, Eq, Structural)]
pub enum HalfInningAdvance {
    InProgress(HalfInning),
    Complete(HalfInningSummary),
}

impl HalfInning {
    /// A half-inning before its first pitch: no outs, no runs, empty bases.
    pub open spec fn start(half: InningHalf, batter: BattingPosition) -> HalfInning {
        HalfInning {
            half,
            outs: Outs::Zero,
            current_batter: batter,
            current_pa: PlateAppearance::fresh(),
            runs_scored: 0,
            baserunners: BaserunnerState::empty_bases(),
        }
    }

    /// The next slot in the order comes up with a fresh count.
    pub open spec fn next_batter(self) -> HalfInningAdvance {
        HalfInningAdvance::InProgress(
            HalfInning {
                current_batter: self.current_batter.successor(),
                current_pa: PlateAppearance::fresh(),
                ..self
            },
        )
    }

    /// `n` more outs: the side is retired the moment the third is made;
    /// otherwise the next batter comes up.
    pub open spec fn record_outs(self, n: nat) -> HalfInningAdvance {
        if n > 0 && self.outs.value() + n >= 3 {
            HalfInningAdvance::Complete(HalfInningSummary { runs_scored: self.runs_scored })
        } else {
            HalfInning { outs: Outs::from_value(self.outs.value() + n), ..self }.next_batter()
        }
    }

    /// Runs that `pitch` brings home.
    pub open spec fn runs_on(self, pitch: PitchOutcome) -> nat {
        match self.current_pa.after(pitch) {
            PlateAppearanceResult::InPlay(outcome) => outcome.home.runs(),
            PlateAppearanceResult::Walk => self.baserunners.walk_runs(),
            PlateAppearanceResult::HitByPitch => self.baserunners.walk_runs(),
            PlateAppearanceResult::HomeRun => self.baserunners.count() + 1,
            _ => 0,
        }
    }

    /// The half-inning after the batter is awarded first base.
    pub open spec fn after_walk(self) -> HalfInningAdvance {
        HalfInning {
            runs_scored: (self.runs_scored + self.baserunners.walk_runs()) as Runs,
            baserunners: self.baserunners.walked(self.current_batter),
            ..self
        }.next_batter()
    }

    /// What `pitch` does to this half-inning.
    pub open spec fn after(self, pitch: PitchOutcome) -> HalfInningAdvance {
        match self.current_pa.after(pitch) {
            PlateAppearanceResult::Strikeout => self.record_outs(1),
            PlateAppearanceResult::InPlay(outcome) => HalfInning {
                runs_scored: (self.runs_scored + outcome.home.runs()) as Runs,
                baserunners: outcome.runners(),
                ..self
            }.record_outs(outcome.out_count()),
            PlateAppearanceResult::Walk => self.after_walk(),
            PlateAppearanceResult::HitByPitch => self.after_walk(),
            PlateAppearanceResult::HomeRun => HalfInning {
                runs_scored: (self.runs_scored + self.baserunners.count() + 1) as Runs,
                baserunners: BaserunnerState::empty_bases(),
                ..self
            }.next_batter(),
            PlateAppearanceResult::InProgress(pa) => HalfInningAdvance::InProgress(
                HalfInning { current_pa: pa, ..self },
            ),
        }
    }

    pub fn new(half: InningHalf, starting_batter: BattingPosition) -> (r: HalfInning)
        ensures
            r == Self::start(half, starting_batter),
    {
        HalfInning {
            half,
            outs: Outs::Zero,
            current_batter: starting_batter,
            current_pa: PlateAppearance::new(),
            runs_scored: 0,
            baserunners: BaserunnerState::new(),
        }
    }

    pub fn half(&self) -> (r: InningHalf)
        ensures
            r == self.half,
    {
        self.half
    }

    pub fn outs(&self) -> (r: Outs)
        ensures
            r == self.outs,
    {
        self.outs
    }

    pub fn current_batter(&self) -> (r: BattingPosition)
        ensures
            r == self.current_batter,
    {
        self.current_batter
    }

    pub fn current_plate_appearance(&self) -> (r: &PlateAppearance)
        ensures
            *r == self.current_pa,
    {
        &self.current_pa
    }

    pub fn runs_scored(&self) -> (r: Runs)
        ensures
            r == self.runs_scored,
    {
        self.runs_scored
    }

    pub fn baserunners(&self) -> (r: BaserunnerState)
        ensures
            r == self.baserunners,
    {
        self.baserunners
    }

    /// Runs that `pitch` would bring home; at most four.
    pub fn pitch_runs(&self, pitch: PitchOutcome) -> (r: Runs)
        ensures
            r == self.runs_on(pitch),
            r <= 4,
    {
        match self.current_pa.advance(pitch) {
            PlateAppearanceResult::InPlay(play) => play.runs_scored(),
            PlateAppearanceResult::Walk | PlateAppearanceResult::HitByPitch => {
                let (_, runs) = self.baserunners.walk(self.current_batter);
                runs
            },
            PlateAppearanceResult::HomeRun => self.baserunners.home_run(),
            _ => 0,
        }
    }

    /// Whether `advance` may take `pitch`: the run total must not overflow.
    pub fn can_advance(&self, pitch: PitchOutcome) -> (r: bool)
        ensures
            r == (self.runs_scored + self.runs_on(pitch) <= Runs::MAX),
    {
        self.pitch_runs(pitch) <= Runs::MAX - self.runs_scored
    }

    fn increment_outs(self, n: u32) -> (r: HalfInningAdvance)
        ensures
            r == self.record_outs(n as nat),
    {
        let mut outs = self.outs;
        let mut i: u32 = 0;
        while i < n
            invariant
                i <= n,
                outs.value() == self.outs.value() + i,
                i > 0 ==> outs.value() < 3,
            decreases n - i,
        {
            outs = outs.add_out();
            i = i + 1;
            if outs == Outs::Three {
                return HalfInningAdvance::Complete(HalfInningSummary::new(self.runs_scored));
            }
        }
        self.set_outs(outs).advance_batter()
    }

    /// Moves the half-inning on by one pitch.
    pub fn advance(self, outcome: PitchOutcome) -> (r: HalfInningAdvance)
        requires
            self.runs_scored + self.runs_on(outcome) <= Runs::MAX,
        ensures
            r == self.after(outcome),
    {
        let pa = self.current_pa.advance(outcome);
        match pa {
            PlateAppearanceResult::Strikeout => self.increment_outs(1),
            PlateAppearanceResult::InPlay(play) => {
                let outs = play.outs();
                let baserunners = play.baserunners();
                let runs_scored = play.runs_scored();
                self.add_runs(runs_scored).with_baserunners(baserunners).increment_outs(outs)
            },
            PlateAppearanceResult::Walk | PlateAppearanceResult::HitByPitch => {
                let (baserunners, runs) = self.baserunners.walk(self.current_batter);
                self.add_runs(runs).with_baserunners(baserunners).advance_batter()
            },
            PlateAppearanceResult::HomeRun => {
                let runs = self.baserunners.home_run();
                self.add_runs(runs).with_baserunners(BaserunnerState::empty()).advance_batter()
            },
            PlateAppearanceResult::InProgress(pa) => {
                let mut next = self;
                next.current_pa = pa;
                HalfInningAdvance::in_progress(next)
            },
        }
    }

    fn set_outs(self, outs: Outs) -> (r: HalfInning)
        ensures
            r == (HalfInning { outs, ..self }),
    {
        let mut next = self;
        next.outs = outs;
        next
    }

    fn advance_batter(self) -> (r: HalfInningAdvance)
        ensures
            r == self.next_batter(),
    {
        let mut next = self;
        next.current_batter = self.current_batter.next();
        next.current_pa = PlateAppearance::new();
        HalfInningAdvance::in_progress(next)
    }

    fn add_runs(self, runs_scored: Runs) -> (r: HalfInning)
        requires
            self.runs_scored + runs_scored <= Runs::MAX,
        ensures
            r == (HalfInning { runs_scored: (self.runs_scored + runs_scored) as Runs, ..self }),
    {
        let mut next = self;
        next.runs_scored = self.runs_scored + runs_scored;
        next
    }

    fn with_baserunners(self, baserunners: BaserunnerState) -> (r: HalfInning)
        ensures
            r == (HalfInning { baserunners, ..self }),
    {
        let mut next = self;
        next.baserunners = baserunners;
        next
    }
}

impl Default for HalfInning {
    fn default() -> (r: HalfInning)
        ensures
            r == HalfInning::start(InningHalf::Top, BattingPosition::First),
    {
        HalfInning::new(InningHalf::Top, BattingPosition::First)
    }
}

impl HalfInningSummary {
    pub fn new(runs_scored: Runs) -> (r: HalfInningSummary)
        ensures
            r.runs_scored == runs_scored,
    {
        HalfInningSummary { runs_scored }
    }

    pub fn runs_scored(&self) -> (r: Runs)
        ensures
            r == self.runs_scored,
    {
        self.runs_scored
    }
}

impl HalfInningAdvance {
    /// Whether `pitch` can be taken without the run total overflowing.
    pub open spec fn has_room_for(self, pitch: PitchOutcome) -> bool {
        match self {
            HalfInningAdvance::InProgress(hi) => hi.runs_scored + hi.runs_on(pitch) <= Runs::MAX,
            HalfInningAdvance::Complete(_) => true,
        }
    }

    /// What `pitch` does here: a finished half-inning stays as it is.
    pub open spec fn after(self, pitch: PitchOutcome) -> HalfInningAdvance {
        match self {
            HalfInningAdvance::InProgress(hi) => hi.after(pitch),
            HalfInningAdvance::Complete(_) => self,
        }
    }

    /// Whether `advance` may take `pitch`.
    pub fn can_advance(&self, pitch: PitchOutcome) -> (r: bool)
        ensures
            r == self.has_room_for(pitch),
    {
        match self {
            HalfInningAdvance::InProgress(hi) => hi.can_advance(pitch),
            HalfInningAdvance::Complete(_) => true,
        }
    }

    pub fn advance(self, pitch: PitchOutcome) -> (r: HalfInningAdvance)
        requires
            self.has_room_for(pitch),
        ensures
            r == self.after(pitch),
    {
        match self {
            HalfInningAdvance::InProgress(hi) => hi.advance(pitch),
            HalfInningAdvance::Complete(_) => self,
        }
    }

    pub fn is_complete(&self) -> (r: bool)
        ensures
            r == (self is Complete),
    {
        match self {
            HalfInningAdvance::Complete(_) => true,
            HalfInningAdvance::InProgress(_) => false,
        }
    }

    pub fn half_inning(&self) -> (r: Option<HalfInning>)
        ensures
            r == (match *self {
                HalfInningAdvance::InProgress(hi) => Some(hi),
                HalfInningAdvance::Complete(_) => None,
            }),
    {
        match self {
            HalfInningAdvance::InProgress(hi) => Some(*hi),
            HalfInningAdvance::Complete(_) => None,
        }
    }

    pub fn half_inning_ref(&self) -> (r: Option<&HalfInning>)
        ensures
            r == (match self {
                HalfInningAdvance::InProgress(hi) => Some(hi),
                HalfInningAdvance::Complete(_) => None,
            }),
    {
        match self {
            HalfInningAdvance::InProgress(hi) => Some(hi),
            HalfInningAdvance::Complete(_) => None,
        }
    }

    fn in_progress(hi: HalfInning) -> (r: HalfInningAdvance)
        ensures
            r == HalfInningAdvance::InProgress(hi),
    {
        HalfInningAdvance::InProgress(hi)
    }
}

} // verus!
