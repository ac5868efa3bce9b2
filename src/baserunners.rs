use vstd::prelude::*;

use crate::lineup::BattingPosition;
use crate::Runs;

verus! {

/// 1 for an occupied base (or a batter who reaches), 0 for an empty one.
pub open spec fn occupied(o: Option<BattingPosition>) -> nat {
    if o is Some {
        1
    } else {
        0
    }
}

/// A base on the diamond, in running order.
#[derive(Debug, Clone, Copy, PartialEq, Eq, Structural)]
pub enum Base {
    First,
    Second,
    Third,
    Home,
}

impl Base {
    /// Bases a runner has touched to stand here: 0 at first, 3 at home.
    pub open spec fn index(self) -> nat {
        match self {
            Base::First => 0,
            Base::Second => 1,
            Base::Third => 2,
            Base::Home => 3,
        }
    }

    /// The index `n`, or home's where `n` lies past it.
    pub open spec fn capped(n: nat) -> nat {
        if n < 3 {
            n
        } else {
            3
        }
    }

    /// The next base; home is as far as a runner goes.
    pub fn next(self) -> (r: Base)
        ensures
            r.index() == Self::capped(self.index() + 1),
    {
        match self {
            Base::First => Base::Second,
            Base::Second => Base::Third,
            Base::Third => Base::Home,
            Base::Home => Base::Home,
        }
    }

    /// The base `bases` stations further on, stopping at home.
    pub fn advance_by(self, bases: u8) -> (r: Base)
        ensures
            r.index() == Self::capped((self.index() + bases) as nat),
    {
        let mut current = self;
        let mut i: u8 = 0;
        while i < bases && current != Base::Home
            invariant
                i <= bases,
                current.index() == Self::capped((self.index() + i) as nat),
            decreases bases - i,
        {
            current = current.next();
            i = i + 1;
        }
        current
    }
}

/// What became of one of the three bases on a ball in play.
#[derive(Debug, Clone, Copy, PartialEq, Eq, Structural)]
pub enum BaseOutcome {
    ForceOut,
    TagOut,
    Runner(BattingPosition),
    Empty,
}

impl BaseOutcome {
    /// Outs recorded at this base: one for a force or a tag.
    pub open spec fn out_count(self) -> nat {
        if self is ForceOut || self is TagOut {
            1
        } else {
            0
        }
    }

    /// The runner left standing on the base, if any.
    pub open spec fn runner(self) -> Option<BattingPosition> {
        match self {
            BaseOutcome::Runner(p) => Some(p),
            _ => None,
        }
    }

    /// The base taken by `runner`, or left empty.
    pub open spec fn holding(runner: Option<BattingPosition>) -> BaseOutcome {
        match runner {
            Some(p) => BaseOutcome::Runner(p),
            None => BaseOutcome::Empty,
        }
    }

    pub fn outs(&self) -> (r: u32)
        ensures
            r == self.out_count(),
    {
        match self {
            BaseOutcome::ForceOut | BaseOutcome::TagOut => 1,
            _ => 0,
        }
    }

    pub fn is_out(&self) -> (r: bool)
        ensures
            r == (self.out_count() > 0),
    {
        self.outs() > 0
    }

    /// "Force Out", "Tag Out", "Runner: " and the runner's slot, or "None".
    pub open spec fn text(self) -> Seq<char> {
        match self {
            BaseOutcome::ForceOut => "Force Out"@,
            BaseOutcome::TagOut => "Tag Out"@,
            BaseOutcome::Runner(p) => "Runner: "@ + p.text(),
            BaseOutcome::Empty => "None"@,
        }
    }

    pub fn to_text(&self) -> (r: String)
        ensures
            r@ == self.text(),
    {
        match self {
            BaseOutcome::ForceOut => String::from_str("Force Out"),
            BaseOutcome::TagOut => String::from_str("Tag Out"),
            BaseOutcome::Runner(p) => {
                let mut s = String::from_str("Runner: ");
                let name = p.to_text();
                s.append(name.as_str());
                s
            },
            BaseOutcome::Empty => String::from_str("None"),
        }
    }

    fn as_baserunner(self) -> (r: Option<BattingPosition>)
        ensures
            r == self.runner(),
    {
        match self {
            BaseOutcome::Runner(p) => Some(p),
            _ => None,
        }
    }

    fn from_runner(runner: Option<BattingPosition>) -> (r: BaseOutcome)
        ensures
            r == Self::holding(runner),
    {
        match runner {
            Some(p) => BaseOutcome::Runner(p),
            None => BaseOutcome::Empty,
        }
    }
}

/// What happened at home plate on a ball in play: runs in, or an out.
#[derive(Debug, Clone, Copy, PartialEq, Eq, Structural)]
pub enum HomeOutcome {
    One,
    Two,
    Three,
    Four,
    Zero,
    Out,
}

impl HomeOutcome {
    pub open spec fn out_count(self) -> nat {
        if self is Out {
            1
        } else {
            0
        }
    }

    /// Runs that crossed the plate.
    pub open spec fn runs(self) -> nat {
        match self {
            HomeOutcome::One => 1,
            HomeOutcome::Two => 2,
            HomeOutcome::Three => 3,
            HomeOutcome::Four => 4,
            HomeOutcome::Zero => 0,
            HomeOutcome::Out => 0,
        }
    }

    /// The outcome of `n` runners crossing the plate safely.
    pub open spec fn scoring(n: nat) -> HomeOutcome {
        if n == 0 {
            HomeOutcome::Zero
        } else if n == 1 {
            HomeOutcome::One
        } else if n == 2 {
            HomeOutcome::Two
        } else if n == 3 {
            HomeOutcome::Three
        } else {
            HomeOutcome::Four
        }
    }

    pub fn outs(self) -> (r: u32)
        ensures
            r == self.out_count(),
    {
        if self == HomeOutcome::Out {
            1
        } else {
            0
        }
    }

    pub fn is_out(self) -> (r: bool)
        ensures
            r == (self.out_count() > 0),
    {
        self.outs() > 0
    }

    /// The runs in as a digit, or "X" for an out at home.
    pub open spec fn text(self) -> Seq<char> {
        match self {
            HomeOutcome::One => "1"@,
            HomeOutcome::Two => "2"@,
            HomeOutcome::Three => "3"@,
            HomeOutcome::Four => "4"@,
            HomeOutcome::Zero => "0"@,
            HomeOutcome::Out => "X"@,
        }
    }

    pub fn to_text(&self) -> (r: String)
        ensures
            r@ == self.text(),
    {
        match self {
            HomeOutcome::One => String::from_str("1"),
            HomeOutcome::Two => String::from_str("2"),
            HomeOutcome::Three => String::from_str("3"),
            HomeOutcome::Four => String::from_str("4"),
            HomeOutcome::Zero => String::from_str("0"),
            HomeOutcome::Out => String::from_str("X"),
        }
    }

    fn runs_scored(self) -> (r: Runs)
        ensures
            r == self.runs(),
    {
        match self {
            HomeOutcome::One => 1,
            HomeOutcome::Two => 2,
            HomeOutcome::Three => 3,
            HomeOutcome::Four => 4,
            HomeOutcome::Zero => 0,
            HomeOutcome::Out => 0,
        }
    }
}

/// The fate of each base and of home plate on one ball in play.
///
/// Any combination can be built, including ones no fielding could produce
/// (one runner on two bases, more outs than batters): the engine takes the
/// play as given and leaves its plausibility to whoever resolves the ball.
#[derive(Debug, Clone, Copy, PartialEq, Eq, Structural)]
pub struct PlayOutcome {
    pub first: BaseOutcome,
    pub second: BaseOutcome,
    pub third: BaseOutcome,
    pub home: HomeOutcome,
}

impl PlayOutcome {
    /// Who stood at station `j` before the play: the batter at 0, the runners
    /// on first, second and third at 1, 2 and 3.
    pub open spec fn station(
        baserunners: BaserunnerState,
        batter: BattingPosition,
        j: int,
    ) -> Option<BattingPosition> {
        if j == 0 {
            Some(batter)
        } else if j == 1 {
            baserunners.first
        } else if j == 2 {
            baserunners.second
        } else if j == 3 {
            baserunners.third
        } else {
            None
        }
    }

    /// 1 where someone stood at station `j` and goes home on a hit of `bases` bases.
    pub open spec fn scores_from(
        baserunners: BaserunnerState,
        batter: BattingPosition,
        bases: nat,
        j: int,
    ) -> nat {
        if j + bases >= 4 {
            occupied(Self::station(baserunners, batter, j))
        } else {
            0
        }
    }

    /// The hit on which the batter and every runner move up `bases` bases:
    /// one for a single, two for a double, three for a triple, four for a
    /// home run. Whoever passes third scores.
    pub open spec fn hit(baserunners: BaserunnerState, batter: BattingPosition, bases: nat) -> PlayOutcome {
        PlayOutcome {
            first: BaseOutcome::holding(Self::station(baserunners, batter, 1 - bases)),
            second: BaseOutcome::holding(Self::station(baserunners, batter, 2 - bases)),
            third: BaseOutcome::holding(Self::station(baserunners, batter, 3 - bases)),
            home: HomeOutcome::scoring(
                Self::scores_from(baserunners, batter, bases, 0) + Self::scores_from(
                    baserunners,
                    batter,
                    bases,
                    1,
                ) + Self::scores_from(baserunners, batter, bases, 2) + Self::scores_from(
                    baserunners,
                    batter,
                    bases,
                    3,
                ),
            ),
        }
    }

    /// Outs recorded on the play, at the three bases and at home.
    pub open spec fn out_count(self) -> nat {
        self.first.out_count() + self.second.out_count() + self.third.out_count()
            + self.home.out_count()
    }

    /// Who stands on each base once the play is over.
    pub open spec fn runners(self) -> BaserunnerState {
        BaserunnerState {
            first: self.first.runner(),
            second: self.second.runner(),
            third: self.third.runner(),
        }
    }

    pub fn new(first: BaseOutcome, second: BaseOutcome, third: BaseOutcome, home: HomeOutcome) -> (r:
        PlayOutcome)
        ensures
            r.first == first,
            r.second == second,
            r.third == third,
            r.home == home,
    {
        PlayOutcome { first, second, third, home }
    }

    /// The batter is thrown out at first; nobody else is on base afterwards.
    pub fn groundout() -> (r: PlayOutcome)
        ensures
            r.first == BaseOutcome::ForceOut,
            r.second == BaseOutcome::Empty,
            r.third == BaseOutcome::Empty,
            r.home == HomeOutcome::Zero,
    {
        PlayOutcome {
            first: BaseOutcome::ForceOut,
            second: BaseOutcome::Empty,
            third: BaseOutcome::Empty,
            home: HomeOutcome::Zero,
        }
    }

    /// Every runner moves up one base, the batter takes first.
    pub fn single(baserunners: BaserunnerState, batter: BattingPosition) -> (r: PlayOutcome)
        ensures
            r == Self::hit(baserunners, batter, 1),
    {
        PlayOutcome {
            first: BaseOutcome::Runner(batter),
            second: BaseOutcome::from_runner(baserunners.first),
            third: BaseOutcome::from_runner(baserunners.second),
            home: Self::scored(None, None, baserunners.third, None),
        }
    }

    /// Every runner moves up two bases, the batter takes second.
    pub fn double(baserunners: BaserunnerState, batter: BattingPosition) -> (r: PlayOutcome)
        ensures
            r == Self::hit(baserunners, batter, 2),
    {
        PlayOutcome {
            first: BaseOutcome::Empty,
            second: BaseOutcome::Runner(batter),
            third: BaseOutcome::from_runner(baserunners.first),
            home: Self::scored(None, baserunners.second, baserunners.third, None),
        }
    }

    /// Every runner scores, the batter takes third.
    pub fn triple(baserunners: BaserunnerState, batter: BattingPosition) -> (r: PlayOutcome)
        ensures
            r == Self::hit(baserunners, batter, 3),
    {
        let home = Self::scored(
            baserunners.first,
            baserunners.second,
            baserunners.third,
            None,
        );
        PlayOutcome {
            first: BaseOutcome::Empty,
            second: BaseOutcome::Empty,
            third: BaseOutcome::Runner(batter),
            home,
        }
    }

    /// Every runner and the batter score; the bases are left empty.
    pub fn homerun(baserunners: BaserunnerState, batter: BattingPosition) -> (r: PlayOutcome)
        ensures
            r == Self::hit(baserunners, batter, 4),
    {
        PlayOutcome {
            first: BaseOutcome::Empty,
            second: BaseOutcome::Empty,
            third: BaseOutcome::Empty,
            home: Self::scored(
                baserunners.first,
                baserunners.second,
                baserunners.third,
                Some(batter),
            ),
        }
    }

    pub fn outs(self) -> (r: u32)
        ensures
            r == self.out_count(),
    {
        self.first().outs() + self.second().outs() + self.third().outs() + self.home.outs()
    }

    pub fn first(self) -> (r: BaseOutcome)
        ensures
            r == self.first,
    {
        self.first
    }

    pub fn second(self) -> (r: BaseOutcome)
        ensures
            r == self.second,
    {
        self.second
    }

    pub fn third(self) -> (r: BaseOutcome)
        ensures
            r == self.third,
    {
        self.third
    }

    pub fn home(self) -> (r: HomeOutcome)
        ensures
            r == self.home,
    {
        self.home
    }

    pub fn with_first(self, first: BaseOutcome) -> (r: PlayOutcome)
        ensures
            r == (PlayOutcome { first, ..self }),
    {
        PlayOutcome { first, second: self.second, third: self.third, home: self.home }
    }

    pub fn with_second(self, second: BaseOutcome) -> (r: PlayOutcome)
        ensures
            r == (PlayOutcome { second, ..self }),
    {
        PlayOutcome { first: self.first, second, third: self.third, home: self.home }
    }

    pub fn with_third(self, third: BaseOutcome) -> (r: PlayOutcome)
        ensures
            r == (PlayOutcome { third, ..self }),
    {
        PlayOutcome { first: self.first, second: self.second, third, home: self.home }
    }

    pub fn with_home(self, home: HomeOutcome) -> (r: PlayOutcome)
        ensures
            r == (PlayOutcome { home, ..self }),
    {
        PlayOutcome { first: self.first, second: self.second, third: self.third, home }
    }

    /// Home plate's outcome when each of the given runners (and the batter) reaches it.
    fn scored(
        first: Option<BattingPosition>,
        second: Option<BattingPosition>,
        third: Option<BattingPosition>,
        batter: Option<BattingPosition>,
    ) -> (r: HomeOutcome)
        ensures
            r == HomeOutcome::scoring(
                occupied(first) + occupied(second) + occupied(third) + occupied(batter),
            ),
    {
        let mut n: u8 = 0;
        if first.is_some() {
            n = n + 1;
        }
        if second.is_some() {
            n = n + 1;
        }
        if third.is_some() {
            n = n + 1;
        }
        if batter.is_some() {
            n = n + 1;
        }
        match n {
            0 => HomeOutcome::Zero,
            1 => HomeOutcome::One,
            2 => HomeOutcome::Two,
            3 => HomeOutcome::Three,
            _ => HomeOutcome::Four,
        }
    }

    pub fn baserunners(self) -> (r: BaserunnerState)
        ensures
            r == self.runners(),
    {
        BaserunnerState {
            first: self.first.as_baserunner(),
            second: self.second.as_baserunner(),
            third: self.third.as_baserunner(),
        }
    }

    pub fn runs_scored(self) -> (r: Runs)
        ensures
            r == self.home.runs(),
    {
        self.home.runs_scored()
    }

    /// First, second, third and home, separated by commas.
    pub open spec fn text(self) -> Seq<char> {
        self.first.text() + ", "@ + self.second.text() + ", "@ + self.third.text() + ", "@
            + self.home.text()
    }

    pub fn to_text(&self) -> (r: String)
        ensures
            r@ == self.text(),
    {
        let mut s = self.first.to_text();
        s.append(", ");
        let second = self.second.to_text();
        s.append(second.as_str());
        s.append(", ");
        let third = self.third.to_text();
        s.append(third.as_str());
        s.append(", ");
        let home = self.home.to_text();
        s.append(home.as_str());
        s
    }
}

/// Who occupies first, second and third base, by batting slot.
#[derive(Debug, Clone, Copy, PartialEq, Eq, Structural)]
pub struct BaserunnerState {
    pub first: Option<BattingPosition>,
    pub second: Option<BattingPosition>,
    pub third: Option<BattingPosition>,
}

impl BaserunnerState {
    pub open spec fn empty_bases() -> BaserunnerState {
        BaserunnerState { first: None, second: None, third: None }
    }

    /// Number of occupied bases.
    pub open spec fn count(self) -> nat {
        occupied(self.first) + occupied(self.second) + occupied(self.third)
    }

    pub open spec fn occupies(self, base: Base) -> bool {
        match base {
            Base::First => self.first is Some,
            Base::Second => self.second is Some,
            Base::Third => self.third is Some,
            Base::Home => false,
        }
    }

    /// The bases after `batter` is awarded first: each runner moves up only
    /// when the runner behind forces him.
    pub open spec fn walked(self, batter: BattingPosition) -> BaserunnerState {
        if self.first is None {
            BaserunnerState { first: Some(batter), ..self }
        } else if self.second is None {
            BaserunnerState { first: Some(batter), second: self.first, third: self.third }
        } else {
            BaserunnerState { first: Some(batter), second: self.first, third: self.second }
        }
    }

    /// Runs forced in by a walk: one, with the bases loaded.
    pub open spec fn walk_runs(self) -> nat {
        if self.count() == 3 {
            1
        } else {
            0
        }
    }

    pub fn new() -> (r: BaserunnerState)
        ensures
            r == Self::empty_bases(),
    {
        BaserunnerState { first: None, second: None, third: None }
    }

    pub fn empty() -> (r: BaserunnerState)
        ensures
            r == Self::empty_bases(),
    {
        Self::new()
    }

    pub fn is_empty(&self) -> (r: bool)
        ensures
            r == (self.count() == 0),
    {
        self.first.is_none() && self.second.is_none() && self.third.is_none()
    }

    pub fn first(&self) -> (r: Option<BattingPosition>)
        ensures
            r == self.first,
    {
        self.first
    }

    pub fn second(&self) -> (r: Option<BattingPosition>)
        ensures
            r == self.second,
    {
        self.second
    }

    pub fn third(&self) -> (r: Option<BattingPosition>)
        ensures
            r == self.third,
    {
        self.third
    }

    pub fn set_first(self, runner: Option<BattingPosition>) -> (r: BaserunnerState)
        ensures
            r == (BaserunnerState { first: runner, ..self }),
    {
        let mut s = self;
        s.first = runner;
        s
    }

    pub fn set_second(self, runner: Option<BattingPosition>) -> (r: BaserunnerState)
        ensures
            r == (BaserunnerState { second: runner, ..self }),
    {
        let mut s = self;
        s.second = runner;
        s
    }

    pub fn set_third(self, runner: Option<BattingPosition>) -> (r: BaserunnerState)
        ensures
            r == (BaserunnerState { third: runner, ..self }),
    {
        let mut s = self;
        s.third = runner;
        s
    }

    pub fn runner_count(&self) -> (r: u8)
        ensures
            r == self.count(),
    {
        let mut count: u8 = 0;
        if self.first.is_some() {
            count = count + 1;
        }
        if self.second.is_some() {
            count = count + 1;
        }
        if self.third.is_some() {
            count = count + 1;
        }
        count
    }

    pub fn has_runner_on(&self, base: Base) -> (r: bool)
        ensures
            r == self.occupies(base),
    {
        match base {
            Base::First => self.first.is_some(),
            Base::Second => self.second.is_some(),
            Base::Third => self.third.is_some(),
            Base::Home => false,
        }
    }

    /// Awards first base to `batter` and pushes forced runners along.
    /// Returns the new bases and the runs forced in.
    pub fn walk(&self, batter: BattingPosition) -> (r: (BaserunnerState, Runs))
        ensures
            r.0 == self.walked(batter),
            r.1 == self.walk_runs(),
    {
        if self.first.is_none() {
            (BaserunnerState { first: Some(batter), second: self.second, third: self.third }, 0)
        } else if self.second.is_none() {
            (BaserunnerState { first: Some(batter), second: self.first, third: self.third }, 0)
        } else {
            let runs: Runs = if self.third.is_some() {
                1
            } else {
                0
            };
            (BaserunnerState { first: Some(batter), second: self.first, third: self.second }, runs)
        }
    }

    /// Runs on a home run: every runner and the batter.
    pub fn home_run(&self) -> (r: Runs)
        ensures
            r == self.count() + 1,
    {
        let mut runs: Runs = 1;
        if self.first.is_some() {
            runs = runs + 1;
        }
        if self.second.is_some() {
            runs = runs + 1;
        }
        if self.third.is_some() {
            runs = runs + 1;
        }
        runs
    }
}

impl Default for BaserunnerState {
    fn default() -> (r: BaserunnerState)
        ensures
            r == Self::empty_bases(),
    {
        Self::new()
    }
}

} // verus!
