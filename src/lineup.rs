use vstd::prelude::*;

verus! {

/// A slot in the nine-person batting order.
#[derive(Default, Debug, Clone, Copy, PartialEq, Eq, Structural)]
pub enum BattingPosition {
    #[default]
    First,
    Second,
    Third,
    Fourth,
    Fifth,
    Sixth,
    Seventh,
    Eighth,
    Ninth,
}

impl BattingPosition {
    /// Place of the slot in the order, counting from zero.
    pub open spec fn index(self) -> nat {
        match self {
            BattingPosition::First => 0,
            BattingPosition::Second => 1,
            BattingPosition::Third => 2,
            BattingPosition::Fourth => 3,
            BattingPosition::Fifth => 4,
            BattingPosition::Sixth => 5,
            BattingPosition::Seventh => 6,
            BattingPosition::Eighth => 7,
            BattingPosition::Ninth => 8,
        }
    }

    /// The slot at place `i` of the order, counting from zero.
    pub open spec fn at(i: nat) -> BattingPosition {
        if i == 0 {
            BattingPosition::First
        } else if i == 1 {
            BattingPosition::Second
        } else if i == 2 {
            BattingPosition::Third
        } else if i == 3 {
            BattingPosition::Fourth
        } else if i == 4 {
            BattingPosition::Fifth
        } else if i == 5 {
            BattingPosition::Sixth
        } else if i == 6 {
            BattingPosition::Seventh
        } else if i == 7 {
            BattingPosition::Eighth
        } else {
            BattingPosition::Ninth
        }
    }

    /// The slot that bats after this one.
    pub open spec fn successor(self) -> BattingPosition {
        Self::at((self.index() + 1) % 9)
    }

    /// The slot that bats after this one; the ninth wraps to the first.
    pub fn next(self) -> (r: BattingPosition)
        ensures
            r == self.successor(),
            r.index() == (self.index() + 1) % 9,
    {
        match self {
            BattingPosition::First => BattingPosition::Second,
            BattingPosition::Second => BattingPosition::Third,
            BattingPosition::Third => BattingPosition::Fourth,
            BattingPosition::Fourth => BattingPosition::Fifth,
            BattingPosition::Fifth => BattingPosition::Sixth,
            BattingPosition::Sixth => BattingPosition::Seventh,
            BattingPosition::Seventh => BattingPosition::Eighth,
            BattingPosition::Eighth => BattingPosition::Ninth,
            BattingPosition::Ninth => BattingPosition::First,
        }
    }

    /// The slot as printed on a lineup card, 1 to 9.
    pub fn as_number(self) -> (r: u8)
        ensures
            r == self.index() + 1,
    {
        match self {
            BattingPosition::First => 1,
            BattingPosition::Second => 2,
            BattingPosition::Third => 3,
            BattingPosition::Fourth => 4,
            BattingPosition::Fifth => 5,
            BattingPosition::Sixth => 6,
            BattingPosition::Seventh => 7,
            BattingPosition::Eighth => 8,
            BattingPosition::Ninth => 9,
        }
    }

    /// The slot's name, as shown to players.
    pub open spec fn text(self) -> Seq<char> {
        match self {
            BattingPosition::First => "First"@,
            BattingPosition::Second => "Second"@,
            BattingPosition::Third => "Third"@,
            BattingPosition::Fourth => "Fourth"@,
            BattingPosition::Fifth => "Fifth"@,
            BattingPosition::Sixth => "Sixth"@,
            BattingPosition::Seventh => "Seventh"@,
            BattingPosition::Eighth => "Eighth"@,
            BattingPosition::Ninth => "Ninth"@,
        }
    }

    pub fn to_text(&self) -> (r: String)
        ensures
            r@ == self.text(),
    {
        match self {
            BattingPosition::First => String::from_str("First"),
            BattingPosition::Second => String::from_str("Second"),
            BattingPosition::Third => String::from_str("Third"),
            BattingPosition::Fourth => String::from_str("Fourth"),
            BattingPosition::Fifth => String::from_str("Fifth"),
            BattingPosition::Sixth => String::from_str("Sixth"),
            BattingPosition::Seventh => String::from_str("Seventh"),
            BattingPosition::Eighth => String::from_str("Eighth"),
            BattingPosition::Ninth => String::from_str("Ninth"),
        }
    }
}

} // verus!
