//! The small closed set of agent identifiers (jersey numbers) and a
//! fixed-size table with one slot per agent.

use vstd::prelude::*;

verus! {

/// Number of distinct agents tracked by a per-agent table.
pub const PLAYER_COUNT: usize = 7;

/// Jersey number identifying one agent (robot) of the team.
#[derive(Clone, Copy, Debug, PartialEq, Eq, Structural)]
pub enum PlayerNumber {
    One,
    Two,
    Three,
    Four,
    Five,
    Six,
    Seven,
}

impl PlayerNumber {
    /// Position of this agent's slot in a table view.
    pub open spec fn as_index(self) -> int {
        match self {
            PlayerNumber::One => 0,
            PlayerNumber::Two => 1,
            PlayerNumber::Three => 2,
            PlayerNumber::Four => 3,
            PlayerNumber::Five => 4,
            PlayerNumber::Six => 5,
            PlayerNumber::Seven => 6,
        }
    }
}

/// Fixed-size table keyed by `PlayerNumber`: one slot per agent, accessed in
/// constant time without hashing. Viewed as a sequence of `PLAYER_COUNT`
/// entries, slot `i` belonging to the agent whose `as_index` is `i`.
#[derive(Clone, Copy, Debug, PartialEq, Eq)]
pub struct Players<T> {
    pub one: T,
    pub two: T,
    pub three: T,
    pub four: T,
    pub five: T,
    pub six: T,
    pub seven: T,
}

impl<T> View for Players<T> {
    type V = Seq<T>;

    open spec fn view(&self) -> Seq<T> {
        seq![self.one, self.two, self.three, self.four, self.five, self.six, self.seven]
    }
}

impl<T> Players<T> {
    /// Borrow the slot of agent `player_number`.
    pub fn get(&self, player_number: PlayerNumber) -> (r: &T)
        ensures
            *r == self@[player_number.as_index()],
    {
        match player_number {
            PlayerNumber::One => &self.one,
            PlayerNumber::Two => &self.two,
            PlayerNumber::Three => &self.three,
            PlayerNumber::Four => &self.four,
            PlayerNumber::Five => &self.five,
            PlayerNumber::Six => &self.six,
            PlayerNumber::Seven => &self.seven,
        }
    }

    /// Borrow the slot at table position `i`.
    pub fn get_at(&self, i: usize) -> (r: &T)
        requires
            i < PLAYER_COUNT,
        ensures
            *r == self@[i as int],
    {
        if i == 0 {
            &self.one
        } else if i == 1 {
            &self.two
        } else if i == 2 {
            &self.three
        } else if i == 3 {
            &self.four
        } else if i == 4 {
            &self.five
        } else if i == 5 {
            &self.six
        } else {
            &self.seven
        }
    }

    /// Overwrite the slot of agent `player_number`.
    pub fn set(&mut self, player_number: PlayerNumber, value: T)
        ensures
            final(self)@ == old(self)@.update(player_number.as_index(), value),
    {
        match player_number {
            PlayerNumber::One => {
                self.one = value;
            },
            PlayerNumber::Two => {
                self.two = value;
            },
            PlayerNumber::Three => {
                self.three = value;
            },
            PlayerNumber::Four => {
                self.four = value;
            },
            PlayerNumber::Five => {
                self.five = value;
            },
            PlayerNumber::Six => {
                self.six = value;
            },
            PlayerNumber::Seven => {
                self.seven = value;
            },
        }
        proof {
            assert(self@ =~= old(self)@.update(player_number.as_index(), value));
        }
    }
}

} // verus!
