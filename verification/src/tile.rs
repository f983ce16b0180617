//! The two teams and the three states of a board cell.

use vstd::prelude::*;

verus! {

/// One of the two sides that place tokens.
#[derive(Clone, Copy, Debug, PartialEq, Eq, Structural)]
pub enum Team {
    Cookie,
    Milk,
}

/// What a cell of the board holds.
#[derive(Clone, Copy, Debug, PartialEq, Eq, Structural)]
pub enum Tile {
    Empty,
    Cookie,
    Milk,
}

/// The glyph of the frame around the cells.
pub const WALL: char = '⬜';

/// The glyph of a cell that holds no token.
pub const EMPTY: char = '⬛';

/// The glyph of a cookie token.
pub const COOKIE: char = '🍪';

/// The glyph of a milk token.
pub const MILK: char = '🥛';

impl Tile {
    /// The token of a team.
    pub open spec fn of(team: Team) -> Tile {
        match team {
            Team::Cookie => Tile::Cookie,
            Team::Milk => Tile::Milk,
        }
    }

    /// The team whose token this is; an empty cell belongs to nobody.
    pub open spec fn team(self) -> Option<Team> {
        match self {
            Tile::Cookie => Some(Team::Cookie),
            Tile::Milk => Some(Team::Milk),
            Tile::Empty => None,
        }
    }

    /// The glyph that stands for this cell in a rendered board.
    pub open spec fn glyph_of(self) -> char {
        match self {
            Tile::Cookie => COOKIE,
            Tile::Empty => EMPTY,
            Tile::Milk => MILK,
        }
    }

    /// The glyph that stands for this cell in a rendered board.
    #[verifier::when_used_as_spec(glyph_of)]
    pub fn glyph(self) -> (c: char)
        ensures
            c == self.glyph_of(),
    {
        match self {
            Tile::Cookie => COOKIE,
            Tile::Empty => EMPTY,
            Tile::Milk => MILK,
        }
    }

    /// The token that one draw of a truth value stands for: a cookie for
    /// `true`, milk for `false`.
    pub open spec fn drawn(bit: bool) -> Tile {
        if bit {
            Tile::Cookie
        } else {
            Tile::Milk
        }
    }
}

impl Default for Tile {
    fn default() -> (t: Tile)
        ensures
            t == Tile::Empty,
    {
        Tile::Empty
    }
}

impl From<Team> for Tile {
    fn from(value: Team) -> (t: Tile) {
        match value {
            Team::Cookie => Tile::Cookie,
            Team::Milk => Tile::Milk,
        }
    }
}

impl vstd::std_specs::convert::FromSpecImpl<Team> for Tile {
    open spec fn obeys_from_spec() -> bool {
        true
    }

    open spec fn from_spec(value: Team) -> Tile {
        Tile::of(value)
    }
}

impl TryFrom<Tile> for Team {
    type Error = ();

    fn try_from(value: Tile) -> (r: Result<Team, ()>) {
        match value {
            Tile::Cookie => Ok(Team::Cookie),
            Tile::Milk => Ok(Team::Milk),
            Tile::Empty => Err(()),
        }
    }
}

impl vstd::std_specs::convert::TryFromSpecImpl<Tile> for Team {
    open spec fn obeys_try_from_spec() -> bool {
        true
    }

    open spec fn try_from_spec(value: Tile) -> Result<Team, ()> {
        match value.team() {
            Some(team) => Ok(team),
            None => Err(()),
        }
    }
}

} // verus!
