//! The four directions a snake can face, and their wire tokens.

use vstd::prelude::*;

verus! {

/// A facing direction. `Up` is towards row 0, `Left` towards column 0.
#[derive(Clone, Copy, Debug, PartialEq, Eq, Structural)]
pub enum Direction {
    Up,
    Down,
    Left,
    Right,
}

impl Direction {
    /// Horizontal component of the unit vector of this direction.
    pub open spec fn dx(self) -> int {
        match self {
            Direction::Left => -1,
            Direction::Right => 1,
            _ => 0,
        }
    }

    /// Vertical component of the unit vector of this direction.
    pub open spec fn dy(self) -> int {
        match self {
            Direction::Up => -1,
            Direction::Down => 1,
            _ => 0,
        }
    }

    /// The direction whose unit vector is the negation of this one's.
    pub open spec fn reverse(self) -> Direction {
        match self {
            Direction::Up => Direction::Down,
            Direction::Down => Direction::Up,
            Direction::Left => Direction::Right,
            Direction::Right => Direction::Left,
        }
    }

    /// The token that names this direction on the wire, as ASCII bytes:
    /// `up`, `down`, `left` or `right`, spelled out in hexadecimal.
    pub open spec fn token(self) -> Seq<u8> {
        match self {
            Direction::Up => seq![0x75u8, 0x70u8],
            Direction::Down => seq![0x64u8, 0x6fu8, 0x77u8, 0x6eu8],
            Direction::Left => seq![0x6cu8, 0x65u8, 0x66u8, 0x74u8],
            Direction::Right => seq![0x72u8, 0x69u8, 0x67u8, 0x68u8, 0x74u8],
        }
    }

    /// The direction that a token names, if it names one.
    pub open spec fn parse(token: Seq<u8>) -> Option<Direction> {
        if token == Direction::Up.token() {
            Some(Direction::Up)
        } else if token == Direction::Down.token() {
            Some(Direction::Down)
        } else if token == Direction::Left.token() {
            Some(Direction::Left)
        } else if token == Direction::Right.token() {
            Some(Direction::Right)
        } else {
            None
        }
    }

    /// Reads a direction token. Only the four lower-case tokens are
    /// recognised; anything else gives `None`.
    pub fn from_token(token: &[u8]) -> (r: Option<Direction>)
        ensures
            r == Direction::parse(token@),
    {
        let n: usize = token.len();
        if n == 2 && token[0] == 0x75u8 && token[1] == 0x70u8 {
            assert(token@ =~= Direction::Up.token());
            Some(Direction::Up)
        } else if n == 4 && token[0] == 0x64u8 && token[1] == 0x6fu8 && token[2] == 0x77u8 && token[3]
            == 0x6eu8 {
            assert(token@ =~= Direction::Down.token());
            Some(Direction::Down)
        } else if n == 4 && token[0] == 0x6cu8 && token[1] == 0x65u8 && token[2] == 0x66u8 && token[3]
            == 0x74u8 {
            assert(token@ =~= Direction::Left.token());
            Some(Direction::Left)
        } else if n == 5 && token[0] == 0x72u8 && token[1] == 0x69u8 && token[2] == 0x67u8 && token[3]
            == 0x68u8 && token[4] == 0x74u8 {
            assert(token@ =~= Direction::Right.token());
            Some(Direction::Right)
        } else {
            assert(token@ != Direction::Up.token()) by {
                if token@ == Direction::Up.token() {
                    assert(token@.len() == 2 && token@[0] == 0x75u8 && token@[1] == 0x70u8);
                }
            }
            assert(token@ != Direction::Down.token()) by {
                if token@ == Direction::Down.token() {
                    assert(token@.len() == 4 && token@[0] == 0x64u8 && token@[1] == 0x6fu8
                        && token@[2] == 0x77u8 && token@[3] == 0x6eu8);
                }
            }
            assert(token@ != Direction::Left.token()) by {
                if token@ == Direction::Left.token() {
                    assert(token@.len() == 4 && token@[0] == 0x6cu8 && token@[1] == 0x65u8
                        && token@[2] == 0x66u8 && token@[3] == 0x74u8);
                }
            }
            assert(token@ != Direction::Right.token()) by {
                if token@ == Direction::Right.token() {
                    assert(token@.len() == 5 && token@[0] == 0x72u8 && token@[1] == 0x69u8
                        && token@[2] == 0x67u8 && token@[3] == 0x68u8 && token@[4] == 0x74u8);
                }
            }
            None
        }
    }
}

/// Reversing a direction twice gives it back, and no direction is its own
/// reverse.
pub proof fn reverse_is_involution(d: Direction)
    ensures
        d.reverse().reverse() == d,
        d.reverse() != d,
        d.reverse().dx() == -d.dx(),
        d.reverse().dy() == -d.dy(),
{
}

/// Every direction is read back from its own token.
pub proof fn parse_reads_token(d: Direction)
    ensures
        Direction::parse(d.token()) == Some(d),
{
    assert(Direction::Up.token().len() == 2);
    assert(Direction::Down.token().len() == 4);
    assert(Direction::Left.token().len() == 4);
    assert(Direction::Right.token().len() == 5);
    assert(Direction::Down.token()[0] == 0x64u8);
    assert(Direction::Left.token()[0] == 0x6cu8);
}

} // verus!
