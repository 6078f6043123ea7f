//! Directions between the rooms of the vault maze.
use vstd::prelude::*;

verus! {

/// A direction to go between rooms.
#[derive(Clone, Copy, Debug, PartialEq, Eq, Structural)]
pub enum Dir {
    N,
    S,
    E,
    W,
}

/// The word the game understands for a direction.
pub open spec fn dir_name(dir: Dir) -> Seq<char> {
    match dir {
        Dir::N => "north"@,
        Dir::S => "south"@,
        Dir::E => "east"@,
        Dir::W => "west"@,
    }
}

/// The full name of a direction.
pub fn dir_full(dir: Dir) -> (r: &'static str)
    ensures
        r@ == dir_name(dir),
{
    match dir {
        Dir::N => "north",
        Dir::S => "south",
        Dir::E => "east",
        Dir::W => "west",
    }
}

} // verus!
