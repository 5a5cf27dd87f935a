//! The pattern library: named seed shapes, each a fixed list of offsets
//! relative to an anchor chosen by whoever stamps the shape onto a grid.

use vstd::prelude::*;

verus! {

/// The seed shapes the library knows.
#[derive(Clone, Copy, Debug, PartialEq, Eq, Structural)]
pub enum Pattern {
    /// A 3 by 3 core with eight rays of three cells each, in an 11 by 11 box.
    Sun,
    /// Three cells in a horizontal line, on the middle row of a 3 by 3 box.
    Blinker,
    /// A 2 by 2 square.
    Block,
}

impl Pattern {
    /// The offsets `(dx, dy)` of the shape's live cells, in the order in which
    /// they are handed out.
    pub open spec fn cells(self) -> Seq<(u32, u32)> {
        match self {
            Pattern::Sun => seq![
                (4u32, 4u32), (5u32, 4u32), (6u32, 4u32),
                (4u32, 5u32), (5u32, 5u32), (6u32, 5u32),
                (4u32, 6u32), (5u32, 6u32), (6u32, 6u32),
                (5u32, 2u32), (5u32, 1u32), (5u32, 0u32),
                (5u32, 8u32), (5u32, 9u32), (5u32, 10u32),
                (2u32, 5u32), (1u32, 5u32), (0u32, 5u32),
                (8u32, 5u32), (9u32, 5u32), (10u32, 5u32),
                (2u32, 2u32), (1u32, 1u32), (0u32, 0u32),
                (8u32, 2u32), (9u32, 1u32), (10u32, 0u32),
                (2u32, 8u32), (1u32, 9u32), (0u32, 10u32),
                (8u32, 8u32), (9u32, 9u32), (10u32, 10u32),
            ],
            Pattern::Blinker => seq![(0u32, 1u32), (1u32, 1u32), (2u32, 1u32)],
            Pattern::Block => seq![(0u32, 0u32), (1u32, 0u32), (0u32, 1u32), (1u32, 1u32)],
        }
    }
}

/// The relative coordinates of a pattern's live cells.
pub fn get_pattern_coordinates(pattern: Pattern) -> (coords: Vec<(u32, u32)>)
    ensures
        coords@ == pattern.cells(),
{
    match pattern {
        Pattern::Sun => vec![
            (4u32, 4u32), (5u32, 4u32), (6u32, 4u32),
            (4u32, 5u32), (5u32, 5u32), (6u32, 5u32),
            (4u32, 6u32), (5u32, 6u32), (6u32, 6u32),
            (5u32, 2u32), (5u32, 1u32), (5u32, 0u32),
            (5u32, 8u32), (5u32, 9u32), (5u32, 10u32),
            (2u32, 5u32), (1u32, 5u32), (0u32, 5u32),
            (8u32, 5u32), (9u32, 5u32), (10u32, 5u32),
            (2u32, 2u32), (1u32, 1u32), (0u32, 0u32),
            (8u32, 2u32), (9u32, 1u32), (10u32, 0u32),
            (2u32, 8u32), (1u32, 9u32), (0u32, 10u32),
            (8u32, 8u32), (9u32, 9u32), (10u32, 10u32),
        ],
        Pattern::Blinker => vec![(0u32, 1u32), (1u32, 1u32), (2u32, 1u32)],
        Pattern::Block => vec![(0u32, 0u32), (1u32, 0u32), (0u32, 1u32), (1u32, 1u32)],
    }
}

/// The default seed: the sun, with the offset that centers it on a grid of
/// 80 columns and 60 rows.
pub fn create_sun_pattern() -> (seed: (Pattern, u32, u32))
    ensures
        seed == (Pattern::Sun, 34u32, 24u32),
{
    (Pattern::Sun, 34, 24)
}

} // verus!
