//! The grid state store: two equally sized cell buffers, of which one holds
//! the live generation and the other receives the next one.

use vstd::prelude::*;
use crate::framebuffer::{Color, Framebuffer};
use crate::generation::{lemma_seeded_step, transition, Generation};
use crate::patterns::{get_pattern_coordinates, Pattern};
use crate::rows::{filled, rectangular};

verus! {

/// A bounded Game of Life grid.
///
/// `current_state` is the live generation; `next_state` is scratch space that
/// `update` fills and then exchanges with `current_state`.
pub struct GameOfLife {
    width: u32,
    height: u32,
    current_state: Vec<Vec<bool>>,
    next_state: Vec<Vec<bool>>,
}

impl View for GameOfLife {
    type V = Generation;

    /// The live generation. The scratch buffer is no part of it.
    closed spec fn view(&self) -> Generation {
        Generation {
            width: self.width as nat,
            height: self.height as nat,
            alive: Set::new(
                |c: (int, int)|
                    0 <= c.0 < self.width && 0 <= c.1 < self.height && self.current_state[c.1][c.0],
            ),
        }
    }
}

impl GameOfLife {
    /// Both buffers have the grid's dimensions, and the grid is not degenerate.
    pub closed spec fn well_formed(&self) -> bool {
        &&& self.width > 0
        &&& self.height > 0
        &&& rectangular(self.current_state@, self.width as nat, self.height as nat)
        &&& rectangular(self.next_state@, self.width as nat, self.height as nat)
    }

    /// The view of a well-formed grid is a well-formed generation.
    pub proof fn lemma_view_well_formed(&self)
        requires
            self.well_formed(),
        ensures
            self@.well_formed(),
    {
    }

    /// Creates a grid with all cells dead.
    pub fn new(width: u32, height: u32) -> (game: Self)
        requires
            width > 0,
            height > 0,
        ensures
            game.well_formed(),
            game@ == Generation::dead(width as nat, height as nat),
    {
        let current_state = filled(width, height, false);
        let next_state = filled(width, height, false);
        let game = GameOfLife { width, height, current_state, next_state };
        assert(game@.alive =~= Set::<(int, int)>::empty());
        game
    }

    /// The number of columns.
    pub fn width(&self) -> (width: u32)
        ensures
            width == self@.width,
    {
        self.width
    }

    /// The number of rows.
    pub fn height(&self) -> (height: u32)
        ensures
            height == self@.height,
    {
        self.height
    }

    /// Sets the cell at `(x, y)`. A coordinate outside the grid is ignored.
    pub fn set_cell(&mut self, x: u32, y: u32, alive: bool)
        requires
            old(self).well_formed(),
        ensures
            final(self).well_formed(),
            final(self)@ == old(self)@.with_cell(x as int, y as int, alive),
    {
        if x < self.width && y < self.height {
            self.current_state[y as usize][x as usize] = alive;
            assert(self@.alive =~= old(self)@.with_cell(x as int, y as int, alive).alive);
        }
    }

    /// Whether the cell at `(x, y)` is alive. Outside the grid nothing is.
    pub fn is_alive(&self, x: u32, y: u32) -> (alive: bool)
        requires
            self.well_formed(),
        ensures
            alive == self@.is_alive(x as int, y as int),
    {
        if x < self.width && y < self.height {
            self.current_state[y as usize][x as usize]
        } else {
            false
        }
    }

    /// What the cell at `(x, y)` adds to a neighbor count. The coordinate may
    /// lie outside the grid, on any side.
    fn live_at(&self, x: i64, y: i64) -> (count: u8)
        requires
            self.well_formed(),
        ensures
            count == self@.live(x as int, y as int),
    {
        if 0 <= x && x < self.width as i64 && 0 <= y && y < self.height as i64
            && self.current_state[y as usize][x as usize] {
            1
        } else {
            0
        }
    }

    /// Counts the live cells among the eight Moore neighbors of `(x, y)`.
    /// Neighbors beyond an edge are left out of the count.
    pub fn count_neighbors(&self, x: u32, y: u32) -> (count: u8)
        requires
            self.well_formed(),
        ensures
            count == self@.neighbor_count(x as int, y as int),
            count <= 8,
    {
        let x = x as i64;
        let y = y as i64;
        self.live_at(x - 1, y - 1) + self.live_at(x, y - 1) + self.live_at(x + 1, y - 1)
            + self.live_at(x - 1, y) + self.live_at(x + 1, y)
            + self.live_at(x - 1, y + 1) + self.live_at(x, y + 1) + self.live_at(x + 1, y + 1)
    }

    /// Advances the grid by one generation.
    ///
    /// Every cell of the next generation is computed from the current one into
    /// the scratch buffer; only then do the two buffers change roles.
    pub fn update(&mut self)
        requires
            old(self).well_formed(),
        ensures
            final(self).well_formed(),
            final(self)@ == old(self)@.next(),
    {
        let mut y: u32 = 0;
        while y < self.height
            invariant
                self.well_formed(),
                y <= self.height,
                self.width == old(self).width,
                self.height == old(self).height,
                self.current_state == old(self).current_state,
                forall|i: int, j: int|
                    0 <= i < self.width && 0 <= j < y ==> #[trigger] self.next_state[j][i]
                        == old(self)@.lives_on(i, j),
            decreases self.height - y,
        {
            let mut x: u32 = 0;
            while x < self.width
                invariant
                    self.well_formed(),
                    y < self.height,
                    x <= self.width,
                    self.width == old(self).width,
                    self.height == old(self).height,
                    self.current_state == old(self).current_state,
                    forall|i: int, j: int|
                        0 <= i < self.width && 0 <= j < y ==> #[trigger] self.next_state[j][i]
                            == old(self)@.lives_on(i, j),
                    forall|i: int|
                        0 <= i < x ==> #[trigger] self.next_state[y as int][i] == old(self)@.lives_on(
                            i,
                            y as int,
                        ),
                decreases self.width - x,
            {
                let neighbors = self.count_neighbors(x, y);
                let alive = self.is_alive(x, y);
                self.next_state[y as usize][x as usize] = next_cell(alive, neighbors);
                x += 1;
            }
            y += 1;
        }
        std::mem::swap(&mut self.current_state, &mut self.next_state);
        assert(self@.alive =~= old(self)@.next().alive);
    }

    /// Paints the live generation onto a framebuffer, cell `(x, y)` onto
    /// pixel `(x, y)`: live cells white, dead cells in the framebuffer's
    /// background color.
    pub fn render(&self, framebuffer: &mut Framebuffer)
        requires
            self.well_formed(),
            old(framebuffer).well_formed(),
        ensures
            final(framebuffer).well_formed(),
            final(framebuffer)@ == old(framebuffer)@.painted(self@),
    {
        let background = framebuffer.background_color();
        let mut y: u32 = 0;
        while y < self.height
            invariant
                self.well_formed(),
                framebuffer.well_formed(),
                y <= self.height,
                background == old(framebuffer)@.background,
                framebuffer@.width == old(framebuffer)@.width,
                framebuffer@.height == old(framebuffer)@.height,
                framebuffer@.background == old(framebuffer)@.background,
                forall|i: int, j: int|
                    old(framebuffer)@.in_bounds(i, j) ==> #[trigger] framebuffer@.pixels[(i, j)] == (
                    if 0 <= i < self.width && j < y {
                        old(framebuffer)@.cell_color(self@, i, j)
                    } else {
                        old(framebuffer)@.pixels[(i, j)]
                    }),
            decreases self.height - y,
        {
            let mut x: u32 = 0;
            while x < self.width
                invariant
                    self.well_formed(),
                    framebuffer.well_formed(),
                    y < self.height,
                    x <= self.width,
                    background == old(framebuffer)@.background,
                    framebuffer@.width == old(framebuffer)@.width,
                    framebuffer@.height == old(framebuffer)@.height,
                    framebuffer@.background == old(framebuffer)@.background,
                    forall|i: int, j: int|
                        old(framebuffer)@.in_bounds(i, j) ==> #[trigger] framebuffer@.pixels[(
                            i,
                            j,
                        )] == (if 0 <= i < self.width && (j < y || (j == y && i < x)) {
                            old(framebuffer)@.cell_color(self@, i, j)
                        } else {
                            old(framebuffer)@.pixels[(i, j)]
                        }),
                decreases self.width - x,
            {
                let color = if self.is_alive(x, y) {
                    Color::white()
                } else {
                    background
                };
                framebuffer.set_pixel_with_color(x, y, color);
                x += 1;
            }
            y += 1;
        }
        proof {
            framebuffer.lemma_view_well_formed();
            assert(framebuffer@.pixels =~= old(framebuffer)@.painted(self@).pixels);
        }
    }

    /// Stamps a pattern onto the grid with its anchor at the given offset:
    /// every cell of the pattern that falls inside the grid is set alive, the
    /// others are dropped.
    pub fn initialize_with_pattern(&mut self, pattern: Pattern, offset_x: u32, offset_y: u32)
        requires
            old(self).well_formed(),
        ensures
            final(self).well_formed(),
            final(self)@ == old(self)@.seeded(pattern.cells(), offset_x as int, offset_y as int),
    {
        let coords = get_pattern_coordinates(pattern);
        let mut i: usize = 0;
        while i < coords.len()
            invariant
                self.well_formed(),
                i <= coords.len(),
                self@ == old(self)@.seeded(coords@.take(i as int), offset_x as int, offset_y as int),
            decreases coords.len() - i,
        {
            let (dx, dy) = coords[i];
            proof {
                lemma_seeded_step(old(self)@, coords@, i as int, offset_x as int, offset_y as int);
            }
            // A sum beyond `u32` lies beyond every grid there is.
            if let Some(x) = offset_x.checked_add(dx) {
                if let Some(y) = offset_y.checked_add(dy) {
                    self.set_cell(x, y, true);
                }
            }
            i += 1;
        }
        assert(coords@.take(coords.len() as int) == coords@);
    }
}

/// Applies the update rule to one cell.
fn next_cell(alive: bool, neighbors: u8) -> (next: bool)
    ensures
        next == transition(alive, neighbors as nat),
{
    if alive {
        if neighbors < 2 {
            // underpopulation
            false
        } else if neighbors <= 3 {
            // survival
            true
        } else {
            // overpopulation
            false
        }
    } else {
        // no birth: a dead cell stays dead
        false
    }
}

} // verus!
