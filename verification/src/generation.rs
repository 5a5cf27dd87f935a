//! The mathematical model of the automaton: a generation is a bounded
//! rectangle together with the set of its live cells, and the transition rule
//! maps one generation to the next.

use vstd::prelude::*;

verus! {

/// The complete cell-state snapshot of a bounded grid at one tick boundary.
///
/// Cells are addressed by `(column, row)`. Coordinates are mathematical
/// integers, so the neighbors of an edge cell have perfectly good (negative or
/// too large) coordinates; they are simply never alive.
#[verifier::ext_equal]
pub struct Generation {
    pub width: nat,
    pub height: nat,
    pub alive: Set<(int, int)>,
}

/// The local update rule: the state of a cell in the next generation, given
/// its state now and the number of its live neighbors.
///
/// A live cell survives with two or three live neighbors and dies otherwise.
/// A dead cell stays dead whatever its neighborhood looks like.
pub open spec fn transition(alive: bool, neighbors: nat) -> bool {
    alive && (neighbors == 2 || neighbors == 3)
}

impl Generation {
    /// Whether `(x, y)` addresses a cell of the grid.
    pub open spec fn in_bounds(self, x: int, y: int) -> bool {
        0 <= x < self.width && 0 <= y < self.height
    }

    /// The grid is not degenerate and every live cell lies inside it.
    pub open spec fn well_formed(self) -> bool {
        &&& self.width > 0
        &&& self.height > 0
        &&& forall|c: (int, int)| #[trigger] self.alive.contains(c) ==> self.in_bounds(c.0, c.1)
    }

    /// The grid of the given size with no live cell.
    pub open spec fn dead(width: nat, height: nat) -> Generation {
        Generation { width, height, alive: Set::empty() }
    }

    /// Whether the cell at `(x, y)` is alive. Outside the grid nothing is.
    pub open spec fn is_alive(self, x: int, y: int) -> bool {
        self.in_bounds(x, y) && self.alive.contains((x, y))
    }

    /// What the cell at `(x, y)` adds to a neighbor count: 1 if alive, else 0.
    pub open spec fn live(self, x: int, y: int) -> nat {
        if self.is_alive(x, y) {
            1
        } else {
            0
        }
    }

    /// The number of live cells among the eight Moore neighbors of `(x, y)`.
    /// Neighbors beyond an edge do not exist and count for nothing.
    pub open spec fn neighbor_count(self, x: int, y: int) -> nat {
        self.live(x - 1, y - 1) + self.live(x, y - 1) + self.live(x + 1, y - 1)
            + self.live(x - 1, y) + self.live(x + 1, y)
            + self.live(x - 1, y + 1) + self.live(x, y + 1) + self.live(x + 1, y + 1)
    }

    /// Whether the cell at `(x, y)` is alive in the next generation.
    pub open spec fn lives_on(self, x: int, y: int) -> bool {
        transition(self.is_alive(x, y), self.neighbor_count(x, y))
    }

    /// The next generation: every cell is decided from this snapshot alone.
    pub open spec fn next(self) -> Generation {
        Generation {
            width: self.width,
            height: self.height,
            alive: Set::new(|c: (int, int)| self.lives_on(c.0, c.1)),
        }
    }

    /// The generation reached after `ticks` steps.
    pub open spec fn after(self, ticks: nat) -> Generation
        decreases ticks,
    {
        if ticks == 0 {
            self
        } else {
            self.next().after((ticks - 1) as nat)
        }
    }

    /// This generation with the cell at `(x, y)` set to `alive`. Setting a cell
    /// outside the grid changes nothing.
    pub open spec fn with_cell(self, x: int, y: int, alive: bool) -> Generation {
        if !self.in_bounds(x, y) {
            self
        } else if alive {
            Generation { width: self.width, height: self.height, alive: self.alive.insert((x, y)) }
        } else {
            Generation { width: self.width, height: self.height, alive: self.alive.remove((x, y)) }
        }
    }

    /// Whether stamping `cells` at the given offset reaches `(x, y)`.
    pub open spec fn stamped(cells: Seq<(u32, u32)>, offset_x: int, offset_y: int, x: int, y: int) -> bool {
        exists|i: int|
            0 <= i < cells.len() && offset_x + (#[trigger] cells[i]).0 == x && offset_y + cells[i].1 == y
    }

    /// This generation with every cell of the stamp that falls inside the grid
    /// set alive. Cells of the stamp that fall outside are dropped.
    pub open spec fn seeded(self, cells: Seq<(u32, u32)>, offset_x: int, offset_y: int) -> Generation {
        Generation {
            width: self.width,
            height: self.height,
            alive: Set::new(
                |c: (int, int)|
                    self.alive.contains(c) || (self.in_bounds(c.0, c.1) && Self::stamped(
                        cells,
                        offset_x,
                        offset_y,
                        c.0,
                        c.1,
                    )),
            ),
        }
    }
}

/// Stamping cell by cell: seeding with the first `i + 1` cells of a stamp is
/// seeding with the first `i` and then setting the cell that comes next.
pub proof fn lemma_seeded_step(g: Generation, cells: Seq<(u32, u32)>, i: int, offset_x: int, offset_y: int)
    requires
        0 <= i < cells.len(),
    ensures
        g.seeded(cells.take(i + 1), offset_x, offset_y) == g.seeded(
            cells.take(i),
            offset_x,
            offset_y,
        ).with_cell(offset_x + cells[i].0, offset_y + cells[i].1, true),
{
    let shorter = cells.take(i);
    let longer = cells.take(i + 1);
    let x = offset_x + cells[i].0;
    let y = offset_y + cells[i].1;
    assert forall|c: (int, int)|
        Generation::stamped(longer, offset_x, offset_y, c.0, c.1) == (Generation::stamped(
            shorter,
            offset_x,
            offset_y,
            c.0,
            c.1,
        ) || c == (x, y)) by {
        if Generation::stamped(longer, offset_x, offset_y, c.0, c.1) {
            let k = choose|k: int|
                0 <= k < longer.len() && offset_x + (#[trigger] longer[k]).0 == c.0 && offset_y
                    + longer[k].1 == c.1;
            if k < i {
                assert(shorter[k] == longer[k]);
            }
        }
        if Generation::stamped(shorter, offset_x, offset_y, c.0, c.1) {
            let k = choose|k: int|
                0 <= k < shorter.len() && offset_x + (#[trigger] shorter[k]).0 == c.0 && offset_y
                    + shorter[k].1 == c.1;
            assert(longer[k] == shorter[k]);
        }
        if c == (x, y) {
            assert(longer[i] == cells[i]);
        }
    }
    assert(g.seeded(longer, offset_x, offset_y).alive =~= g.seeded(
        shorter,
        offset_x,
        offset_y,
    ).with_cell(x, y, true).alive);
}

/// After a stamp a cell is alive exactly if it was alive before or the stamp
/// reaches it inside the grid; the grid keeps its size.
pub proof fn lemma_seeded_cell(
    g: Generation,
    cells: Seq<(u32, u32)>,
    offset_x: int,
    offset_y: int,
    x: int,
    y: int,
)
    ensures
        g.seeded(cells, offset_x, offset_y).is_alive(x, y) == (g.is_alive(x, y) || (g.in_bounds(x, y)
            && Generation::stamped(cells, offset_x, offset_y, x, y))),
        g.seeded(cells, offset_x, offset_y).width == g.width,
        g.seeded(cells, offset_x, offset_y).height == g.height,
        g.well_formed() ==> g.seeded(cells, offset_x, offset_y).well_formed(),
{
}

/// Setting a cell and reading a cell: after `(x, y)` is set, the cell at
/// `(i, j)` reads as the value just written if it is that very cell and lies
/// inside the grid, and reads as before otherwise. In particular a
/// cell inside the grid that was set alive is alive, and setting a cell
/// outside the grid leaves the generation as it was.
pub proof fn lemma_set_then_read(g: Generation, x: int, y: int, alive: bool, i: int, j: int)
    ensures
        g.in_bounds(x, y) ==> g.with_cell(x, y, alive).is_alive(x, y) == alive,
        !g.in_bounds(x, y) ==> g.with_cell(x, y, alive) == g,
        (i, j) != (x, y) ==> g.with_cell(x, y, alive).is_alive(i, j) == g.is_alive(i, j),
        g.with_cell(x, y, alive).width == g.width,
        g.with_cell(x, y, alive).height == g.height,
        g.well_formed() ==> g.with_cell(x, y, alive).well_formed(),
{
}

/// Nothing lives outside the grid: a coordinate beyond any edge, negative ones
/// included, is dead and adds nothing to a neighbor count.
pub proof fn lemma_outside_is_dead(g: Generation, x: int, y: int)
    requires
        !g.in_bounds(x, y),
    ensures
        !g.is_alive(x, y),
        g.live(x, y) == 0,
{
}

/// A neighbor count is at most eight.
pub proof fn lemma_neighbor_count_bound(g: Generation, x: int, y: int)
    ensures
        g.neighbor_count(x, y) <= 8,
{
}

/// At the corner `(0, 0)` only the three neighbors inside the grid count:
/// the five with a negative coordinate add nothing.
pub proof fn lemma_corner_neighbors(g: Generation)
    ensures
        g.neighbor_count(0, 0) == g.live(1, 0) + g.live(0, 1) + g.live(1, 1),
        g.neighbor_count(0, 0) <= 3,
{
}

/// The next generation is decided cell by cell from this generation alone:
/// a cell is alive in it exactly if the rule says so of its state and its
/// neighbor count in this generation.
pub proof fn lemma_next_from_snapshot(g: Generation, x: int, y: int)
    ensures
        g.next().is_alive(x, y) == transition(g.is_alive(x, y), g.neighbor_count(x, y)),
        g.next().width == g.width,
        g.next().height == g.height,
        g.well_formed() ==> g.next().well_formed(),
{
}

/// A live cell with two or three live neighbors is alive in the next
/// generation; a live cell with any other number of live neighbors is dead
/// in it.
pub proof fn lemma_survival(g: Generation, x: int, y: int)
    requires
        g.is_alive(x, y),
    ensures
        g.neighbor_count(x, y) == 2 || g.neighbor_count(x, y) == 3 ==> g.next().is_alive(x, y),
        g.neighbor_count(x, y) != 2 && g.neighbor_count(x, y) != 3 ==> !g.next().is_alive(x, y),
{
}

/// No cell is born: whatever is alive after any number of ticks was alive
/// before them.
pub proof fn lemma_no_birth(g: Generation, ticks: nat)
    ensures
        g.after(ticks).alive.subset_of(g.alive),
        g.after(ticks).width == g.width,
        g.after(ticks).height == g.height,
    decreases ticks,
{
    if ticks > 0 {
        lemma_no_birth(g.next(), (ticks - 1) as nat);
    }
}

/// A fully dead grid of any size is still fully dead after any number of
/// ticks.
pub proof fn lemma_dead_stays_dead(width: nat, height: nat, ticks: nat)
    ensures
        Generation::dead(width, height).after(ticks) == Generation::dead(width, height),
{
    lemma_no_birth(Generation::dead(width, height), ticks);
    assert(Generation::dead(width, height).after(ticks).alive =~= Set::<(int, int)>::empty());
}

/// Without births a horizontal blinker does not oscillate: of the three cells
/// in a row only the middle one, which has two live neighbors, is alive in the
/// next generation, and nothing is alive in the one after.
pub proof fn lemma_blinker_fades(g: Generation)
    requires
        g.well_formed(),
        g.alive == set![(0int, 1int), (1int, 1int), (2int, 1int)],
    ensures
        g.next().alive == set![(1int, 1int)],
        g.after(2) == Generation::dead(g.width, g.height),
{
    assert(g.in_bounds(0, 1) && g.in_bounds(2, 1)) by {
        assert(g.alive.contains((0int, 1int)) && g.alive.contains((2int, 1int)));
    }
    assert(g.next().alive =~= set![(1int, 1int)]);
    assert(g.next().next().alive =~= Set::<(int, int)>::empty());
    assert(g.after(2) == g.next().next()) by {
        reveal_with_fuel(Generation::after, 3);
    }
}

} // verus!
