//! Rectangular buffers held as a vector of rows.

use vstd::prelude::*;

verus! {

/// `rows` holds `height` rows of `width` entries each.
pub(crate) open spec fn rectangular<T>(rows: Seq<Vec<T>>, width: nat, height: nat) -> bool {
    &&& rows.len() == height
    &&& forall|y: int| 0 <= y < height ==> (#[trigger] rows[y]).len() == width
}

/// Allocates `height` rows of `width` entries, each of them `value`.
pub(crate) fn filled<T: Copy>(width: u32, height: u32, value: T) -> (rows: Vec<Vec<T>>)
    ensures
        rectangular(rows@, width as nat, height as nat),
        forall|x: int, y: int| 0 <= x < width && 0 <= y < height ==> #[trigger] rows[y][x] == value,
{
    let mut rows: Vec<Vec<T>> = Vec::new();
    let mut y: u32 = 0;
    while y < height
        invariant
            y <= height,
            rectangular(rows@, width as nat, y as nat),
            forall|i: int, j: int| 0 <= i < width && 0 <= j < y ==> #[trigger] rows[j][i] == value,
        decreases height - y,
    {
        let mut row: Vec<T> = Vec::new();
        let mut x: u32 = 0;
        while x < width
            invariant
                x <= width,
                row.len() == x,
                forall|i: int| 0 <= i < x ==> #[trigger] row[i] == value,
            decreases width - x,
        {
            row.push(value);
            x += 1;
        }
        rows.push(row);
        y += 1;
    }
    rows
}

} // verus!
