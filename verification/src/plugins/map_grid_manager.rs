//! The map grid's lines, in cell units: one vertical line per column border
//! and one horizontal line per row border. Scaling them to the cell size and
//! centring the grid is left to the renderer.
use vstd::prelude::*;

verus! {

/// A straight line of the grid from one cell corner to another.
#[derive(PartialEq, Eq, Structural, Debug, Clone, Copy)]
pub struct GridLine {
    pub from_x: isize,
    pub from_y: isize,
    pub to_x: isize,
    pub to_y: isize,
}

/// How many lines `0..=extent` draws: `extent + 1`, none for a negative extent.
pub open spec fn line_count(extent: isize) -> nat {
    if extent >= 0 {
        (extent + 1) as nat
    } else {
        0
    }
}

/// The `i`-th line of a `width` by `height` grid: the vertical lines
/// x = 0..=width first, each from y = 0 to y = height; then the horizontal
/// lines y = 0..=height, each from x = 0 to x = width.
pub open spec fn grid_line(width: isize, height: isize, i: int) -> GridLine {
    if i < line_count(width) {
        GridLine { from_x: i as isize, from_y: 0, to_x: i as isize, to_y: height }
    } else {
        let j = i - line_count(width);
        GridLine { from_x: 0, from_y: j as isize, to_x: width, to_y: j as isize }
    }
}

/// The lines of a `width` by `height` grid, in drawing order.
pub fn grid_lines(width: isize, height: isize) -> (lines: Vec<GridLine>)
    requires
        line_count(width) + line_count(height) <= usize::MAX,
    ensures
        lines@.len() == line_count(width) + line_count(height),
        forall|i: int| 0 <= i < lines@.len() ==> lines@[i] == grid_line(width, height, i),
        forall|i: int| 0 <= i < line_count(width) ==> {
            &&& #[trigger] lines@[i].from_x == i
            &&& lines@[i].to_x == i
            &&& lines@[i].from_y == 0
            &&& lines@[i].to_y == height
        },
        forall|j: int| 0 <= j < line_count(height) ==> {
            &&& #[trigger] lines@[line_count(width) + j].from_y == j
            &&& lines@[line_count(width) + j].to_y == j
            &&& lines@[line_count(width) + j].from_x == 0
            &&& lines@[line_count(width) + j].to_x == width
        },
{
    let columns: usize = if width >= 0 { (width as usize) + 1 } else { 0 };
    let rows: usize = if height >= 0 { (height as usize) + 1 } else { 0 };
    let mut lines: Vec<GridLine> = Vec::new();
    let mut x: usize = 0;
    while x < columns
        invariant
            columns == line_count(width),
            rows == line_count(height),
            columns + rows <= usize::MAX,
            x <= columns,
            lines@.len() == x,
            forall|i: int| 0 <= i < x ==> lines@[i] == grid_line(width, height, i),
        decreases columns - x,
    {
        lines.push(GridLine { from_x: x as isize, from_y: 0, to_x: x as isize, to_y: height });
        x = x + 1;
    }
    let mut y: usize = 0;
    while y < rows
        invariant
            columns == line_count(width),
            rows == line_count(height),
            columns + rows <= usize::MAX,
            y <= rows,
            lines@.len() == columns + y,
            forall|i: int| 0 <= i < columns + y ==> lines@[i] == grid_line(width, height, i),
        decreases rows - y,
    {
        lines.push(GridLine { from_x: 0, from_y: y as isize, to_x: width, to_y: y as isize });
        y = y + 1;
    }
    proof {
        assert forall|i: int| 0 <= i < line_count(width) implies {
            &&& #[trigger] lines@[i].from_x == i
            &&& lines@[i].to_x == i
            &&& lines@[i].from_y == 0
            &&& lines@[i].to_y == height
        } by {
            lemma_grid_line_positions(width, height, i);
        }
        assert forall|j: int| 0 <= j < line_count(height) implies {
            &&& #[trigger] lines@[line_count(width) + j].from_y == j
            &&& lines@[line_count(width) + j].to_y == j
            &&& lines@[line_count(width) + j].from_x == 0
            &&& lines@[line_count(width) + j].to_x == width
        } by {
            lemma_grid_line_positions(width, height, line_count(width) + j);
        }
    }
    lines
}

/// The `i`-th vertical line lies on column border `i`, and the `j`-th
/// horizontal line on row border `j`: the vertical lines stand at
/// x = 0, 1, ..., width and the horizontal ones at y = 0, 1, ..., height,
/// each once and in that order.
pub proof fn lemma_grid_line_positions(width: isize, height: isize, i: int)
    requires
        0 <= i < line_count(width) + line_count(height),
        line_count(width) + line_count(height) <= usize::MAX,
    ensures
        i < line_count(width) ==> {
            &&& grid_line(width, height, i).from_x == i
            &&& grid_line(width, height, i).to_x == i
            &&& grid_line(width, height, i).from_y == 0
            &&& grid_line(width, height, i).to_y == height
        },
        i >= line_count(width) ==> {
            &&& grid_line(width, height, i).from_y == i - line_count(width)
            &&& grid_line(width, height, i).to_y == i - line_count(width)
            &&& grid_line(width, height, i).from_x == 0
            &&& grid_line(width, height, i).to_x == width
        },
{
}

/// No two vertical lines of the grid coincide, nor two horizontal ones.
pub proof fn lemma_grid_lines_distinct(width: isize, height: isize, i: int, k: int)
    requires
        0 <= i < k < line_count(width) + line_count(height),
        line_count(width) + line_count(height) <= usize::MAX,
        (i < line_count(width)) == (k < line_count(width)),
    ensures
        grid_line(width, height, i) != grid_line(width, height, k),
{
    lemma_grid_line_positions(width, height, i);
    lemma_grid_line_positions(width, height, k);
}

/// Every line of the grid runs along a cell border inside the grid: vertical
/// lines at 0 <= x <= width, horizontal lines at 0 <= y <= height.
pub proof fn lemma_grid_lines_on_borders(width: isize, height: isize, i: int)
    requires
        0 <= i < line_count(width) + line_count(height),
    ensures
        i < line_count(width) ==> {
            let l = grid_line(width, height, i);
            &&& l.from_x == l.to_x && 0 <= l.from_x <= width
            &&& l.from_y == 0 && l.to_y == height
        },
        i >= line_count(width) ==> {
            let l = grid_line(width, height, i);
            &&& l.from_y == l.to_y && 0 <= l.from_y <= height
            &&& l.from_x == 0 && l.to_x == width
        },
{
}

} // verus!
