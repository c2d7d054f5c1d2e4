use crate::robo::sim_pi::PositionType;
use crate::world::{extent, extent_of, Point};
use vstd::prelude::*;

verus! {

/// The occupancy grid as rows of cells.
pub type Grid = Seq<Seq<PositionType>>;

/// A grid of `rows` rows of `cols` empty cells.
pub open spec fn blank_grid(rows: nat, cols: nat) -> Grid {
    Seq::new(rows, |r: int| Seq::new(cols, |c: int| PositionType::Empty))
}

/// The grid that a map with the given bounding box is kept in: as many
/// columns as the box is wide, as many rows as it is high, every cell
/// empty; no rows where there is no box.
pub open spec fn grid_of(min: Option<Point>, max: Option<Point>) -> Grid {
    match (min, max) {
        (Some(lo), Some(hi)) => blank_grid((hi.y - lo.y) as nat, (hi.x - lo.x) as nat),
        _ => blank_grid(0, 0),
    }
}

/// The grid that a map of `points` is kept in.
pub open spec fn grid_for(points: Seq<Point>) -> Grid {
    grid_of(extent(points).0, extent(points).1)
}

/// Neither side of the bounding box of `points` is longer than a vector can be.
pub open spec fn grid_fits(points: Seq<Point>) -> bool {
    match extent(points) {
        (Some(lo), Some(hi)) => hi.x - lo.x <= isize::MAX && hi.y - lo.y <= isize::MAX,
        _ => true,
    }
}

/// The wall cells among the first cells of row number `r`, left to right,
/// each as the point of its row and column.
pub open spec fn row_walls(row: Seq<PositionType>, r: int) -> Seq<Point>
    decreases row.len(),
{
    if row.len() == 0 {
        Seq::empty()
    } else if row.last() == PositionType::Wall {
        row_walls(row.drop_last(), r).push(Point { x: r as i64, y: (row.len() - 1) as i64 })
    } else {
        row_walls(row.drop_last(), r)
    }
}

/// The wall cells of a grid, row by row from the first, each as the point
/// of its row and column.
pub open spec fn grid_walls(grid: Grid) -> Seq<Point>
    decreases grid.len(),
{
    if grid.len() == 0 {
        Seq::empty()
    } else {
        grid_walls(grid.drop_last()) + row_walls(grid.last(), grid.len() - 1)
    }
}

/// The grid is small enough for its cells to be numbered by points.
pub open spec fn grid_listable(grid: Grid) -> bool {
    &&& grid.len() <= isize::MAX
    &&& forall|r: int| 0 <= r < grid.len() ==> (#[trigger] grid[r]).len() <= isize::MAX
}

/// The rows of a stored grid.
pub open spec fn grid_view(rows: Seq<Vec<PositionType>>) -> Grid {
    Seq::new(rows.len(), |r: int| rows[r]@)
}

/// A row of empty cells has no walls.
pub proof fn lemma_blank_row_has_no_walls(cols: nat, r: int)
    ensures
        row_walls(Seq::new(cols, |c: int| PositionType::Empty), r) == Seq::<Point>::empty(),
    decreases cols,
{
    let row = Seq::new(cols, |c: int| PositionType::Empty);
    if cols > 0 {
        assert(row.drop_last() =~= Seq::new((cols - 1) as nat, |c: int| PositionType::Empty));
        lemma_blank_row_has_no_walls((cols - 1) as nat, r);
    }
}

/// A grid of empty cells has no walls.
pub proof fn lemma_blank_grid_has_no_walls(rows: nat, cols: nat)
    ensures
        grid_walls(blank_grid(rows, cols)) == Seq::<Point>::empty(),
    decreases rows,
{
    let g = blank_grid(rows, cols);
    if rows > 0 {
        assert(g.drop_last() =~= blank_grid((rows - 1) as nat, cols));
        lemma_blank_grid_has_no_walls((rows - 1) as nat, cols);
        lemma_blank_row_has_no_walls(cols, rows - 1);
        assert(g.last() =~= Seq::new(cols, |c: int| PositionType::Empty));
    }
}

/// The grid that is made for a map holds no wall, whatever the points.
pub proof fn lemma_fresh_grid_has_no_walls(points: Seq<Point>)
    ensures
        grid_walls(grid_for(points)) == Seq::<Point>::empty(),
{
    match extent(points) {
        (Some(lo), Some(hi)) => {
            lemma_blank_grid_has_no_walls((hi.y - lo.y) as nat, (hi.x - lo.x) as nat);
        },
        _ => {
            lemma_blank_grid_has_no_walls(0, 0);
        },
    }
}

/// Whether a grid for `points` can be built: neither side of their bounding
/// box is longer than a vector can be.
pub fn map_fits(points: &Vec<Point>) -> (ok: bool)
    ensures
        ok == grid_fits(points@),
{
    let (min, max) = extent_of(points);
    match (min, max) {
        (Some(lo), Some(hi)) => {
            let w: i128 = (hi.x as i128) - (lo.x as i128);
            let h: i128 = (hi.y as i128) - (lo.y as i128);
            w <= (isize::MAX as i128) && h <= (isize::MAX as i128)
        },
        _ => true,
    }
}

/// A row of `cols` empty cells.
fn blank_row(cols: usize) -> (row: Vec<PositionType>)
    ensures
        row@ == Seq::new(cols as nat, |c: int| PositionType::Empty),
{
    let mut row: Vec<PositionType> = Vec::new();
    let mut c: usize = 0;
    while c < cols
        invariant
            c <= cols,
            row@.len() == c,
            forall|i: int| 0 <= i < c ==> #[trigger] row@[i] == PositionType::Empty,
        decreases cols - c,
    {
        row.push(PositionType::Empty);
        c = c + 1;
    }
    assert(row@ =~= Seq::new(cols as nat, |c: int| PositionType::Empty));
    row
}

/// The occupancy grid that a map of `points` is kept in.
pub fn build_grid(points: &Vec<Point>) -> (rows: Vec<Vec<PositionType>>)
    requires
        grid_fits(points@),
    ensures
        grid_view(rows@) == grid_for(points@),
        grid_listable(grid_view(rows@)),
{
    let (min, max) = extent_of(points);
    let mut rows: Vec<Vec<PositionType>> = Vec::new();
    match (min, max) {
        (Some(lo), Some(hi)) => {
            proof {
                crate::world::lemma_bounding_ordered(points@, lo, hi);
            }
            let width: usize = ((hi.x as i128) - (lo.x as i128)) as usize;
            let height: usize = ((hi.y as i128) - (lo.y as i128)) as usize;
            let mut r: usize = 0;
            while r < height
                invariant
                    r <= height,
                    width <= isize::MAX,
                    rows@.len() == r,
                    forall|i: int|
                        0 <= i < r ==> (#[trigger] rows@[i])@ == Seq::new(
                            width as nat,
                            |c: int| PositionType::Empty,
                        ),
                decreases height - r,
            {
                rows.push(blank_row(width));
                r = r + 1;
            }
            assert(grid_view(rows@) =~= blank_grid(height as nat, width as nat));
        },
        _ => {
            assert(grid_view(rows@) =~= blank_grid(0, 0));
        },
    }
    rows
}

/// The wall cells of a stored grid as points, row by row.
pub fn wall_points(rows: &Vec<Vec<PositionType>>) -> (out: Vec<Point>)
    requires
        grid_listable(grid_view(rows@)),
    ensures
        out@ == grid_walls(grid_view(rows@)),
{
    let ghost grid = grid_view(rows@);
    let mut out: Vec<Point> = Vec::new();
    let mut r: usize = 0;
    assert(grid.subrange(0, 0) =~= Seq::<Seq<PositionType>>::empty());
    while r < rows.len()
        invariant
            r <= rows@.len(),
            grid_listable(grid),
            grid == grid_view(rows@),
            out@ == grid_walls(grid.subrange(0, r as int)),
        decreases rows@.len() - r,
    {
        let row = &rows[r];
        let ghost done = out@;
        assert(grid[r as int] == row@);
        let mut c: usize = 0;
        assert(row@.subrange(0, 0) =~= Seq::<PositionType>::empty());
        while c < row.len()
            invariant
                c <= row@.len(),
                row@.len() <= isize::MAX,
                r < rows@.len() <= isize::MAX,
                out@ == done + row_walls(row@.subrange(0, c as int), r as int),
            decreases row@.len() - c,
        {
            let ghost seen = row@.subrange(0, c as int);
            let ghost more = row@.subrange(0, c + 1);
            proof {
                assert(more.drop_last() =~= seen);
                assert(more.last() == row@[c as int]);
            }
            if row[c] == PositionType::Wall {
                out.push(Point { x: r as i64, y: c as i64 });
                assert(out@ =~= done + row_walls(more, r as int));
            }
            c = c + 1;
        }
        proof {
            assert(row@.subrange(0, row@.len() as int) =~= row@);
            let next = grid.subrange(0, r + 1);
            assert(next.drop_last() =~= grid.subrange(0, r as int));
            assert(next.last() == row@);
        }
        r = r + 1;
    }
    assert(grid.subrange(0, rows@.len() as int) =~= grid);
    out
}

} // verus!
