use vstd::prelude::*;
use crate::food::Food;
use crate::rng::rand_range;
use crate::snake::Snake;

verus! {

/// Character stored in a cell that holds nothing.
pub const CELL_EMPTY: u8 = 32;
/// Character stored in the cell that holds the food.
pub const CELL_FOOD: u8 = 79;
/// Character stored in the cell under the snake's head.
pub const CELL_HEAD: u8 = 48;
/// Character stored in the cells under the snake's body.
pub const CELL_BODY: u8 = 111;

/// `g` with the cell at column `x` of row `y` replaced by `c`.
pub open spec fn write_cell(g: Seq<Seq<u8>>, x: int, y: int, c: u8) -> Seq<Seq<u8>> {
    g.update(y, g[y].update(x, c))
}

/// `g` with the body cells of `body` from index `i` on marked `CELL_BODY`.
pub open spec fn write_body_cells(g: Seq<Seq<u8>>, body: Seq<(usize, usize)>, i: int) -> Seq<
    Seq<u8>,
>
    decreases body.len() - i,
{
    if i < 0 || i >= body.len() {
        g
    } else {
        write_body_cells(write_cell(g, body[i].0 as int, body[i].1 as int, CELL_BODY), body, i + 1)
    }
}

/// `g` after drawing `s`: its head cell, then its remaining body cells,
/// and finally the erasure of the cell its tail last vacated.
pub open spec fn snake_written(g: Seq<Seq<u8>>, s: Snake) -> Seq<Seq<u8>> {
    let with_head = write_cell(g, s.head().0 as int, s.head().1 as int, CELL_HEAD);
    let with_body = write_body_cells(with_head, s.body@, 1);
    match s.last {
        Some(p) => write_cell(with_body, p.0 as int, p.1 as int, CELL_EMPTY),
        None => with_body,
    }
}

/// The play field: `height` rows of `width` single-character cells,
/// stored row-major (`vec[y][x]`), sized once from the terminal.
pub struct Vec2d {
    pub vec: Vec<Vec<u8>>,
    pub width: usize,
    pub height: usize,
}

impl Vec2d {
    /// The rows of cells as mathematical sequences.
    pub open spec fn cells(self) -> Seq<Seq<u8>> {
        self.vec@.map_values(|row: Vec<u8>| row@)
    }

    /// Shape invariant: exactly `height` rows of exactly `width` cells.
    pub open spec fn wf(self) -> bool {
        &&& self.vec@.len() == self.height
        &&& forall|y: int| 0 <= y < self.height ==> (#[trigger] self.vec@[y])@.len() == self.width
    }

    /// A fresh grid of the given dimensions, every cell empty.
    pub fn new(width: u16, height: u16) -> (g: Vec2d)
        ensures
            g.wf(),
            g.width == width as usize,
            g.height == height as usize,
            forall|y: int, x: int|
                0 <= y < g.height && 0 <= x < g.width ==> g.cells()[y][x] == CELL_EMPTY,
    {
        let w: usize = width as usize;
        let h: usize = height as usize;
        let mut rows: Vec<Vec<u8>> = Vec::new();
        let mut y: usize = 0;
        while y < h
            invariant
                y <= h,
                rows@.len() == y,
                forall|i: int| 0 <= i < y ==> (#[trigger] rows@[i])@.len() == w,
                forall|i: int, j: int|
                    0 <= i < y && 0 <= j < w ==> #[trigger] (rows@[i])@[j] == CELL_EMPTY,
            decreases h - y,
        {
            let mut row: Vec<u8> = Vec::new();
            let mut x: usize = 0;
            while x < w
                invariant
                    x <= w,
                    row@.len() == x,
                    forall|j: int| 0 <= j < x ==> row@[j] == CELL_EMPTY,
                decreases w - x,
            {
                row.push(CELL_EMPTY);
                x += 1;
            }
            rows.push(row);
            y += 1;
        }
        Vec2d { vec: rows, width: w, height: h }
    }

    /// True when the grid has its declared shape; callers outside the
    /// verified code use this to establish `wf` before relying on it.
    pub fn check_shape(&self) -> (r: bool)
        ensures
            r == self.wf(),
    {
        if self.vec.len() != self.height {
            return false;
        }
        let mut y: usize = 0;
        while y < self.height
            invariant
                y <= self.height,
                self.vec@.len() == self.height,
                forall|i: int| 0 <= i < y ==> (#[trigger] self.vec@[i])@.len() == self.width,
            decreases self.height - y,
        {
            if self.vec[y].len() != self.width {
                return false;
            }
            y += 1;
        }
        true
    }

    /// The cell at column `x` of row `y`, or `None` outside the grid.
    pub fn cell_at(&self, x: usize, y: usize) -> (r: Option<u8>)
        requires
            self.wf(),
        ensures
            r == if x < self.width && y < self.height {
                Some(self.cells()[y as int][x as int])
            } else {
                None::<u8>
            },
    {
        if x < self.width && y < self.height {
            Some(self.vec[y][x])
        } else {
            None
        }
    }

    /// Overwrites the cell at column `x` of row `y` with `c`.
    pub fn set_cell(&mut self, x: usize, y: usize, c: u8)
        requires
            old(self).wf(),
            x < old(self).width,
            y < old(self).height,
        ensures
            final(self).wf(),
            final(self).width == old(self).width,
            final(self).height == old(self).height,
            final(self).cells() == write_cell(old(self).cells(), x as int, y as int, c),
    {
        self.vec[y][x] = c;
        proof {
            assert(self.cells() =~~= write_cell(old(self).cells(), x as int, y as int, c));
        }
    }

    /// Draws the food's cell on the grid.
    pub fn write_food(&mut self, food: &Food)
        requires
            old(self).wf(),
            food.x < old(self).width,
            food.y < old(self).height,
        ensures
            final(self).wf(),
            final(self).width == old(self).width,
            final(self).height == old(self).height,
            final(self).cells() == write_cell(
                old(self).cells(),
                food.x as int,
                food.y as int,
                CELL_FOOD,
            ),
    {
        self.set_cell(food.x, food.y, CELL_FOOD);
    }

    /// Erases the food's cell from the grid.
    pub fn delete_food(&mut self, food: &Food)
        requires
            old(self).wf(),
            food.x < old(self).width,
            food.y < old(self).height,
        ensures
            final(self).wf(),
            final(self).width == old(self).width,
            final(self).height == old(self).height,
            final(self).cells() == write_cell(
                old(self).cells(),
                food.x as int,
                food.y as int,
                CELL_EMPTY,
            ),
    {
        self.set_cell(food.x, food.y, CELL_EMPTY);
    }

    /// Draws the snake: its head, its body cells, and the erasure of the
    /// cell its tail last vacated.
    pub fn write_snake(&mut self, snake: &Snake)
        requires
            old(self).wf(),
            snake.body@.len() >= 1,
            forall|i: int|
                0 <= i < snake.body@.len() ==> (#[trigger] snake.body@[i]).0 < old(self).width
                    && snake.body@[i].1 < old(self).height,
            snake.last matches Some(p) ==> p.0 < old(self).width && p.1 < old(self).height,
        ensures
            final(self).wf(),
            final(self).width == old(self).width,
            final(self).height == old(self).height,
            final(self).cells() == snake_written(old(self).cells(), *snake),
    {
        let head = snake.body[0];
        self.set_cell(head.0, head.1, CELL_HEAD);
        let ghost with_head = self.cells();
        let mut i: usize = 1;
        while i < snake.body.len()
            invariant
                1 <= i <= snake.body@.len(),
                self.wf(),
                self.width == old(self).width,
                self.height == old(self).height,
                forall|k: int|
                    0 <= k < snake.body@.len() ==> (#[trigger] snake.body@[k]).0 < self.width
                        && snake.body@[k].1 < self.height,
                write_body_cells(with_head, snake.body@, 1) == write_body_cells(
                    self.cells(),
                    snake.body@,
                    i as int,
                ),
            decreases snake.body@.len() - i,
        {
            let item = snake.body[i];
            self.set_cell(item.0, item.1, CELL_BODY);
            i += 1;
        }
        if let Some(item) = snake.last {
            self.set_cell(item.0, item.1, CELL_EMPTY);
        }
    }

    /// A random cell: the column uniform over `[0, width)`, the row uniform
    /// over `[1, height)` (row 0 lies under the top border and is skipped).
    pub fn pick_random(&self, rng: &mut rand::rngs::StdRng) -> (r: (usize, usize))
        requires
            self.width >= 1,
            self.height >= 2,
        ensures
            r.0 < self.width,
            1 <= r.1 < self.height,
    {
        let x = rand_range(rng, 0, self.width);
        let y = rand_range(rng, 1, self.height);
        (x, y)
    }
}

} // verus!
