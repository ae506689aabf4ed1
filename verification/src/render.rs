use vstd::prelude::*;
use crate::food::Food;
use crate::grid::{write_cell, snake_written, Vec2d, CELL_FOOD};
use crate::snake::Snake;

verus! {

/// Carriage return, as rendered between frame lines.
pub const BYTE_CR: u8 = 13;
/// Line feed, as rendered between frame lines.
pub const BYTE_LF: u8 = 10;
/// The blank used for padding.
pub const BYTE_SPACE: u8 = 32;
/// Corner of the border: `+`.
pub const BYTE_CORNER: u8 = 43;
/// Horizontal border segment: `-`.
pub const BYTE_DASH: u8 = 45;
/// Vertical border segment: `|`.
pub const BYTE_PIPE: u8 = 124;
/// The escape byte that opens a terminal control sequence.
pub const BYTE_ESC: u8 = 27;
/// `[`, the second byte of a terminal control sequence.
pub const BYTE_BRACKET: u8 = 91;
/// `H`, the cursor-home control.
pub const BYTE_HOME: u8 = 72;
/// `J`, the clear-screen control.
pub const BYTE_CLEAR: u8 = 74;

/// The line break between rendered lines.
pub open spec fn crlf() -> Seq<u8> {
    seq![BYTE_CR, BYTE_LF]
}

/// `n` copies of the byte `b` (none when `n` is negative).
pub open spec fn rep(b: u8, n: int) -> Seq<u8> {
    Seq::new((if n < 0 { 0int } else { n }) as nat, |i: int| b)
}

/// `n` copies of the line break.
pub open spec fn crlf_times(n: int) -> Seq<u8>
    decreases n,
{
    if n <= 0 {
        Seq::empty()
    } else {
        crlf_times(n - 1) + crlf()
    }
}

/// The top or bottom border: left padding, a corner, a dashed run two
/// characters per interior column wide, a corner, and a line break.
pub open spec fn border_line(width: int) -> Seq<u8> {
    rep(BYTE_SPACE, 2 * width / 4 + 2) + seq![BYTE_CORNER] + rep(BYTE_DASH, 2 * width - 3)
        + seq![BYTE_CORNER] + crlf()
}

/// The cells of columns `1..upto` of `row`, each but the rightmost
/// interior column followed by a spacing blank.
pub open spec fn row_cells(row: Seq<u8>, upto: int, width: int) -> Seq<u8>
    decreases upto,
{
    if upto <= 1 {
        Seq::empty()
    } else if upto - 1 != width - 1 {
        row_cells(row, upto - 1, width) + seq![row[upto - 1], BYTE_SPACE]
    } else {
        row_cells(row, upto - 1, width) + seq![row[upto - 1]]
    }
}

/// One rendered interior row: left padding, the walls, and the cells.
pub open spec fn row_line(row: Seq<u8>, width: int) -> Seq<u8> {
    rep(BYTE_SPACE, 2 * width / 4 + 2) + seq![BYTE_PIPE] + row_cells(row, width, width)
        + seq![BYTE_PIPE] + crlf()
}

/// The rendered rows `1..upto` of the grid.
pub open spec fn rows_upto(cells: Seq<Seq<u8>>, upto: int, width: int) -> Seq<u8>
    decreases upto,
{
    if upto <= 1 {
        Seq::empty()
    } else {
        rows_upto(cells, upto - 1, width) + row_line(cells[upto - 1], width)
    }
}

/// The whole rendered play field: vertical padding, the top border, the
/// interior rows, and the bottom border.
pub open spec fn grid_text(cells: Seq<Seq<u8>>, width: int, height: int) -> Seq<u8> {
    crlf_times(height / 2 - 1) + border_line(width) + rows_upto(cells, height, width)
        + border_line(width)
}

/// The decimal digits of `n`.
pub open spec fn dec_digits(n: nat) -> Seq<u8>
    decreases n,
{
    if n < 10 {
        seq![(48 + n) as u8]
    } else {
        dec_digits(n / 10).push((48 + n % 10) as u8)
    }
}

/// The score line: left padding, the text `Score: `, and the digits.
pub open spec fn score_text(score: nat, width: int) -> Seq<u8> {
    rep(BYTE_SPACE, width / 4 + 10) + seq![83u8, 99u8, 111u8, 114u8, 101u8, 58u8, 32u8]
        + dec_digits(score)
}

/// The control bytes that home the cursor and clear the screen.
pub open spec fn clear_text() -> Seq<u8> {
    seq![BYTE_ESC, BYTE_BRACKET, BYTE_HOME, BYTE_ESC, BYTE_BRACKET, BYTE_CLEAR]
}

/// Appends `n` copies of `b` to the buffer.
fn push_repeat(buffer: &mut Vec<u8>, b: u8, n: usize)
    ensures
        final(buffer)@ == old(buffer)@ + rep(b, n as int),
{
    let mut i: usize = 0;
    while i < n
        invariant
            i <= n,
            buffer@ == old(buffer)@ + rep(b, i as int),
        decreases n - i,
    {
        buffer.push(b);
        proof {
            assert(old(buffer)@ + rep(b, i as int) + seq![b] =~= old(buffer)@ + rep(
                b,
                i + 1,
            ));
        }
        i += 1;
    }
}

/// Appends one line break to the buffer.
fn push_crlf(buffer: &mut Vec<u8>)
    ensures
        final(buffer)@ == old(buffer)@ + crlf(),
{
    buffer.push(BYTE_CR);
    buffer.push(BYTE_LF);
    proof {
        assert(buffer@ =~= old(buffer)@ + crlf());
    }
}

/// Appends `n` line breaks to the buffer.
fn push_crlf_times(buffer: &mut Vec<u8>, n: usize)
    ensures
        final(buffer)@ == old(buffer)@ + crlf_times(n as int),
{
    let mut i: usize = 0;
    while i < n
        invariant
            i <= n,
            buffer@ == old(buffer)@ + crlf_times(i as int),
        decreases n - i,
    {
        push_crlf(buffer);
        i += 1;
    }
    proof {
        assert(buffer@ =~= old(buffer)@ + crlf_times(n as int));
    }
}

/// Appends the decimal digits of `n` to the buffer.
fn push_dec(buffer: &mut Vec<u8>, n: u16)
    ensures
        final(buffer)@ == old(buffer)@ + dec_digits(n as nat),
    decreases n,
{
    if n < 10 {
        buffer.push(48 + n as u8);
        proof {
            assert(buffer@ =~= old(buffer)@ + dec_digits(n as nat));
        }
    } else {
        push_dec(buffer, n / 10);
        buffer.push(48 + (n % 10) as u8);
        proof {
            assert(buffer@ =~= old(buffer)@ + dec_digits(n as nat));
        }
    }
}

/// Appends a top or bottom border line to the buffer.
fn push_border(buffer: &mut Vec<u8>, width: usize, width_difference: usize)
    requires
        2 <= width,
        width_difference == 2 * width,
    ensures
        final(buffer)@ == old(buffer)@ + border_line(width as int),
{
    push_repeat(buffer, BYTE_SPACE, width_difference / 4 + 2);
    buffer.push(BYTE_CORNER);
    push_repeat(buffer, BYTE_DASH, width * 2 - 3);
    buffer.push(BYTE_CORNER);
    push_crlf(buffer);
    proof {
        assert(buffer@ =~= old(buffer)@ + border_line(width as int));
    }
}

/// Appends one rendered interior row to the buffer.
fn push_row(buffer: &mut Vec<u8>, row: &Vec<u8>, width: usize, width_difference: usize)
    requires
        2 <= width,
        width <= usize::MAX / 2,
        width_difference == 2 * width,
        row@.len() == width,
    ensures
        final(buffer)@ == old(buffer)@ + row_line(row@, width as int),
{
    push_repeat(buffer, BYTE_SPACE, width_difference / 4 + 2);
    buffer.push(BYTE_PIPE);
    let ghost base = buffer@;
    let mut j: usize = 1;
    while j < width
        invariant
            1 <= j <= width,
            row@.len() == width,
            2 <= width,
            buffer@ == base + row_cells(row@, j as int, width as int),
        decreases width - j,
    {
        buffer.push(row[j]);
        if j != width - 1 {
            buffer.push(BYTE_SPACE);
        }
        j += 1;
    }
    buffer.push(BYTE_PIPE);
    push_crlf(buffer);
    proof {
        assert(buffer@ =~= old(buffer)@ + row_line(row@, width as int));
    }
}

impl Vec2d {
    /// Renders the bordered play field into the buffer: vertical padding,
    /// the top border, each interior row with its walls, and the bottom
    /// border, every line ended by a line break.
    pub fn write_grid(&self, buffer: &mut Vec<u8>)
        requires
            self.wf(),
            2 <= self.width,
            self.width <= usize::MAX / 3,
            2 <= self.height,
            self.height <= usize::MAX / 2,
        ensures
            final(buffer)@ == old(buffer)@ + grid_text(
                self.cells(),
                self.width as int,
                self.height as int,
            ),
    {
        let total_height = self.height * 2;
        let total_width = self.width * 3;
        let height_difference = total_height - self.height;
        let width_difference = total_width - self.width;

        push_crlf_times(buffer, height_difference / 2 - 1);
        push_border(buffer, self.width, width_difference);

        let ghost base = buffer@;
        let mut i: usize = 1;
        while i < self.height
            invariant
                1 <= i <= self.height,
                self.wf(),
                2 <= self.width,
                self.width <= usize::MAX / 2,
                width_difference == 2 * self.width,
                buffer@ == base + rows_upto(self.cells(), i as int, self.width as int),
            decreases self.height - i,
        {
            push_row(buffer, &self.vec[i], self.width, width_difference);
            i += 1;
        }

        push_border(buffer, self.width, width_difference);
        proof {
            assert(buffer@ =~= old(buffer)@ + grid_text(
                self.cells(),
                self.width as int,
                self.height as int,
            ));
        }
    }
}

/// Appends the cursor-home and clear-screen control bytes to the buffer.
pub fn clear(buffer: &mut Vec<u8>)
    ensures
        final(buffer)@ == old(buffer)@ + clear_text(),
{
    buffer.push(BYTE_ESC);
    buffer.push(BYTE_BRACKET);
    buffer.push(BYTE_HOME);
    buffer.push(BYTE_ESC);
    buffer.push(BYTE_BRACKET);
    buffer.push(BYTE_CLEAR);
    proof {
        assert(buffer@ =~= old(buffer)@ + clear_text());
    }
}

/// Appends the padded score line to the buffer.
pub fn write_score(buffer: &mut Vec<u8>, score: u16, grid: &Vec2d)
    requires
        grid.width <= usize::MAX - 11,
    ensures
        final(buffer)@ == old(buffer)@ + score_text(score as nat, grid.width as int),
{
    let width_difference = grid.width;
    push_repeat(buffer, BYTE_SPACE, width_difference / 4 + 10);
    buffer.push(83);
    buffer.push(99);
    buffer.push(111);
    buffer.push(114);
    buffer.push(101);
    buffer.push(58);
    buffer.push(32);
    push_dec(buffer, score);
    proof {
        assert(buffer@ =~= old(buffer)@ + score_text(score as nat, grid.width as int));
    }
}

/// One frame: clears the screen, draws the food and the snake onto the
/// grid, and renders the play field and the score line into the buffer.
pub fn render(grid: &mut Vec2d, buffer: &mut Vec<u8>, food: &Food, snake: &Snake, score: u16)
    requires
        old(grid).wf(),
        2 <= old(grid).width,
        old(grid).width <= usize::MAX / 3,
        2 <= old(grid).height,
        old(grid).height <= usize::MAX / 2,
        food.x < old(grid).width,
        food.y < old(grid).height,
        snake.body@.len() >= 1,
        forall|i: int|
            0 <= i < snake.body@.len() ==> (#[trigger] snake.body@[i]).0 < old(grid).width
                && snake.body@[i].1 < old(grid).height,
        snake.last matches Some(p) ==> p.0 < old(grid).width && p.1 < old(grid).height,
    ensures
        final(grid).wf(),
        final(grid).width == old(grid).width,
        final(grid).height == old(grid).height,
        final(grid).cells() == snake_written(
            write_cell(old(grid).cells(), food.x as int, food.y as int, CELL_FOOD),
            *snake,
        ),
        final(buffer)@ == old(buffer)@ + clear_text() + grid_text(
            final(grid).cells(),
            final(grid).width as int,
            final(grid).height as int,
        ) + score_text(score as nat, final(grid).width as int),
{
    clear(buffer);
    grid.write_food(food);
    grid.write_snake(snake);
    grid.write_grid(buffer);
    write_score(buffer, score, grid);
}

} // verus!
