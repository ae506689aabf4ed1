use vstd::prelude::*;
use crate::direction::Direction;
use crate::food::Food;
use crate::grid::{write_cell, Vec2d, CELL_BODY, CELL_EMPTY, CELL_FOOD};
use crate::snake::{step_target, Snake};

verus! {

/// Longest pause between two snake advances, in milliseconds.
pub const MAX_INTERVAL: u16 = 300;
/// Shortest pause between two snake advances, in milliseconds.
pub const MIN_INTERVAL: u16 = 50;
/// Largest speed setting a game can be run at.
pub const MAX_SPEED: u16 = 250;

/// What a keypress asks the game to do.
#[derive(PartialEq, Eq, Structural, Clone, Copy, Debug)]
pub enum Command {
    Quit,
    Turn(Direction),
}

/// A keypress, reduced to what the game distinguishes.
#[derive(PartialEq, Eq, Structural, Clone, Copy, Debug)]
pub enum Key {
    Char(char),
    Esc,
    Other,
}

/// What the snake's head ran into.
#[derive(PartialEq, Eq, Structural, Clone, Copy, Debug)]
pub enum Collision {
    Food,
    Obstacle,
}

/// How one tick of the game ended.
#[derive(PartialEq, Eq, Structural, Clone, Copy, Debug)]
pub enum TickOutcome {
    /// The snake advanced onto an empty cell.
    Continue,
    /// The snake advanced onto the food and grew.
    AteFood,
    /// The move would have left the grid: the game is over.
    OutOfBounds,
    /// The head ran into the border or the snake's own body: the game is over.
    HitObstacle,
}

/// The command bound to a key: `w`/`a`/`s`/`d` turn, `q`, `Q` and escape
/// quit, everything else does nothing.
pub fn command_for_key(key: Key) -> (r: Option<Command>)
    ensures
        r == match key {
            Key::Char(c) => if c == 'q' || c == 'Q' {
                Some(Command::Quit)
            } else if c == 'w' {
                Some(Command::Turn(Direction::North))
            } else if c == 'd' {
                Some(Command::Turn(Direction::East))
            } else if c == 's' {
                Some(Command::Turn(Direction::South))
            } else if c == 'a' {
                Some(Command::Turn(Direction::West))
            } else {
                None
            },
            Key::Esc => Some(Command::Quit),
            Key::Other => None,
        },
{
    match key {
        Key::Char(c) => {
            if c == 'q' || c == 'Q' {
                Some(Command::Quit)
            } else if c == 'w' {
                Some(Command::Turn(Direction::North))
            } else if c == 'd' {
                Some(Command::Turn(Direction::East))
            } else if c == 's' {
                Some(Command::Turn(Direction::South))
            } else if c == 'a' {
                Some(Command::Turn(Direction::West))
            } else {
                None
            }
        },
        Key::Esc => Some(Command::Quit),
        Key::Other => None,
    }
}

/// Turns the snake toward `towards` unless that repeats the heading the
/// tick started with or reverses it; a reversing turn is always rejected.
pub fn apply_turn(snake: &mut Snake, heading: Direction, towards: Direction)
    ensures
        final(snake).body@ == old(snake).body@,
        final(snake).last == old(snake).last,
        final(snake).direction == if towards != heading && towards
            != heading.opposite_spec() {
            towards
        } else {
            old(snake).direction
        },
        towards == heading.opposite_spec() ==> final(snake).direction == old(snake).direction,
{
    if heading != towards && heading.opposite() != towards {
        snake.direction = towards;
    }
}

/// The pause before the next advance, in milliseconds, for a speed
/// setting: the interval range scaled down linearly as speed rises.
pub fn calculate_interval(speed: u16) -> (r: u64)
    requires
        speed <= MAX_SPEED,
    ensures
        r == MIN_INTERVAL + ((MAX_INTERVAL - MIN_INTERVAL) as int / MAX_SPEED as int) * (
        MAX_SPEED - speed),
{
    let remaining = MAX_SPEED - speed;
    (MIN_INTERVAL + ((MAX_INTERVAL - MIN_INTERVAL) / MAX_SPEED) * remaining) as u64
}

/// Grows the snake by one cell after it reached the food.
pub fn collision_with_food(snake: &mut Snake)
    requires
        old(snake).body@.len() >= 1,
        old(snake).can_step(),
    ensures
        final(snake).body@.len() == old(snake).body@.len() + 1,
        final(snake).body@ == seq![
            ((step_target(old(snake).head(), old(snake).direction).0) as usize,
             (step_target(old(snake).head(), old(snake).direction).1) as usize),
        ] + old(snake).body@,
        final(snake).direction == old(snake).direction,
        final(snake).last == old(snake).last,
{
    snake.increase_size();
}

/// Classifies what the head now touches: the border (one cell past the
/// east or south edge), the food — on which the snake grows at once —
/// the snake's own body, or nothing.
pub fn check_collison(snake: &mut Snake, grid: &Vec2d) -> (r: Option<Collision>)
    requires
        grid.wf(),
        grid.height >= 1,
        old(snake).body@.len() >= 1,
        old(snake).head().0 <= grid.width,
        old(snake).head().1 <= grid.height,
        (old(snake).head().0 < grid.width && old(snake).head().1 < grid.height
            && grid.cells()[old(snake).head().1 as int][old(snake).head().0 as int]
            == CELL_FOOD) ==> old(snake).can_step(),
    ensures
        ({
            let hx = old(snake).head().0;
            let hy = old(snake).head().1;
            let edge = hy == grid.height || hx == grid.width;
            let cell = grid.cells()[hy as int][hx as int];
            &&& (edge ==> r == Some(Collision::Obstacle) && *final(snake) == *old(snake))
            &&& (!edge && cell == CELL_FOOD ==> {
                &&& r == Some(Collision::Food)
                &&& final(snake).body@.len() == old(snake).body@.len() + 1
                &&& final(snake).body@ == seq![
                        ((step_target(old(snake).head(), old(snake).direction).0) as usize,
                         (step_target(old(snake).head(), old(snake).direction).1) as usize),
                    ] + old(snake).body@
                &&& final(snake).direction == old(snake).direction
                &&& final(snake).last == old(snake).last
            })
            &&& (!edge && cell != CELL_FOOD && cell == CELL_BODY ==> r == Some(
                Collision::Obstacle,
            ) && *final(snake) == *old(snake))
            &&& (!edge && cell != CELL_FOOD && cell != CELL_BODY ==> r is None && *final(snake)
                == *old(snake))
        }),
{
    let head_position = snake.body[0];
    if head_position.1 == grid.vec.len() || head_position.0 == grid.vec[0].len() {
        Some(Collision::Obstacle)
    } else if grid.vec[head_position.1][head_position.0] == CELL_FOOD {
        collision_with_food(snake);
        Some(Collision::Food)
    } else if grid.vec[head_position.1][head_position.0] == CELL_BODY {
        Some(Collision::Obstacle)
    } else {
        None
    }
}

/// The state a tick starts from: a well-shaped grid at least two cells
/// each way, the snake's head on the grid, and the food in its interior.
pub open spec fn tick_wf(snake: Snake, grid: Vec2d, food: Food) -> bool {
    &&& grid.wf()
    &&& 2 <= grid.width
    &&& 2 <= grid.height
    &&& snake.body@.len() >= 1
    &&& snake.head().0 < grid.width
    &&& snake.head().1 < grid.height
    &&& food.x < grid.width
    &&& 1 <= food.y && food.y < grid.height
}

/// After this tick's move, growing on a food cell must stay on the
/// coordinate range: the grown head sits one cell past the food.
pub open spec fn growth_fits(snake: Snake, grid: Vec2d) -> bool {
    let h1 = if snake.can_step() {
        (
            (step_target(snake.head(), snake.direction).0) as usize,
            (step_target(snake.head(), snake.direction).1) as usize,
        )
    } else {
        snake.head()
    };
    (h1.0 < grid.width && h1.1 < grid.height && grid.cells()[h1.1 as int][h1.0 as int]
        == CELL_FOOD) ==> match snake.direction {
        Direction::North => h1.1 >= 1,
        Direction::East => h1.0 < usize::MAX,
        Direction::South => h1.1 < usize::MAX,
        Direction::West => h1.0 >= 1,
    }
}

/// One tick past the input phase: the snake advances, the head's cell is
/// classified, food is eaten, respawned and scored in the same tick, and
/// the outcome says whether the game goes on. A move across the north or
/// west edge leaves the snake in place and ends the game; a collision
/// with the border or the body ends it without a food action.
pub fn step(
    snake: &mut Snake,
    grid: &mut Vec2d,
    food: &mut Food,
    score: &mut u16,
    rng: &mut rand::rngs::StdRng,
) -> (r: TickOutcome)
    requires
        tick_wf(*old(snake), *old(grid), *old(food)),
        growth_fits(*old(snake), *old(grid)),
        *old(score) < u16::MAX,
    ensures
        ({
            let ob = !old(snake).can_step();
            let tgt = step_target(old(snake).head(), old(snake).direction);
            let body1 = if ob {
                old(snake).body@
            } else {
                seq![((tgt.0) as usize, (tgt.1) as usize)] + old(snake).body@.drop_last()
            };
            let hh = body1[0];
            let edge = hh.1 == old(grid).height || hh.0 == old(grid).width;
            let cell = old(grid).cells()[hh.1 as int][hh.0 as int];
            let ate = !edge && cell == CELL_FOOD;
            let hit = edge || (!ate && cell == CELL_BODY);
            let tgt2 = step_target(hh, old(snake).direction);
            &&& final(snake).direction == old(snake).direction
            &&& final(snake).body@ == if ate {
                seq![((tgt2.0) as usize, (tgt2.1) as usize)] + body1
            } else {
                body1
            }
            &&& (ate ==> final(snake).body@.len() == old(snake).body@.len() + 1)
            &&& (!ate ==> final(snake).body@.len() == old(snake).body@.len())
            &&& (r == TickOutcome::HitObstacle <==> hit)
            &&& (r == TickOutcome::OutOfBounds <==> ob && !hit)
            &&& (r == TickOutcome::AteFood <==> ate && !ob && !hit)
            &&& (r == TickOutcome::Continue <==> !ob && !ate && !hit)
            &&& (ate ==> {
                &&& final(grid).cells() == write_cell(
                    old(grid).cells(),
                    old(food).x as int,
                    old(food).y as int,
                    CELL_EMPTY,
                )
                &&& *final(score) == *old(score) + 1
                &&& final(food).x < old(grid).width
                &&& 1 <= final(food).y && final(food).y < old(grid).height
            })
            &&& (!ate ==> {
                &&& final(grid).cells() == old(grid).cells()
                &&& *final(food) == *old(food)
                &&& *final(score) == *old(score)
            })
            &&& final(grid).wf()
            &&& final(grid).width == old(grid).width
            &&& final(grid).height == old(grid).height
        }),
{
    let mut out_of_bounds = false;
    if snake.update_position().is_err() {
        out_of_bounds = true;
    }
    match check_collison(snake, grid) {
        Some(Collision::Food) => {
            grid.delete_food(food);
            *food = Food::new(grid, Some(*food), rng);
            *score = *score + 1;
            if out_of_bounds {
                TickOutcome::OutOfBounds
            } else {
                TickOutcome::AteFood
            }
        },
        Some(Collision::Obstacle) => TickOutcome::HitObstacle,
        None => {
            if out_of_bounds {
                TickOutcome::OutOfBounds
            } else {
                TickOutcome::Continue
            }
        },
    }
}

/// True when `step` may run: the tick state is well formed, a growth
/// this tick stays on the coordinate range, and the score can still rise.
pub fn step_ready(snake: &Snake, grid: &Vec2d, food: &Food, score: u16) -> (r: bool)
    requires
        grid.wf(),
    ensures
        r == (tick_wf(*snake, *grid, *food) && growth_fits(*snake, *grid) && score
            < u16::MAX),
{
    if !(grid.width >= 2 && grid.height >= 2) {
        return false;
    }
    if snake.body.len() == 0 {
        return false;
    }
    let head = snake.body[0];
    if !(head.0 < grid.width && head.1 < grid.height) {
        return false;
    }
    if !(food.x < grid.width && 1 <= food.y && food.y < grid.height) {
        return false;
    }
    if score == u16::MAX {
        return false;
    }
    let h1 = match snake.direction {
        Direction::North => {
            if head.1 >= 1 {
                (head.0, head.1 - 1)
            } else {
                head
            }
        },
        Direction::East => (head.0 + 1, head.1),
        Direction::South => (head.0, head.1 + 1),
        Direction::West => {
            if head.0 >= 1 {
                (head.0 - 1, head.1)
            } else {
                head
            }
        },
    };
    match grid.cell_at(h1.0, h1.1) {
        Some(c) => {
            if c == CELL_FOOD {
                match snake.direction {
                    Direction::North => h1.1 >= 1,
                    Direction::East => h1.0 < usize::MAX,
                    Direction::South => h1.1 < usize::MAX,
                    Direction::West => h1.0 >= 1,
                }
            } else {
                true
            }
        },
        None => true,
    }
}

/// True when `render` may run on this state: the dimensions leave room
/// for the border arithmetic and every drawn cell lies on the grid.
pub fn render_ready(snake: &Snake, grid: &Vec2d, food: &Food) -> (r: bool)
    requires
        grid.wf(),
    ensures
        r == ({
            &&& 2 <= grid.width && grid.width <= usize::MAX / 3
            &&& 2 <= grid.height && grid.height <= usize::MAX / 2
            &&& food.x < grid.width && food.y < grid.height
            &&& snake.body@.len() >= 1
            &&& forall|i: int|
                0 <= i < snake.body@.len() ==> (#[trigger] snake.body@[i]).0 < grid.width
                    && snake.body@[i].1 < grid.height
            &&& (snake.last matches Some(p) ==> p.0 < grid.width && p.1 < grid.height)
        }),
{
    if !(2 <= grid.width && grid.width <= usize::MAX / 3) {
        return false;
    }
    if !(2 <= grid.height && grid.height <= usize::MAX / 2) {
        return false;
    }
    if !(food.x < grid.width && food.y < grid.height) {
        return false;
    }
    if snake.body.len() == 0 {
        return false;
    }
    let mut i: usize = 0;
    while i < snake.body.len()
        invariant
            i <= snake.body@.len(),
            forall|k: int|
                0 <= k < i ==> (#[trigger] snake.body@[k]).0 < grid.width && snake.body@[k].1
                    < grid.height,
        decreases snake.body@.len() - i,
    {
        let p = snake.body[i];
        if !(p.0 < grid.width && p.1 < grid.height) {
            return false;
        }
        i += 1;
    }
    match snake.last {
        Some(p) => p.0 < grid.width && p.1 < grid.height,
        None => true,
    }
}

} // verus!
