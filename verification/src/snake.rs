use vstd::prelude::*;
use crate::direction::Direction;
use crate::grid::Vec2d;

verus! {

/// Signals that a move would leave the grid across the north or west edge.
#[derive(Debug, Clone)]
pub struct OutOfBoundsError;

impl OutOfBoundsError {
    /// The diagnostic text shown when the snake leaves the grid.
    pub fn message(&self) -> (r: &'static str)
        ensures
            r@ == "Snake out of bounds"@,
    {
        "Snake out of bounds"
    }
}

/// The cell one step from `head` in direction `d`, over the integers
/// (a negative coordinate means the step leaves the grid).
pub open spec fn step_target(head: (usize, usize), d: Direction) -> (int, int) {
    match d {
        Direction::North => (head.0 as int, head.1 - 1),
        Direction::East => (head.0 + 1, head.1 as int),
        Direction::South => (head.0 as int, head.1 + 1),
        Direction::West => (head.0 - 1, head.1 as int),
    }
}

/// True when `a` and `b` are neighbouring cells of the grid: equal in one
/// coordinate and one apart in the other.
pub open spec fn adjacent(a: (usize, usize), b: (usize, usize)) -> bool {
    ||| (a.0 == b.0 && (a.1 - b.1 == 1 || b.1 - a.1 == 1))
    ||| (a.1 == b.1 && (a.0 - b.0 == 1 || b.0 - a.0 == 1))
}

/// The body after `n` straight moves to the north, each one prepending
/// the cell above the head and dropping the tail cell, exactly as the
/// contract of `Snake::update_position` states for a north-facing snake.
pub open spec fn north_ticks(body: Seq<(usize, usize)>, n: nat) -> Seq<(usize, usize)>
    decreases n,
{
    if n == 0 {
        body
    } else {
        let b = north_ticks(body, (n - 1) as nat);
        seq![(b[0].0, (b[0].1 - 1) as usize)] + b.drop_last()
    }
}

/// Law: a snake that holds its north heading for `n` ticks from head row
/// `y >= n` keeps its length and its column and ends with its head at row
/// `y - n`.
pub proof fn lemma_north_run(body: Seq<(usize, usize)>, n: nat)
    requires
        body.len() >= 1,
        n <= body[0].1,
    ensures
        north_ticks(body, n).len() == body.len(),
        north_ticks(body, n)[0].0 == body[0].0,
        north_ticks(body, n)[0].1 == body[0].1 - n,
    decreases n,
{
    if n > 0 {
        lemma_north_run(body, (n - 1) as nat);
    }
}

/// The snake: its body cells, head first, the heading it faces, and the
/// cell its tail vacated on the latest move (erased at the next render).
pub struct Snake {
    pub direction: Direction,
    pub body: Vec<(usize, usize)>,
    pub last: Option<(usize, usize)>,
}

impl Snake {
    /// The snake's head cell.
    pub open spec fn head(self) -> (usize, usize) {
        self.body@[0]
    }

    /// Body invariant: at least one segment, and consecutive segments lie
    /// on neighbouring cells.
    pub open spec fn wf_body(self) -> bool {
        &&& self.body@.len() >= 1
        &&& forall|i: int|
            0 <= i < self.body@.len() - 1 ==> adjacent(
                #[trigger] self.body@[i],
                self.body@[i + 1],
            )
    }

    /// True when one more step in the current heading stays on the
    /// machine's coordinate range: it does not go below zero (north/west)
    /// and does not overflow `usize` (east/south).
    pub open spec fn can_step(self) -> bool {
        match self.direction {
            Direction::North => self.head().1 >= 1,
            Direction::East => self.head().0 < usize::MAX,
            Direction::South => self.head().1 < usize::MAX,
            Direction::West => self.head().0 >= 1,
        }
    }

    /// A two-segment snake at the centre of `grid`, facing north.
    pub fn new(grid: &Vec2d) -> (s: Snake)
        requires
            grid.height < usize::MAX,
        ensures
            s.direction == Direction::North,
            s.body@ == seq![
                ((grid.width / 2) as usize, (grid.height / 2) as usize),
                ((grid.width / 2) as usize, (grid.height / 2 + 1) as usize),
            ],
            s.last is None,
            s.wf_body(),
    {
        let x = grid.width / 2;
        let y = grid.height / 2;
        let mut body: Vec<(usize, usize)> = Vec::new();
        body.push((x, y));
        body.push((x, y + 1));
        proof {
            assert(body@ =~= seq![(x, y), (x, (y + 1) as usize)]);
        }
        Snake {
            direction: Direction::North,
            body,
            last: None,
        }
    }

    /// Prepends a new head one step along the current heading without
    /// removing the tail, so the body grows by exactly one cell.
    pub fn increase_size(&mut self)
        requires
            old(self).body@.len() >= 1,
            old(self).can_step(),
        ensures
            final(self).body@.len() == old(self).body@.len() + 1,
            final(self).body@ == seq![
                ((step_target(old(self).head(), old(self).direction).0) as usize,
                 (step_target(old(self).head(), old(self).direction).1) as usize),
            ] + old(self).body@,
            final(self).direction == old(self).direction,
            final(self).last == old(self).last,
            old(self).wf_body() ==> final(self).wf_body(),
    {
        let first = self.body[0];
        let new_part = match self.direction {
            Direction::North => (first.0, first.1 - 1),
            Direction::East => (first.0 + 1, first.1),
            Direction::South => (first.0, first.1 + 1),
            Direction::West => (first.0 - 1, first.1),
        };
        self.body.insert(0, new_part);
        proof {
            assert(self.body@ =~= seq![new_part] + old(self).body@);
        }
    }

    /// Advances the snake one cell along its heading: the new head is
    /// prepended, the tail cell is dropped and remembered in `last`.
    /// A move across the north or west edge is refused and changes nothing.
    pub fn update_position(&mut self) -> (r: Result<(), OutOfBoundsError>)
        requires
            old(self).body@.len() >= 1,
            old(self).direction == Direction::East ==> old(self).head().0 < usize::MAX,
            old(self).direction == Direction::South ==> old(self).head().1 < usize::MAX,
        ensures
            final(self).direction == old(self).direction,
            r is Err <==> !old(self).can_step(),
            r is Err ==> *final(self) == *old(self),
            r is Ok ==> {
                &&& final(self).body@ == seq![
                        ((step_target(old(self).head(), old(self).direction).0) as usize,
                         (step_target(old(self).head(), old(self).direction).1) as usize),
                    ] + old(self).body@.drop_last()
                &&& final(self).body@.len() == old(self).body@.len()
                &&& final(self).last == Some(old(self).body@.last())
            },
            old(self).wf_body() ==> final(self).wf_body(),
    {
        let head = self.body[0];
        let new_position = match self.direction {
            Direction::North => {
                if head.1 == 0 {
                    return Err(OutOfBoundsError);
                }
                (head.0, head.1 - 1)
            },
            Direction::East => (head.0 + 1, head.1),
            Direction::South => (head.0, head.1 + 1),
            Direction::West => {
                if head.0 == 0 {
                    return Err(OutOfBoundsError);
                }
                (head.0 - 1, head.1)
            },
        };
        self.body.insert(0, new_position);
        let tail = self.body[self.body.len() - 1];
        self.last = Some(tail);
        self.body.pop();
        proof {
            assert(self.body@ =~= seq![new_position] + old(self).body@.drop_last());
        }
        Ok(())
    }
}

} // verus!
