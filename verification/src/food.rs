use vstd::prelude::*;
use crate::grid::Vec2d;

verus! {

/// The food: a single cell inside the grid's interior.
#[derive(PartialEq, Eq, Structural, Clone, Copy, Debug)]
pub struct Food {
    pub x: usize,
    pub y: usize,
}

impl Food {
    /// Picks a random interior cell for fresh food. When the previous food
    /// is given and the first draw shares its row or column, one more draw
    /// replaces it (a best-effort spreading heuristic, not an exclusion).
    pub fn new(grid: &Vec2d, old_food: Option<Food>, rng: &mut rand::rngs::StdRng) -> (f: Food)
        requires
            grid.width >= 1,
            grid.height >= 2,
        ensures
            f.x < grid.width,
            1 <= f.y < grid.height,
    {
        let (mut x, mut y) = grid.pick_random(rng);
        if let Some(old) = old_food {
            if x == old.x || y == old.y {
                let (x2, y2) = grid.pick_random(rng);
                x = x2;
                y = y2;
            }
        }
        Food { x, y }
    }
}

} // verus!
