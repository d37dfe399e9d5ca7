use vstd::prelude::*;

use crate::directions::{opposite_of, Direction};

verus! {

/// Number of cells along each side of the square grid.
pub const SIDE: u16 = 10;

/// A coordinate reduced onto the torus: Euclidean remainder by the side.
pub open spec fn wrap(v: int) -> int {
    v % (SIDE as int)
}

/// A cell of the grid.
#[derive(Clone, Copy, Debug, PartialEq, Eq, Hash, Structural)]
pub struct Point {
    pub x: u16,
    pub y: u16,
}

impl Point {
    /// Both coordinates lie inside the grid.
    pub open spec fn on_grid(self) -> bool {
        self.x < SIDE && self.y < SIDE
    }

    /// The point `steps` cells away in direction `d`, wrapping around the
    /// edges; the coordinate across the direction of travel is untouched.
    pub open spec fn moved(self, d: Direction, steps: int) -> Point {
        match d {
            Direction::Up => Point { x: self.x, y: wrap(self.y - steps) as u16 },
            Direction::Down => Point { x: self.x, y: wrap(self.y + steps) as u16 },
            Direction::Left => Point { x: wrap(self.x - steps) as u16, y: self.y },
            Direction::Right => Point { x: wrap(self.x + steps) as u16, y: self.y },
        }
    }

    pub fn new(x: u16, y: u16) -> (r: Point)
        ensures
            r == (Point { x, y }),
    {
        Point { x, y }
    }

    /// Translates the point `times` cells in `direction` on the torus.
    pub fn transform(&self, direction: Direction, times: u16) -> (r: Point)
        ensures
            r == self.moved(direction, times as int),
    {
        let by = times as i32;
        match direction {
            Direction::Up => Point::new(self.x, Self::transform_value(self.y, -by)),
            Direction::Right => Point::new(Self::transform_value(self.x, by), self.y),
            Direction::Down => Point::new(self.x, Self::transform_value(self.y, by)),
            Direction::Left => Point::new(Self::transform_value(self.x, -by), self.y),
        }
    }

    /// One coordinate moved by `by` cells, wrapped onto the grid.
    fn transform_value(value: u16, by: i32) -> (r: u16)
        requires
            -65535 <= by <= 65535,
        ensures
            r as int == wrap(value + by),
    {
        if by >= 0 {
            ((value as u32 + by as u32) % (SIDE as u32)) as u16
        } else {
            let back = ((-by) as u32) % (SIDE as u32);
            let base = (value as u32) % (SIDE as u32);
            let r = ((base + SIDE as u32 - back) % (SIDE as u32)) as u16;
            proof {
                let v = value as int;
                let b = -by as int;
                assert(b % 10 == b - (b / 10) * 10);
                assert(v % 10 == v - (v / 10) * 10);
                assert((v % 10 + 10 - b % 10) % 10 == (v - b) % 10) by (nonlinear_arith);
            }
            r
        }
    }
}

/// Moving a cell of the grid leaves it on the grid.
pub proof fn lemma_moved_on_grid(p: Point, d: Direction, steps: int)
    requires
        p.on_grid(),
    ensures
        p.moved(d, steps).on_grid(),
{
}

/// Stepping one cell in a direction and one cell back in the opposite
/// direction returns to the starting cell.
pub proof fn lemma_step_and_back(p: Point, d: Direction)
    requires
        p.on_grid(),
    ensures
        p.moved(d, 1).moved(opposite_of(d), 1) == p,
{
}

/// Moving `a` cells and then `b` cells in one direction is moving `a + b`
/// cells in it.
pub proof fn lemma_moves_compose(p: Point, d: Direction, a: nat, b: nat)
    ensures
        p.moved(d, a as int).moved(d, b as int) == p.moved(d, (a + b) as int),
{
    match d {
        Direction::Up => {
            lemma_wrap_add(p.y - a, -(b as int));
        },
        Direction::Down => {
            lemma_wrap_add(p.y + a, b as int);
        },
        Direction::Left => {
            lemma_wrap_add(p.x - a, -(b as int));
        },
        Direction::Right => {
            lemma_wrap_add(p.x + a, b as int);
        },
    }
}

proof fn lemma_wrap_add(v: int, k: int)
    ensures
        wrap(wrap(v) + k) == wrap(v + k),
{
    vstd::arithmetic::div_mod::lemma_add_mod_noop(v, k, SIDE as int);
    vstd::arithmetic::div_mod::lemma_mod_twice(k, SIDE as int);
}

} // verus!
