use vstd::prelude::*;

use crate::directions::{opposite_of, Direction};
use crate::point::Point;

verus! {

/// A straight body of `length` cells: the head at `start`, the rest laid
/// out behind it, against `heading`.
pub open spec fn line(start: Point, length: nat, heading: Direction) -> Seq<Point> {
    Seq::new(length, |i: int| start.moved(opposite_of(heading), i))
}

/// The body after one move: a new head one cell ahead of the old one, and
/// the tail dropped unless the snake is digesting.
pub open spec fn slithered(body: Seq<Point>, heading: Direction, digesting: bool) -> Seq<Point> {
    let longer = seq![body[0].moved(heading, 1)] + body;
    if digesting {
        longer
    } else {
        longer.drop_last()
    }
}

/// The snake: its cells from head to tail, where it heads, and whether it
/// grows on its next move.
#[derive(Debug)]
pub struct Snake {
    pub body: Vec<Point>,
    pub direction: Direction,
    pub digesting: bool,
}

impl Snake {
    /// A snake always has a head.
    pub open spec fn wf(&self) -> bool {
        self.body@.len() > 0
    }

    /// A straight snake of `length` cells with its head at `start`, heading
    /// `direction`.
    pub fn new(start: Point, length: u16, direction: Direction) -> (r: Snake)
        requires
            length >= 1,
        ensures
            r.wf(),
            r.body@ == line(start, length as nat, direction),
            r.direction == direction,
            !r.digesting,
    {
        let opposite = direction.opposite();
        let mut body: Vec<Point> = Vec::new();
        let mut i: u16 = 0;
        while i < length
            invariant
                i <= length,
                opposite == opposite_of(direction),
                body@ == line(start, i as nat, direction),
            decreases length - i,
        {
            body.push(start.transform(opposite, i));
            i = i + 1;
            assert(body@ =~= line(start, i as nat, direction));
        }
        Snake { body, direction, digesting: false }
    }

    pub fn get_head_point(&self) -> (r: Point)
        requires
            self.wf(),
        ensures
            r == self.body@[0],
    {
        self.body[0]
    }

    pub fn get_body_points(&self) -> (r: Vec<Point>)
        ensures
            r@ == self.body@,
    {
        let mut points: Vec<Point> = Vec::new();
        let mut i: usize = 0;
        while i < self.body.len()
            invariant
                i <= self.body@.len(),
                points@ == self.body@.subrange(0, i as int),
            decreases self.body@.len() - i,
        {
            points.push(self.body[i]);
            i = i + 1;
            assert(points@ =~= self.body@.subrange(0, i as int));
        }
        assert(self.body@.subrange(0, self.body@.len() as int) == self.body@);
        points
    }

    pub fn get_direction(&self) -> (r: Direction)
        ensures
            r == self.direction,
    {
        self.direction
    }

    /// Whether some cell of the body is `point`.
    pub fn contains_point(&self, point: &Point) -> (r: bool)
        ensures
            r == self.body@.contains(*point),
    {
        let mut i: usize = 0;
        while i < self.body.len()
            invariant
                i <= self.body@.len(),
                forall|j: int| 0 <= j < i ==> self.body@[j] != *point,
            decreases self.body@.len() - i,
        {
            if self.body[i] == *point {
                return true;
            }
            i = i + 1;
        }
        false
    }

    /// Moves one cell ahead; the body keeps its length, or grows by one
    /// cell when the snake is digesting, which ends the digestion.
    pub fn slither(&mut self)
        requires
            old(self).wf(),
        ensures
            final(self).wf(),
            final(self).body@ == slithered(old(self).body@, old(self).direction, old(self).digesting),
            final(self).direction == old(self).direction,
            !final(self).digesting,
    {
        let head = self.body[0].transform(self.direction, 1);
        self.body.insert(0, head);
        if !self.digesting {
            let last = self.body.len() - 1;
            self.body.remove(last);
        } else {
            self.digesting = false;
        }
        assert(self.body@ =~= slithered(old(self).body@, old(self).direction, old(self).digesting));
    }

    /// Turns the snake; whether the turn is allowed is for the caller.
    pub fn set_direction(&mut self, direction: Direction)
        ensures
            final(self).body@ == old(self).body@,
            final(self).direction == direction,
            final(self).digesting == old(self).digesting,
    {
        self.direction = direction;
    }

    /// Marks the snake as digesting: it grows on its next move.
    pub fn grow(&mut self)
        ensures
            final(self).body@ == old(self).body@,
            final(self).direction == old(self).direction,
            final(self).digesting,
    {
        self.digesting = true;
    }
}

/// A snake built with three cells heading right has its head at the start
/// and the next two cells to the left of it, in that order.
pub proof fn lemma_three_cells_heading_right(start: Point)
    requires
        start.on_grid(),
    ensures
        line(start, 3, Direction::Right) == seq![
            start,
            start.moved(Direction::Left, 1),
            start.moved(Direction::Left, 2),
        ],
{
    let l = line(start, 3, Direction::Right);
    assert(start.moved(Direction::Left, 0) == start) by {
        vstd::arithmetic::div_mod::lemma_small_mod(start.x as nat, 10);
    };
    assert(l =~= seq![start, start.moved(Direction::Left, 1), start.moved(Direction::Left, 2)]);
}

/// A move keeps the length of a body that is not digesting and adds one
/// cell to one that is; the move after that keeps the length again.
pub proof fn lemma_slither_lengths(body: Seq<Point>, heading: Direction, next: Direction)
    requires
        body.len() > 0,
    ensures
        slithered(body, heading, false).len() == body.len(),
        slithered(body, heading, true).len() == body.len() + 1,
        slithered(slithered(body, heading, true), next, false).len() == body.len() + 1,
{
}

} // verus!
