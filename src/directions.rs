use vstd::prelude::*;
use vstd::string::StrSliceExecFns;

use crate::random::random_below;

verus! {

/// A heading on the grid.
#[derive(Clone, Copy, Debug, PartialEq, Eq, Structural)]
pub enum Direction {
    Down,
    Left,
    Right,
    Up,
}

/// The heading that points the other way.
pub open spec fn opposite_of(d: Direction) -> Direction {
    match d {
        Direction::Up => Direction::Down,
        Direction::Right => Direction::Left,
        Direction::Down => Direction::Up,
        Direction::Left => Direction::Right,
    }
}

/// The heading named by `s`, if it is one of the four lowercase names.
pub open spec fn parsed(s: Seq<char>) -> Option<Direction> {
    if s == "down"@ {
        Some(Direction::Down)
    } else if s == "left"@ {
        Some(Direction::Left)
    } else if s == "right"@ {
        Some(Direction::Right)
    } else if s == "up"@ {
        Some(Direction::Up)
    } else {
        None
    }
}

/// The headings of `ds`, in order, with every `d` left out.
pub open spec fn without(ds: Seq<Direction>, d: Direction) -> Seq<Direction> {
    ds.filter(|m: Direction| m != d)
}

/// Whether two strings hold the same characters.
fn same_text(s: &str, t: &str) -> (r: bool)
    ensures
        r == (s@ == t@),
{
    let n = s.unicode_len();
    if n != t.unicode_len() {
        return false;
    }
    let mut i: usize = 0;
    while i < n
        invariant
            n == s@.len(),
            n == t@.len(),
            i <= n,
            s@.subrange(0, i as int) == t@.subrange(0, i as int),
        decreases n - i,
    {
        if s.get_char(i) != t.get_char(i) {
            return false;
        }
        assert(s@.subrange(0, i + 1) == s@.subrange(0, i as int).push(s@[i as int]));
        assert(t@.subrange(0, i + 1) == t@.subrange(0, i as int).push(t@[i as int]));
        i = i + 1;
    }
    assert(s@ == s@.subrange(0, n as int));
    assert(t@ == t@.subrange(0, n as int));
    true
}

impl Direction {
    /// Reads one of the names `down`, `left`, `right`, `up` (lowercase);
    /// anything else gives `None`.
    pub fn from_str(direction: &str) -> (r: Option<Direction>)
        ensures
            r == parsed(direction@),
    {
        if same_text(direction, "down") {
            Some(Direction::Down)
        } else if same_text(direction, "left") {
            Some(Direction::Left)
        } else if same_text(direction, "right") {
            Some(Direction::Right)
        } else if same_text(direction, "up") {
            Some(Direction::Up)
        } else {
            None
        }
    }

    /// Up and Down swap, Left and Right swap.
    pub fn opposite(&self) -> (r: Direction)
        ensures
            r == opposite_of(*self),
    {
        match self {
            Direction::Up => Direction::Down,
            Direction::Right => Direction::Left,
            Direction::Down => Direction::Up,
            Direction::Left => Direction::Right,
        }
    }

    /// The headings of `directions`, in order, without those equal to
    /// `opposite`.
    pub fn reject_opposite(directions: Vec<Direction>, opposite: Direction) -> (r: Vec<Direction>)
        ensures
            r@ == without(directions@, opposite),
    {
        let mut kept: Vec<Direction> = Vec::new();
        let mut i: usize = 0;
        while i < directions.len()
            invariant
                i <= directions@.len(),
                kept@ == without(directions@.subrange(0, i as int), opposite),
            decreases directions@.len() - i,
        {
            let d = directions[i];
            proof {
                reveal(Seq::filter);
                assert(directions@.subrange(0, i + 1).drop_last() == directions@.subrange(
                    0,
                    i as int,
                ));
            }
            if d != opposite {
                kept.push(d);
            }
            i = i + 1;
        }
        assert(directions@.subrange(0, directions@.len() as int) == directions@);
        kept
    }

    /// One of the given headings, drawn uniformly at random.
    pub fn rand_from_collection(directions: Vec<Direction>) -> (r: Direction)
        requires
            directions@.len() > 0,
        ensures
            directions@.contains(r),
    {
        let i = random_below(directions.len());
        Direction::pick(&directions, i)
    }

    /// The heading at position `i` of `directions`.
    pub fn pick(directions: &Vec<Direction>, i: usize) -> (r: Direction)
        requires
            i < directions@.len(),
        ensures
            r == directions@[i as int],
    {
        directions[i]
    }

    /// One of the four headings, drawn uniformly at random.
    pub fn rand() -> (r: Direction) {
        Direction::from_draw(random_below(4))
    }

    /// The heading that a draw below four stands for: Up, Right, Down, Left
    /// in that order, so that each heading comes from exactly one draw.
    pub fn from_draw(draw: usize) -> (r: Direction)
        requires
            draw < 4,
        ensures
            r == seq![Direction::Up, Direction::Right, Direction::Down, Direction::Left][draw as int],
    {
        if draw == 0 {
            Direction::Up
        } else if draw == 1 {
            Direction::Right
        } else if draw == 2 {
            Direction::Down
        } else {
            Direction::Left
        }
    }
}

} // verus!
