use vstd::prelude::*;

use crate::directions::{opposite_of, without, Direction};
use crate::point::{lemma_moved_on_grid, lemma_moves_compose, Point, SIDE};
use crate::random::random_below;
use crate::snake::{line, slithered, Snake};

verus! {

/// Number of cells of a freshly built snake.
pub const SNAKE_START_LEN: u16 = 3;

/// The cell where every new snake puts its head.
pub open spec fn center() -> Point {
    Point { x: SIDE / 2, y: SIDE / 2 }
}

/// The `i`-th cell of the grid in row-major order.
pub open spec fn cell(i: int) -> Point {
    Point { x: (i % (SIDE as int)) as u16, y: (i / (SIDE as int)) as u16 }
}

/// The cells of the grid, row by row from the top, each row from the left.
pub open spec fn all_cells() -> Seq<Point> {
    Seq::new((SIDE * SIDE) as nat, |i: int| cell(i))
}

/// The cells of the grid that `body` leaves free, in row-major order.
pub open spec fn free_of(body: Seq<Point>) -> Seq<Point> {
    free_among(all_cells(), body)
}

/// The cells of `cells`, in order, that `body` does not occupy.
pub open spec fn free_among(cells: Seq<Point>, body: Seq<Point>) -> Seq<Point> {
    cells.filter(|p: Point| !body.contains(p))
}

/// Whether the head, moved one cell in `heading`, lands on a cell of `body`
/// other than its current head and its current tail.
pub open spec fn bites(body: Seq<Point>, heading: Direction) -> bool {
    body.len() >= 2 && body.subrange(1, body.len() - 1).contains(body[0].moved(heading, 1))
}

/// The score after one more meal; it stays at the largest value once there.
pub open spec fn next_score(score: u16) -> u16 {
    if score < u16::MAX {
        (score + 1) as u16
    } else {
        score
    }
}

/// The heading a tick may take from the queued headings: the current one
/// when every queued heading would reverse the snake, else one of the
/// queued headings that does not.
pub open spec fn resolves_to(current: Direction, queued: Seq<Direction>, h: Direction) -> bool {
    let candidates = without(queued, opposite_of(current));
    if candidates.len() == 0 {
        h == current
    } else {
        candidates.contains(h)
    }
}

/// The board state of one game: grid size, food, snake and score.
#[derive(Debug)]
pub struct Game {
    pub width: u16,
    pub height: u16,
    pub food: Option<Point>,
    pub snake: Snake,
    pub score: u16,
}

/// Food lies on a free cell, or no cell is free.
pub open spec fn food_settled(g: Game) -> bool {
    match g.food {
        Some(_) => true,
        None => forall|p: Point| p.on_grid() ==> g.snake.body@.contains(p),
    }
}

/// What one tick with resolved heading `h` makes of `before`: on a bite a
/// fresh snake of the start length at the center, score zero and food
/// placed; else the snake moved in `h`, growing later if it ate, the score
/// raised by a meal, and new food after a meal or when there was none.
pub open spec fn ticked(before: Game, after: Game, h: Direction) -> bool {
    let body = before.snake.body@;
    if bites(body, h) {
        &&& after.snake.body@ == line(center(), SNAKE_START_LEN as nat, after.snake.direction)
        &&& !after.snake.digesting
        &&& after.score == 0
        &&& food_settled(after)
    } else {
        let moved = slithered(body, h, before.snake.digesting);
        let ate = before.food == Some(moved[0]);
        &&& after.snake.body@ == moved
        &&& after.snake.direction == h
        &&& after.snake.digesting == ate
        &&& after.score == (if ate {
            next_score(before.score)
        } else {
            before.score
        })
        &&& if ate || before.food is None {
            food_settled(after)
        } else {
            after.food == before.food
        }
    }
}

impl Game {
    /// The grid is square with the fixed side, every cell of the snake lies
    /// on it, and food, when there is some, lies on a cell the snake does
    /// not occupy.
    pub open spec fn wf(&self) -> bool {
        &&& self.board_ok()
        &&& match self.food {
            Some(f) => f.on_grid() && !self.snake.body@.contains(f),
            None => true,
        }
    }

    /// The grid is square with the fixed side and the snake lies on it.
    pub open spec fn board_ok(&self) -> bool {
        &&& self.width == SIDE
        &&& self.height == SIDE
        &&& self.snake.wf()
        &&& forall|p: Point| #[trigger] self.snake.body@.contains(p) ==> p.on_grid()
    }

    /// A new game: no food yet, score zero, and a snake of the start length
    /// at the center with a random heading.
    pub fn new() -> (r: Game)
        ensures
            r.wf(),
            r.food is None,
            r.score == 0,
            r.snake.body@ == line(center(), SNAKE_START_LEN as nat, r.snake.direction),
            !r.snake.digesting,
    {
        let snake = Snake::new(Point::new(SIDE / 2, SIDE / 2), SNAKE_START_LEN, Direction::rand());
        proof {
            lemma_line_on_grid(center(), SNAKE_START_LEN as nat, snake.direction);
        }
        Game { width: SIDE, height: SIDE, food: None, snake, score: 0 }
    }

    /// One tick: resolves the heading from the queued ones, moves the
    /// snake, restarts on a bite, eats food under the new head and keeps
    /// food on the board.
    pub fn run(&mut self, directions: Vec<Direction>)
        requires
            old(self).wf(),
        ensures
            final(self).wf(),
            final(self).food is Some || forall|p: Point| #[trigger] p.on_grid() ==> final(self).snake.body@.contains(p),
            exists|h: Direction|
                resolves_to(old(self).snake.direction, directions@, h)
                    && #[trigger] ticked(*old(self), *final(self), h),
    {
        let ghost before = *self;
        let mut slither_towards = self.snake.direction;
        if directions.len() > 0 {
            let opposite_to_current_direction = self.snake.direction.opposite();
            let filtered_directions = Direction::reject_opposite(directions, opposite_to_current_direction);
            if filtered_directions.len() > 0 {
                slither_towards = Direction::rand_from_collection(filtered_directions);
            }
        }
        self.snake.set_direction(slither_towards);
        let bitten = self.has_bitten_itself();
        self.snake.slither();
        if bitten {
            self.restart();
        } else {
            proof {
                lemma_slithered_keeps(before, slither_towards);
                assert(before.snake.body@.contains(before.snake.body@[0]));
                lemma_moved_on_grid(before.snake.body@[0], slither_towards, 1);
            }
            if let Some(food) = self.food {
                if self.snake.get_head_point() == food {
                    self.snake.grow();
                    self.food = None;
                    if self.score < u16::MAX {
                        self.score = self.score + 1;
                    }
                }
            }
        }
        if self.food.is_none() {
            self.place_food();
        }
        assert(ticked(before, *self, slither_towards));
    }

    /// Puts food on a free cell drawn uniformly at random, or takes it off
    /// the board when no cell is free.
    pub fn place_food(&mut self)
        requires
            old(self).board_ok(),
        ensures
            final(self).wf(),
            final(self).snake == old(self).snake,
            final(self).score == old(self).score,
            food_settled(*final(self)),
    {
        let free = self.free_cells();
        if free.len() > 0 {
            let i = random_below(free.len());
            proof {
                broadcast use Seq::lemma_filter_pred, Seq::lemma_filter_contains_rev;

                let pred = |p: Point| !self.snake.body@.contains(p);
                assert(pred(free@[i as int]));
                assert(free@.contains(free@[i as int]));
                assert(all_cells().contains(free@[i as int]));
            }
            self.food = Some(free[i]);
        } else {
            proof {
                assert forall|p: Point| p.on_grid() implies self.snake.body@.contains(p) by {
                    broadcast use Seq::lemma_filter_contains;

                    let k = p.y * SIDE + p.x;
                    assert(all_cells()[k as int] == p);
                    if !self.snake.body@.contains(p) {
                        let pred = |q: Point| !self.snake.body@.contains(q);
                        assert(all_cells().filter(pred).contains(all_cells()[k as int]));
                    }
                }
            }
            self.food = None;
        }
    }

    /// The cells of the grid that the snake leaves free, in row-major order.
    pub fn free_cells(&self) -> (r: Vec<Point>)
        ensures
            r@ == free_of(self.snake.body@),
    {
        let mut free: Vec<Point> = Vec::new();
        let mut k: u16 = 0;
        while k < SIDE * SIDE
            invariant
                k <= SIDE * SIDE,
                free@ == free_among(all_cells().subrange(0, k as int), self.snake.body@),
            decreases SIDE * SIDE - k,
        {
            let p = Point::new(k % SIDE, k / SIDE);
            proof {
                reveal(Seq::filter);
                assert(all_cells().subrange(0, k + 1).drop_last() == all_cells().subrange(0, k as int));
                assert(all_cells().subrange(0, k + 1).last() == p);
            }
            if !self.snake.contains_point(&p) {
                free.push(p);
            }
            k = k + 1;
        }
        assert(all_cells().subrange(0, (SIDE * SIDE) as int) == all_cells());
        free
    }

    /// Whether the next move in the snake's heading bites its own body.
    fn has_bitten_itself(&self) -> (r: bool)
        requires
            self.snake.wf(),
        ensures
            r == bites(self.snake.body@, self.snake.direction),
    {
        let body = &self.snake.body;
        let next_head_point = self.snake.get_head_point().transform(self.snake.get_direction(), 1);
        if body.len() < 2 {
            return false;
        }
        let ghost middle = body@.subrange(1, body@.len() - 1);
        let mut i: usize = 1;
        while i < body.len() - 1
            invariant
                1 <= i <= body@.len() - 1,
                body@.len() >= 2,
                middle == body@.subrange(1, body@.len() - 1),
                body@ == self.snake.body@,
                next_head_point == body@[0].moved(self.snake.direction, 1),
                forall|j: int| 0 <= j < i - 1 ==> middle[j] != next_head_point,
            decreases body@.len() - i,
        {
            if body[i] == next_head_point {
                assert(middle[i - 1] == next_head_point);
                assert(middle.contains(next_head_point));
                return true;
            }
            i = i + 1;
        }
        false
    }

    /// Starts over: a fresh snake, no food and score zero.
    fn restart(&mut self)
        requires
            old(self).width == SIDE,
            old(self).height == SIDE,
        ensures
            final(self).wf(),
            final(self).snake.body@ == line(center(), SNAKE_START_LEN as nat, final(self).snake.direction),
            !final(self).snake.digesting,
            final(self).food is None,
            final(self).score == 0,
    {
        self.snake = self.build_snake();
        self.food = None;
        self.score = 0;
    }

    /// A snake of the start length at the center, with a random heading.
    fn build_snake(&self) -> (r: Snake)
        ensures
            r.wf(),
            r.body@ == line(center(), SNAKE_START_LEN as nat, r.direction),
            !r.digesting,
            forall|p: Point| #[trigger] r.body@.contains(p) ==> p.on_grid(),
    {
        let snake = Snake::new(Point::new(SIDE / 2, SIDE / 2), SNAKE_START_LEN, Direction::rand());
        proof {
            lemma_line_on_grid(center(), SNAKE_START_LEN as nat, snake.direction);
        }
        snake
    }
}

/// The heading a tick resolves to never turns the snake straight back.
pub proof fn lemma_never_reverses(current: Direction, queued: Seq<Direction>, h: Direction)
    requires
        resolves_to(current, queued, h),
    ensures
        h != opposite_of(current),
{
    broadcast use Seq::lemma_filter_pred;

    let candidates = without(queued, opposite_of(current));
    if candidates.len() > 0 {
        let i = choose|i: int| 0 <= i < candidates.len() && candidates[i] == h;
        assert((|m: Direction| m != opposite_of(current))(candidates[i]));
    }
}

/// In a well-formed game, food never lies on the snake.
pub proof fn lemma_food_off_snake(g: Game)
    requires
        g.wf(),
    ensures
        g.food matches Some(f) ==> !g.snake.body@.contains(f),
{
}

/// A tick whose new head lands on the food scores one, takes that food off
/// the board, keeps the length for now and leaves the snake digesting; the
/// next tick without a bite then adds one cell.
pub proof fn lemma_eating(before: Game, after: Game, h: Direction, later: Game, h2: Direction)
    requires
        before.wf(),
        after.wf(),
        !before.snake.digesting,
        !bites(before.snake.body@, h),
        before.food == Some(before.snake.body@[0].moved(h, 1)),
        before.score < u16::MAX,
        ticked(before, after, h),
        !bites(after.snake.body@, h2),
        ticked(after, later, h2),
    ensures
        after.score == before.score + 1,
        after.food != before.food,
        after.snake.body@.len() == before.snake.body@.len(),
        after.snake.digesting,
        later.snake.body@.len() == before.snake.body@.len() + 1,
{
    let moved = slithered(before.snake.body@, h, false);
    assert(after.snake.body@[0] == moved[0]);
    assert(after.snake.body@.contains(moved[0]));
}

/// A tick without a bite and without a meal moves the head one cell in the
/// resolved heading and keeps the length, the score and the food.
pub proof fn lemma_quiet_tick(before: Game, after: Game, h: Direction)
    requires
        before.wf(),
        !before.snake.digesting,
        !bites(before.snake.body@, h),
        before.food != Some(before.snake.body@[0].moved(h, 1)),
        ticked(before, after, h),
    ensures
        after.snake.body@[0] == before.snake.body@[0].moved(h, 1),
        after.snake.body@.len() == before.snake.body@.len(),
        after.score == before.score,
        !after.snake.digesting,
        after.snake.direction == h,
{
}

/// A straight snake of three cells heading right does not bite itself, and
/// its move keeps it straight, one cell further right.
proof fn lemma_straight_step(start: Point)
    requires
        start.on_grid(),
    ensures
        !bites(line(start, 3, Direction::Right), Direction::Right),
        slithered(line(start, 3, Direction::Right), Direction::Right, false) == line(
            start.moved(Direction::Right, 1),
            3,
            Direction::Right,
        ),
        start.moved(Direction::Right, 1).on_grid(),
{
    let b = line(start, 3, Direction::Right);
    let n = start.moved(Direction::Right, 1);
    lemma_moved_on_grid(start, Direction::Right, 1);
    vstd::arithmetic::div_mod::lemma_small_mod(start.x as nat, 10);
    vstd::arithmetic::div_mod::lemma_small_mod(n.x as nat, 10);
    assert(b[0] == start);
    assert(b.subrange(1, 2) =~= seq![b[1]]);
    assert(slithered(b, Direction::Right, false) =~= line(n, 3, Direction::Right));
}

/// Each game of `games` comes from the one before by a tick with nothing
/// queued, and no food lies on the cell that the head enters.
pub open spec fn quiet_run(games: Seq<Game>, headings: Seq<Direction>) -> bool {
    forall|i: int|
        0 <= i < headings.len() ==> {
            &&& games[i + 1].wf()
            &&& resolves_to(games[i].snake.direction, Seq::empty(), #[trigger] headings[i])
            &&& ticked(games[i], games[i + 1], headings[i])
            &&& games[i].snake.body@.len() > 0
            &&& games[i].food != Some(games[i].snake.body@[0].moved(headings[i], 1))
        }
}

/// Five ticks with nothing queued, from a straight snake of three cells at
/// the center heading right, and with no food on the cell the head enters:
/// the head ends five cells further right, and length and score stay put.
pub proof fn lemma_five_quiet_ticks(games: Seq<Game>, headings: Seq<Direction>)
    requires
        games.len() == 6,
        headings.len() == 5,
        games[0].wf(),
        games[0].snake.body@ == line(center(), 3, Direction::Right),
        games[0].snake.direction == Direction::Right,
        !games[0].snake.digesting,
        games[0].score == 0,
        quiet_run(games, headings),
    ensures
        games[5].snake.body@[0] == center().moved(Direction::Right, 5),
        forall|i: int| 0 <= i <= 5 ==> (#[trigger] games[i]).snake.body@.len() == 3 && games[i].score == 0,
{
    vstd::arithmetic::div_mod::lemma_small_mod(center().x as nat, 10);
    assert(center().moved(Direction::Right, 0) == center());
    lemma_quiet_ticks_from(games, headings, 0);
}

/// The five-tick run above, from tick `k` on.
proof fn lemma_quiet_ticks_from(games: Seq<Game>, headings: Seq<Direction>, k: int)
    requires
        games.len() == 6,
        headings.len() == 5,
        0 <= k <= 5,
        quiet_run(games, headings),
        games[k].wf(),
        games[k].snake.body@ == line(center().moved(Direction::Right, k), 3, Direction::Right),
        games[k].snake.direction == Direction::Right,
        !games[k].snake.digesting,
        games[k].score == 0,
    ensures
        games[5].snake.body@[0] == center().moved(Direction::Right, 5),
        forall|i: int| k <= i <= 5 ==> (#[trigger] games[i]).snake.body@.len() == 3 && games[i].score == 0,
    decreases 5 - k,
{
    let head = center().moved(Direction::Right, k);
    lemma_moved_on_grid(center(), Direction::Right, k);
    vstd::arithmetic::div_mod::lemma_small_mod(head.x as nat, 10);
    assert(line(head, 3, Direction::Right)[0] == head);
    if k < 5 {
        let h = headings[k];
        assert(resolves_to(games[k].snake.direction, Seq::empty(), headings[k]));
        assert(without(Seq::<Direction>::empty(), opposite_of(Direction::Right)).len() == 0) by {
            reveal(Seq::filter);
        }
        assert(h == Direction::Right);
        lemma_straight_step(head);
        lemma_quiet_tick(games[k], games[k + 1], h);
        lemma_moves_compose(center(), Direction::Right, k as nat, 1);
        lemma_quiet_ticks_from(games, headings, k + 1);
    }
}

/// Every cell of a straight body that starts on the grid lies on the grid.
proof fn lemma_line_on_grid(start: Point, length: nat, heading: Direction)
    requires
        start.on_grid(),
    ensures
        forall|p: Point| #[trigger] line(start, length, heading).contains(p) ==> p.on_grid(),
{
    assert forall|p: Point| #[trigger] line(start, length, heading).contains(p) implies p.on_grid() by {
        let i = choose|i: int| 0 <= i < length && line(start, length, heading)[i] == p;
        lemma_moved_on_grid(start, opposite_of(heading), i);
    }
}

/// Every cell of a moved body is the new head or a cell of the old body.
proof fn lemma_slithered_keeps(before: Game, h: Direction)
    requires
        before.snake.wf(),
    ensures
        forall|p: Point| #[trigger] slithered(before.snake.body@, h, before.snake.digesting).contains(p)
            ==> p == before.snake.body@[0].moved(h, 1) || before.snake.body@.contains(p),
{
    let b = before.snake.body@;
    let s = slithered(b, h, before.snake.digesting);
    assert forall|p: Point| #[trigger] s.contains(p) implies p == b[0].moved(h, 1) || b.contains(p) by {
        let i = choose|i: int| 0 <= i < s.len() && s[i] == p;
        if i > 0 {
            assert(b[i - 1] == p);
        }
    }
}

} // verus!
