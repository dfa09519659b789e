use rand::Rng;
use std::collections::VecDeque;
use vstd::prelude::*;

verus! {

/// A grid cell `(x, y)`.
pub type Cell = (u16, u16);

/// The four directions in which the snake can move.
#[derive(PartialEq, Eq, Structural, Clone, Copy, Debug)]
pub enum SnakeDirection {
    Up,
    Down,
    Left,
    Right,
}

/// The direction that points the other way.
pub open spec fn opposite(d: SnakeDirection) -> SnakeDirection {
    match d {
        SnakeDirection::Up => SnakeDirection::Down,
        SnakeDirection::Down => SnakeDirection::Up,
        SnakeDirection::Left => SnakeDirection::Right,
        SnakeDirection::Right => SnakeDirection::Left,
    }
}

/// The cell one step from `c` in direction `d`; a coordinate never goes below
/// zero nor above `u16::MAX`, it stays where it is instead.
pub open spec fn moved(c: Cell, d: SnakeDirection) -> Cell {
    match d {
        SnakeDirection::Up => (c.0, if c.1 == 0 { 0u16 } else { (c.1 - 1) as u16 }),
        SnakeDirection::Down => (c.0, if c.1 == u16::MAX { u16::MAX } else { (c.1 + 1) as u16 }),
        SnakeDirection::Left => (if c.0 == 0 { 0u16 } else { (c.0 - 1) as u16 }, c.1),
        SnakeDirection::Right => (if c.0 == u16::MAX { u16::MAX } else { (c.0 + 1) as u16 }, c.1),
    }
}

/// `c` lies on a board of `width` columns and `height` rows.
pub open spec fn on_board(c: Cell, width: u16, height: u16) -> bool {
    c.0 < width && c.1 < height
}

/// `c` is on the board and not covered by `body`: food may be placed there.
pub open spec fn is_free(body: Seq<Cell>, width: u16, height: u16, c: Cell) -> bool {
    on_board(c, width, height) && !body.contains(c)
}

/// Some cell of the board is not covered by `body`.
pub open spec fn has_free_cell(body: Seq<Cell>, width: u16, height: u16) -> bool {
    exists|c: Cell| is_free(body, width, height, c)
}

/// `a` comes before `b` when the board is read row by row.
pub open spec fn row_major_before(a: Cell, b: Cell) -> bool {
    a.1 < b.1 || (a.1 == b.1 && a.0 < b.0)
}

/// Whether `body` covers the cell `c`.
pub fn body_contains(body: &VecDeque<Cell>, c: Cell) -> (r: bool)
    ensures
        r == body@.contains(c),
{
    let mut i: usize = 0;
    while i < body.len()
        invariant
            i <= body@.len(),
            forall|j: int| 0 <= j < i ==> body@[j] != c,
        decreases body@.len() - i,
    {
        let d = body[i];
        if d.0 == c.0 && d.1 == c.1 {
            assert(body@[i as int] == c);
            return true;
        }
        i += 1;
    }
    false
}

/// The first cell, reading the board row by row, that `body` leaves free, or
/// `None` when the body covers the whole board.
pub fn first_free_cell(body: &VecDeque<Cell>, width: u16, height: u16) -> (r: Option<Cell>)
    ensures
        r is None <==> !has_free_cell(body@, width, height),
        r matches Some(c) ==> is_free(body@, width, height, c) && forall|e: Cell|
            #[trigger] row_major_before(e, c) ==> !is_free(body@, width, height, e),
{
    let mut y: u16 = 0;
    while y < height
        invariant
            y <= height,
            forall|e: Cell| e.1 < y ==> !#[trigger] is_free(body@, width, height, e),
        decreases height - y,
    {
        let mut x: u16 = 0;
        while x < width
            invariant
                x <= width,
                y < height,
                forall|e: Cell|
                    (e.1 < y || (e.1 == y && e.0 < x)) ==> !#[trigger] is_free(body@, width, height, e),
            decreases width - x,
        {
            if !body_contains(body, (x, y)) {
                let c: Cell = (x, y);
                assert(is_free(body@, width, height, c));
                return Some(c);
            }
            x += 1;
        }
        y += 1;
    }
    None
}

/// Relies on rand's `thread_rng().gen_range(0..n)`: a value drawn from
/// `0..n`, which panics when that range is empty.
#[verifier::external_body]
fn random_below(n: u16) -> (r: u16)
    requires
        n > 0,
    ensures
        r < n,
{
    rand::thread_rng().gen_range(0..n)
}

/// How many random cells food placement tries before it scans the board.
const FOOD_DRAWS: u32 = 32;

/// The state of one round.
pub struct Game {
    /// The body, head first.
    pub snake: VecDeque<Cell>,
    pub food: Cell,
    pub direction: SnakeDirection,
    pub score: u32,
    pub game_over: bool,
}

impl Game {
    /// Every reachable state keeps a non-empty body; while the round runs the
    /// body never overlaps itself and the food lies outside it.
    pub open spec fn wf(&self) -> bool {
        &&& self.snake@.len() > 0
        &&& !self.game_over ==> self.snake@.no_duplicates() && !self.snake@.contains(self.food)
    }

    /// Where the head goes on the next tick.
    pub open spec fn next_head(&self) -> Cell {
        moved(self.snake@[0], self.direction)
    }

    /// The next step runs into a wall or into the body itself.
    pub open spec fn crashes(&self, width: u16, height: u16) -> bool {
        !on_board(self.next_head(), width, height) || self.snake@.contains(self.next_head())
    }

    /// The next tick moves the head onto the food.
    pub open spec fn eats(&self, width: u16, height: u16) -> bool {
        !self.game_over && !self.crashes(width, height) && self.next_head() == self.food
    }

    /// A fresh round: a single cell at `(10, 10)` heading right, food at `(5, 5)`.
    pub fn new() -> (g: Self)
        ensures
            g.snake@ == seq![(10u16, 10u16)],
            g.food == (5u16, 5u16),
            g.direction == SnakeDirection::Right,
            g.score == 0,
            !g.game_over,
            g.wf(),
    {
        let mut snake = VecDeque::new();
        snake.push_back((10, 10));
        Game { snake, food: (5, 5), direction: SnakeDirection::Right, score: 0, game_over: false }
    }

    /// Turns the snake towards `new_direction`, unless that would reverse it.
    pub fn set_direction(&mut self, new_direction: SnakeDirection)
        ensures
            final(self).direction == (if new_direction == opposite(old(self).direction) {
                old(self).direction
            } else {
                new_direction
            }),
            final(self).snake@ == old(self).snake@,
            final(self).food == old(self).food,
            final(self).score == old(self).score,
            final(self).game_over == old(self).game_over,
            old(self).wf() ==> final(self).wf(),
    {
        let reverse = match self.direction {
            SnakeDirection::Up => SnakeDirection::Down,
            SnakeDirection::Down => SnakeDirection::Up,
            SnakeDirection::Left => SnakeDirection::Right,
            SnakeDirection::Right => SnakeDirection::Left,
        };
        if new_direction != reverse {
            self.direction = new_direction;
        }
    }

    /// Advances the round by one tick on a board of `width` by `height` cells.
    ///
    /// A finished round stays as it is. Otherwise the head moves one cell in the
    /// current direction; a step off the board or onto the body ends the round
    /// and leaves the body as it was. A step onto the food grows the body by the
    /// new head, scores a point and places new food (the round ends instead when
    /// the body fills the board); any other step moves the whole body along.
    pub fn update(&mut self, width: u16, height: u16)
        requires
            !old(self).game_over ==> old(self).snake@.len() > 0 && old(self).score < u32::MAX,
        ensures
            final(self).direction == old(self).direction,
            old(self).game_over ==> {
                &&& final(self).game_over
                &&& final(self).snake@ == old(self).snake@
                &&& final(self).food == old(self).food
                &&& final(self).score == old(self).score
            },
            !old(self).game_over && old(self).crashes(width, height) ==> {
                &&& final(self).game_over
                &&& final(self).snake@ == old(self).snake@
                &&& final(self).food == old(self).food
                &&& final(self).score == old(self).score
            },
            !old(self).game_over && !old(self).crashes(width, height) && !old(self).eats(
                width,
                height,
            ) ==> {
                &&& !final(self).game_over
                &&& final(self).snake@ == seq![old(self).next_head()] + old(self).snake@.drop_last()
                &&& final(self).food == old(self).food
                &&& final(self).score == old(self).score
            },
            old(self).eats(width, height) ==> {
                &&& final(self).snake@ == seq![old(self).next_head()] + old(self).snake@
                &&& final(self).score == old(self).score + 1
                &&& final(self).game_over == !has_free_cell(final(self).snake@, width, height)
                &&& !final(self).game_over ==> is_free(final(self).snake@, width, height, final(self).food)
                &&& final(self).game_over ==> final(self).food == old(self).food
            },
            old(self).wf() ==> final(self).wf(),
            final(self).snake@.len() >= old(self).snake@.len(),
            final(self).snake@.len() == old(self).snake@.len() + 1 <==> old(self).eats(width, height),
    {
        if self.game_over {
            return;
        }
        let head = self.snake[0];
        let new_head: Cell = match self.direction {
            SnakeDirection::Up => (head.0, head.1.saturating_sub(1)),
            SnakeDirection::Down => (head.0, head.1.saturating_add(1)),
            SnakeDirection::Left => (head.0.saturating_sub(1), head.1),
            SnakeDirection::Right => (head.0.saturating_add(1), head.1),
        };
        if new_head.0 >= width || new_head.1 >= height {
            self.game_over = true;
            return;
        }
        if body_contains(&self.snake, new_head) {
            self.game_over = true;
            return;
        }
        self.snake.push_front(new_head);
        if new_head.0 == self.food.0 && new_head.1 == self.food.1 {
            self.score += 1;
            if !self.generate_food(width, height) {
                self.game_over = true;
            }
        } else {
            self.snake.pop_back();
        }
    }

    /// Places the food on a free cell of the board: a few random draws, then,
    /// should they all land on the body, the first free cell row by row.
    /// Returns `false`, leaving the food where it was, when no cell is free.
    fn generate_food(&mut self, width: u16, height: u16) -> (placed: bool)
        requires
            width > 0,
            height > 0,
        ensures
            placed == has_free_cell(old(self).snake@, width, height),
            placed ==> is_free(old(self).snake@, width, height, final(self).food),
            !placed ==> final(self).food == old(self).food,
            final(self).snake@ == old(self).snake@,
            final(self).direction == old(self).direction,
            final(self).score == old(self).score,
            final(self).game_over == old(self).game_over,
    {
        let mut draws: u32 = 0;
        while draws < FOOD_DRAWS
            invariant
                width > 0,
                height > 0,
                *self == *old(self),
            decreases FOOD_DRAWS - draws,
        {
            let c: Cell = (random_below(width), random_below(height));
            if !body_contains(&self.snake, c) {
                assert(is_free(self.snake@, width, height, c));
                self.food = c;
                return true;
            }
            draws += 1;
        }
        match first_free_cell(&self.snake, width, height) {
            Some(c) => {
                self.food = c;
                true
            },
            None => false,
        }
    }
}

} // verus!
