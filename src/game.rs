//! The game state machine: moving on a timer, turning on input, eating,
//! dying on a wall or on the snake itself, and restarting after a delay.
//! Time is counted in whole microseconds.
use vstd::prelude::*;
use crate::food::{in_interior, is_free, spawn_food, FoodError};
use crate::snake::{can_step, heading_for, opposite_of, Direction, Snake, SnakeView};

verus! {

/// Time between two moves of the snake.
pub const MOVING_PERIOD_MICROS: u64 = 100_000;

/// Time that the game stays over before it starts again.
pub const RESTART_DELAY_MICROS: u64 = 1_000_000;

/// Column of the last cell of the snake when a game starts.
pub const START_X: i32 = 2;

/// Row of the snake when a game starts.
pub const START_Y: i32 = 2;

/// Column of the food when a game starts.
pub const FIRST_FOOD_X: i32 = 6;

/// Row of the food when a game starts.
pub const FIRST_FOOD_Y: i32 = 4;

/// The abstract state of a game.
pub struct GameView {
    pub snake: SnakeView,
    /// The food cell, if there is food on the board.
    pub food: Option<(i32, i32)>,
    pub score: i32,
    pub width: i32,
    pub height: i32,
    pub game_over: bool,
    /// Time since the last move, or since the game ended.
    pub waiting: u64,
    /// The heading asked for by input, taken on the next move.
    pub pending: Option<Direction>,
}

/// The snake as every game starts it.
pub open spec fn start_snake() -> SnakeView {
    SnakeView {
        body: seq![(4i32, 2i32), (3i32, 2i32), (2i32, 2i32)],
        direction: Direction::Right,
        tail: None,
    }
}

/// A fresh game on a board of the given size.
pub open spec fn initial(width: i32, height: i32) -> GameView {
    GameView {
        snake: start_snake(),
        food: Some((FIRST_FOOD_X, FIRST_FOOD_Y)),
        score: 0,
        width,
        height,
        game_over: false,
        waiting: 0,
        pending: None,
    }
}

/// `a + b`, or `u64::MAX` where that does not fit.
pub open spec fn saturating_sum(a: u64, b: u64) -> u64 {
    if a + b > u64::MAX {
        u64::MAX
    } else {
        (a + b) as u64
    }
}

/// One more point, unless the score is already the largest one.
pub open spec fn score_after_eating(score: i32) -> i32 {
    if score < i32::MAX {
        (score + 1) as i32
    } else {
        score
    }
}

impl GameView {
    /// The snake can take its next move without danger of overflow.
    pub open spec fn wf(self) -> bool {
        self.snake.wf() && can_step(self.snake.head())
    }

    pub open spec fn with_waiting(self, waiting: u64) -> GameView {
        GameView { waiting, ..self }
    }

    pub open spec fn with_food(self, c: (i32, i32)) -> GameView {
        GameView { food: Some(c), ..self }
    }

    /// The snake survives a move towards `dir`: its next head is inside the
    /// border and is not one of its cells but the last.
    pub open spec fn survives(self, dir: Option<Direction>) -> bool {
        let n = self.snake.next_head(dir);
        !self.snake.overlaps_tail(n) && in_interior(self.width, self.height, n)
    }

    /// The state after eating the food, if the head is on it.
    pub open spec fn after_eating(self) -> GameView {
        if self.food == Some(self.snake.head()) {
            GameView {
                snake: self.snake.restored(),
                food: None,
                score: score_after_eating(self.score),
                ..self
            }
        } else {
            self
        }
    }

    /// One move step towards `dir`: the snake moves and eats, or the game
    /// ends. Either way the timer starts again and the asked heading is used up.
    pub open spec fn moved(self, dir: Option<Direction>) -> GameView {
        let g = if self.survives(dir) {
            GameView { snake: self.snake.advanced(dir), ..self }.after_eating()
        } else {
            GameView { game_over: true, ..self }
        };
        GameView { waiting: 0, pending: None, ..g }
    }

    /// The move step, taken once the moving period is over.
    pub open spec fn moved_if_due(self) -> GameView {
        if self.waiting >= MOVING_PERIOD_MICROS {
            self.moved(self.pending)
        } else {
            self
        }
    }

    /// The state after a key: one of the arrow directions, or `None` for any
    /// other key, which asks for the current heading. Ignored once the game
    /// is over, or where it asks for the reverse of the current heading.
    pub open spec fn pressed(self, key: Option<Direction>) -> GameView {
        let d = heading_for(self.snake.direction, key);
        if self.game_over || d == opposite_of(self.snake.direction) {
            self
        } else {
            GameView { pending: Some(d), ..self }
        }
    }
}

/// While the game runs with food on the board, a tick that leaves the time
/// since the last move under the moving period moves nothing and only counts
/// the time; a tick that brings it to the period or beyond takes exactly one
/// move step, with the heading asked for, and starts the timer again.
pub proof fn lemma_move_timing(g: GameView, delta_micros: u64)
    requires
        g.wf(),
        !g.game_over,
        g.food is Some,
    ensures
        ({
            let w = saturating_sum(g.waiting, delta_micros);
            let after = g.with_waiting(w).moved_if_due();
            &&& (w < MOVING_PERIOD_MICROS ==> after.snake == g.snake && after.waiting == w
                && after.food == g.food && !after.game_over)
            &&& (w >= MOVING_PERIOD_MICROS ==> after == g.moved(g.pending) && after.waiting == 0)
        }),
{
}

/// The state machine of a game.
pub struct Game {
    snake: Snake,
    food_exists: bool,
    food_x: i32,
    food_y: i32,
    score: i32,
    width: i32,
    height: i32,
    game_over: bool,
    waiting_time: u64,
    pending: Option<Direction>,
}

impl View for Game {
    type V = GameView;

    closed spec fn view(&self) -> GameView {
        GameView {
            snake: self.snake@,
            food: if self.food_exists {
                Some((self.food_x, self.food_y))
            } else {
                None
            },
            score: self.score,
            width: self.width,
            height: self.height,
            game_over: self.game_over,
            waiting: self.waiting_time,
            pending: self.pending,
        }
    }
}

impl Game {
    /// A fresh game on a board of the given size, border included.
    pub fn new(width: i32, height: i32) -> (r: Game)
        ensures
            r@ == initial(width, height),
            r@.wf(),
    {
        let snake = Snake::new(START_X, START_Y);
        proof {
            assert(snake@.body =~= start_snake().body);
        }
        Game {
            snake,
            food_exists: true,
            food_x: FIRST_FOOD_X,
            food_y: FIRST_FOOD_Y,
            score: 0,
            width,
            height,
            game_over: false,
            waiting_time: 0,
            pending: None,
        }
    }

    /// Takes a key: an arrow direction, or `None` for any other key. The
    /// heading it asks for is used on the next move, unless the game is over
    /// or it is the reverse of the current heading.
    pub fn key_pressed(&mut self, key: Option<Direction>)
        ensures
            final(self)@ == old(self)@.pressed(key),
    {
        if self.game_over {
            return;
        }
        let heading = self.snake.head_direction();
        let direction = match key {
            Some(d) => d,
            None => heading,
        };
        if direction == heading.opposite() {
            return;
        }
        self.pending = Some(direction);
    }

    /// Lets `delta_micros` pass. A game that is over starts again once the
    /// restart delay has passed since it ended. Otherwise food is placed if
    /// there is none, and the snake moves once the moving period has passed
    /// since its last move. Fails, leaving the food absent, when no free cell
    /// is left for food.
    pub fn update(&mut self, delta_micros: u64) -> (r: Result<(), FoodError>)
        requires
            old(self)@.wf(),
        ensures
            final(self)@.wf(),
            ({
                let g = old(self)@;
                let w = saturating_sum(g.waiting, delta_micros);
                if g.game_over {
                    r is Ok && final(self)@ == (if w >= RESTART_DELAY_MICROS {
                        initial(g.width, g.height)
                    } else {
                        g.with_waiting(w)
                    })
                } else if g.food is Some {
                    r is Ok && final(self)@ == g.with_waiting(w).moved_if_due()
                } else {
                    &&& (r is Err <==> forall|c: (i32, i32)| !is_free(g.width, g.height, g.snake, c))
                    &&& (r is Err ==> r->Err_0 == FoodError::NoSpaceAvailable && final(self)@
                        == g.with_waiting(w))
                    &&& (r is Ok ==> exists|c: (i32, i32)|
                        #[trigger] is_free(g.width, g.height, g.snake, c) && final(self)@
                            == g.with_waiting(w).with_food(c).moved_if_due())
                }
            }),
    {
        if self.waiting_time > u64::MAX - delta_micros {
            self.waiting_time = u64::MAX;
        } else {
            self.waiting_time = self.waiting_time + delta_micros;
        }
        if self.game_over {
            if self.waiting_time >= RESTART_DELAY_MICROS {
                self.restart();
            }
            return Ok(());
        }
        if !self.food_exists {
            let placed = self.add_food();
            if placed.is_err() {
                return placed;
            }
        }
        if self.waiting_time >= MOVING_PERIOD_MICROS {
            let direction = self.pending;
            self.update_snake(direction);
        }
        Ok(())
    }

    /// Eats the food if the head is on it: the snake grows by its remembered
    /// tail cell, the food is gone and the score goes up by one.
    fn check_eating(&mut self)
        requires
            old(self)@.snake.wf(),
            old(self)@.snake.tail is Some,
        ensures
            final(self)@ == old(self)@.after_eating(),
    {
        let (head_x, head_y) = self.snake.head_position();
        if self.food_exists && self.food_x == head_x && self.food_y == head_y {
            self.food_exists = false;
            self.snake.restore_tail();
            if self.score < i32::MAX {
                self.score = self.score + 1;
            }
        }
    }

    /// Whether the snake survives a move towards `direction`.
    fn check_if_snake_alive(&self, direction: Option<Direction>) -> (r: bool)
        requires
            self@.wf(),
        ensures
            r == self@.survives(direction),
    {
        let (next_x, next_y) = self.snake.next_head(direction);
        if self.snake.overlap_tail(next_x, next_y) {
            return false;
        }
        next_x > 0 && next_y > 0 && (next_x as i64) < (self.width as i64) - 1 && (next_y as i64)
            < (self.height as i64) - 1
    }

    /// Places food on a random free cell.
    fn add_food(&mut self) -> (r: Result<(), FoodError>)
        ensures
            ({
                let g = old(self)@;
                &&& (r is Err <==> forall|c: (i32, i32)| !is_free(g.width, g.height, g.snake, c))
                &&& (r is Err ==> r->Err_0 == FoodError::NoSpaceAvailable && final(self)@ == g)
                &&& (r is Ok ==> exists|c: (i32, i32)|
                    #[trigger] is_free(g.width, g.height, g.snake, c) && final(self)@
                        == g.with_food(c))
            }),
    {
        match spawn_food(self.width, self.height, &self.snake) {
            Ok((x, y)) => {
                self.food_x = x;
                self.food_y = y;
                self.food_exists = true;
                proof {
                    assert(is_free(self.width, self.height, self.snake@, (x, y)));
                    assert(self@ == old(self)@.with_food((x, y)));
                }
                Ok(())
            },
            Err(e) => Err(e),
        }
    }

    /// One move step towards `direction`: the snake moves and eats, or the
    /// game ends.
    fn update_snake(&mut self, direction: Option<Direction>)
        requires
            old(self)@.wf(),
        ensures
            final(self)@ == old(self)@.moved(direction),
            final(self)@.wf(),
    {
        if self.check_if_snake_alive(direction) {
            self.snake.move_forward(direction);
            self.check_eating();
        } else {
            self.game_over = true;
        }
        self.waiting_time = 0;
        self.pending = None;
    }

    /// Starts the game again on the same board.
    fn restart(&mut self)
        ensures
            final(self)@ == initial(old(self)@.width, old(self)@.height),
            final(self)@.wf(),
    {
        let snake = Snake::new(START_X, START_Y);
        proof {
            assert(snake@.body =~= start_snake().body);
        }
        self.snake = snake;
        self.food_exists = true;
        self.food_x = FIRST_FOOD_X;
        self.food_y = FIRST_FOOD_Y;
        self.score = 0;
        self.game_over = false;
        self.waiting_time = 0;
        self.pending = None;
    }

    pub fn snake(&self) -> (r: &Snake)
        ensures
            r@ == self@.snake,
    {
        &self.snake
    }

    /// The food cell, if there is food on the board.
    pub fn food(&self) -> (r: Option<(i32, i32)>)
        ensures
            r == self@.food,
    {
        if self.food_exists {
            Some((self.food_x, self.food_y))
        } else {
            None
        }
    }

    pub fn score(&self) -> (r: i32)
        ensures
            r == self@.score,
    {
        self.score
    }

    pub fn is_game_over(&self) -> (r: bool)
        ensures
            r == self@.game_over,
    {
        self.game_over
    }

    /// Width and height of the board, border included.
    pub fn board_dimensions(&self) -> (r: (i32, i32))
        ensures
            r == (self@.width, self@.height),
    {
        (self.width, self.height)
    }

    /// Time since the last move, or since the game ended.
    pub fn waiting_time(&self) -> (r: u64)
        ensures
            r == self@.waiting,
    {
        self.waiting_time
    }

    /// The heading that the next move will take, if input asked for one.
    pub fn pending_direction(&self) -> (r: Option<Direction>)
        ensures
            r == self@.pending,
    {
        self.pending
    }
}

} // verus!
