//! The snake: its heading and the ordered cells of its body, head first.
use vstd::prelude::*;

verus! {

/// A direction of movement on the grid.
#[derive(Copy, Clone, Debug, PartialEq, Eq, Structural)]
pub enum Direction {
    Up,
    Down,
    Left,
    Right,
}

/// The direction that points the other way.
pub open spec fn opposite_of(d: Direction) -> Direction {
    match d {
        Direction::Up => Direction::Down,
        Direction::Down => Direction::Up,
        Direction::Left => Direction::Right,
        Direction::Right => Direction::Left,
    }
}

impl Direction {
    pub fn opposite(&self) -> (r: Direction)
        ensures
            r == opposite_of(*self),
    {
        match *self {
            Direction::Up => Direction::Down,
            Direction::Down => Direction::Up,
            Direction::Left => Direction::Right,
            Direction::Right => Direction::Left,
        }
    }
}

/// Taking the opposite twice gives the direction back, and no direction is
/// its own opposite.
pub proof fn lemma_opposite_involution(d: Direction)
    ensures
        opposite_of(opposite_of(d)) == d,
        d != opposite_of(d),
{
}

/// A cell can be stepped from in every direction without leaving `i32`.
pub open spec fn can_step(c: (i32, i32)) -> bool {
    i32::MIN < c.0 < i32::MAX && i32::MIN < c.1 < i32::MAX
}

/// The neighbour of `c` in direction `d`: up lowers `y`, down raises it,
/// left lowers `x`, right raises it.
pub open spec fn step_cell(c: (i32, i32), d: Direction) -> (i32, i32) {
    match d {
        Direction::Up => (c.0, (c.1 - 1) as i32),
        Direction::Down => (c.0, (c.1 + 1) as i32),
        Direction::Left => ((c.0 - 1) as i32, c.1),
        Direction::Right => ((c.0 + 1) as i32, c.1),
    }
}

/// The heading used for a move: the override if there is one, else the
/// current heading.
pub open spec fn heading_for(current: Direction, dir: Option<Direction>) -> Direction {
    match dir {
        Some(d) => d,
        None => current,
    }
}

/// The abstract state of a snake.
pub struct SnakeView {
    /// The occupied cells, head first, tail last.
    pub body: Seq<(i32, i32)>,
    /// The current heading.
    pub direction: Direction,
    /// The cell most recently given up at the tail, kept for growing.
    pub tail: Option<(i32, i32)>,
}

impl SnakeView {
    /// A snake always has a head.
    pub open spec fn wf(self) -> bool {
        self.body.len() > 0
    }

    pub open spec fn head(self) -> (i32, i32) {
        self.body[0]
    }

    /// Where the head goes on the next move.
    pub open spec fn next_head(self, dir: Option<Direction>) -> (i32, i32) {
        step_cell(self.head(), heading_for(self.direction, dir))
    }

    /// The snake after one move: a new head in front, the last cell given up
    /// and remembered as the tail.
    pub open spec fn advanced(self, dir: Option<Direction>) -> SnakeView {
        SnakeView {
            body: seq![self.next_head(dir)] + self.body.drop_last(),
            direction: heading_for(self.direction, dir),
            tail: Some(self.body.last()),
        }
    }

    /// The snake with its remembered tail cell put back at the end.
    pub open spec fn restored(self) -> SnakeView {
        SnakeView {
            body: self.body.push(self.tail.unwrap()),
            direction: self.direction,
            tail: self.tail,
        }
    }

    /// How many cells, from the head, the self-collision check looks at: all
    /// but the last one, or the only one of a one-cell body.
    pub open spec fn checked_len(self) -> int {
        if self.body.len() <= 1 {
            self.body.len() as int
        } else {
            self.body.len() - 1
        }
    }

    /// `c` is one of the cells of the body other than the last one.
    pub open spec fn overlaps_tail(self, c: (i32, i32)) -> bool {
        exists|i: int| 0 <= i < self.checked_len() && #[trigger] self.body[i] == c
    }

    /// `c` is one of the cells of the body.
    pub open spec fn occupies(self, c: (i32, i32)) -> bool {
        self.body.contains(c)
    }
}

/// A move keeps the length of the body, and putting the tail back after a
/// move makes the body exactly one cell longer.
pub proof fn lemma_advance_restore_length(s: SnakeView, dir: Option<Direction>)
    requires
        s.wf(),
    ensures
        s.advanced(dir).body.len() == s.body.len(),
        s.advanced(dir).restored().body.len() == s.body.len() + 1,
{
}

/// The head after a move is the cell that the preview gave for it.
pub proof fn lemma_preview_is_next_head(s: SnakeView, dir: Option<Direction>)
    requires
        s.wf(),
    ensures
        s.advanced(dir).head() == s.next_head(dir),
        s.advanced(dir).wf(),
{
}

/// The snake: a heading, a body of cells with the head first, and the cell
/// most recently given up at the tail.
pub struct Snake {
    direction: Direction,
    body: Vec<(i32, i32)>,
    tail: Option<(i32, i32)>,
}

impl View for Snake {
    type V = SnakeView;

    closed spec fn view(&self) -> SnakeView {
        SnakeView { body: self.body@, direction: self.direction, tail: self.tail }
    }
}

impl Snake {
    /// A snake of three cells in row `y`, heading right, with its head at
    /// `(x + 2, y)` and its last cell at `(x, y)`.
    pub fn new(x: i32, y: i32) -> (r: Snake)
        requires
            x <= i32::MAX - 2,
        ensures
            r@.body == seq![((x + 2) as i32, y), ((x + 1) as i32, y), (x, y)],
            r@.direction == Direction::Right,
            r@.tail.is_none(),
            r@.wf(),
    {
        let mut body: Vec<(i32, i32)> = Vec::new();
        body.push((x + 2, y));
        body.push((x + 1, y));
        body.push((x, y));
        Snake { direction: Direction::Right, body, tail: None }
    }

    pub fn head_position(&self) -> (r: (i32, i32))
        requires
            self@.wf(),
        ensures
            r == self@.head(),
    {
        self.body[0]
    }

    /// Moves one cell, turning first to `dir` if it is given.
    pub fn move_forward(&mut self, dir: Option<Direction>)
        requires
            old(self)@.wf(),
            can_step(old(self)@.head()),
        ensures
            final(self)@ == old(self)@.advanced(dir),
    {
        let new_block = self.next_head(dir);
        if let Some(d) = dir {
            self.direction = d;
        }
        self.body.insert(0, new_block);
        let removed = self.body.pop();
        self.tail = removed;
        proof {
            let s = old(self)@;
            assert(self.body@ =~= seq![s.next_head(dir)] + s.body.drop_last());
        }
    }

    pub fn head_direction(&self) -> (r: Direction)
        ensures
            r == self@.direction,
    {
        self.direction
    }

    /// Where the head would go on the next move, turning first to `dir` if
    /// it is given; the snake itself is left as it is.
    pub fn next_head(&self, dir: Option<Direction>) -> (r: (i32, i32))
        requires
            self@.wf(),
            can_step(self@.head()),
        ensures
            r == self@.next_head(dir),
    {
        let (head_x, head_y) = self.head_position();
        let moving_direction = match dir {
            Some(d) => d,
            None => self.direction,
        };
        match moving_direction {
            Direction::Up => (head_x, head_y - 1),
            Direction::Down => (head_x, head_y + 1),
            Direction::Left => (head_x - 1, head_y),
            Direction::Right => (head_x + 1, head_y),
        }
    }

    /// Puts the remembered tail cell back at the end of the body.
    pub fn restore_tail(&mut self)
        requires
            old(self)@.tail.is_some(),
        ensures
            final(self)@ == old(self)@.restored(),
    {
        if let Some(block) = self.tail {
            self.body.push(block);
        }
    }

    /// Whether `(x, y)` is one of the cells of the body other than the last
    /// one (the cell the tail is about to leave).
    pub fn overlap_tail(&self, x: i32, y: i32) -> (r: bool)
        ensures
            r == self@.overlaps_tail((x, y)),
    {
        let n: usize = self.body.len();
        let limit: usize = if n <= 1 { n } else { n - 1 };
        let mut i: usize = 0;
        while i < limit
            invariant
                limit == self@.checked_len(),
                limit <= self.body@.len(),
                0 <= i <= limit,
                forall|j: int| 0 <= j < i ==> self.body@[j] != (x, y),
            decreases limit - i,
        {
            let block = self.body[i];
            if block.0 == x && block.1 == y {
                assert(self.body@[i as int] == (x, y));
                return true;
            }
            i += 1;
        }
        false
    }

    /// Whether `(x, y)` is one of the cells of the body.
    pub fn occupies(&self, x: i32, y: i32) -> (r: bool)
        ensures
            r == self@.occupies((x, y)),
    {
        let mut i: usize = 0;
        while i < self.body.len()
            invariant
                0 <= i <= self.body@.len(),
                forall|j: int| 0 <= j < i ==> self.body@[j] != (x, y),
            decreases self.body@.len() - i,
        {
            let block = self.body[i];
            if block.0 == x && block.1 == y {
                assert(self.body@[i as int] == (x, y));
                return true;
            }
            i += 1;
        }
        false
    }

    /// The cells of the body, head first.
    pub fn body(&self) -> (r: &Vec<(i32, i32)>)
        ensures
            r@ == self@.body,
    {
        &self.body
    }
}

} // verus!
