//! Placing food on a free cell inside the border of the board.
use vstd::prelude::*;
use crate::snake::{Snake, SnakeView};

verus! {

/// Why no food could be placed.
#[derive(Copy, Clone, Debug, PartialEq, Eq, Structural)]
pub enum FoodError {
    /// Every cell inside the border is taken by the snake.
    NoSpaceAvailable,
}

/// `c` lies inside the one-cell border of a board of the given size.
pub open spec fn in_interior(width: i32, height: i32, c: (i32, i32)) -> bool {
    0 < c.0 < width - 1 && 0 < c.1 < height - 1
}

/// `c` lies inside the border and the snake does not cover it.
pub open spec fn is_free(width: i32, height: i32, s: SnakeView, c: (i32, i32)) -> bool {
    in_interior(width, height, c) && !s.occupies(c)
}

/// Relies on rand's `Rng::gen_range` on the thread-local generator: for the
/// range `0..n` with `n > 0` it returns a value below `n` (it panics on an
/// empty range).
#[verifier::external_body]
fn random_index(n: usize) -> (r: usize)
    requires
        n > 0,
    ensures
        r < n,
{
    rand::Rng::gen_range(&mut rand::thread_rng(), 0..n)
}

/// Every free cell of the board, each once, column by column.
pub fn free_cells(width: i32, height: i32, snake: &Snake) -> (r: Vec<(i32, i32)>)
    ensures
        forall|c: (i32, i32)| r@.contains(c) <==> is_free(width, height, snake@, c),
        r@.no_duplicates(),
{
    let mut cells: Vec<(i32, i32)> = Vec::new();
    let mut x: i32 = 1;
    while (x as i64) < (width as i64) - 1
        invariant
            1 <= x,
            x <= width || x == 1,
            forall|c: (i32, i32)|
                cells@.contains(c) <==> (is_free(width, height, snake@, c) && c.0 < x),
            cells@.no_duplicates(),
        decreases (width as int) - (x as int),
    {
        let mut y: i32 = 1;
        while (y as i64) < (height as i64) - 1
            invariant
                1 <= x < width - 1,
                1 <= y,
                y <= height || y == 1,
                forall|c: (i32, i32)|
                    cells@.contains(c) <==> (is_free(width, height, snake@, c) && (c.0 < x || (
                    c.0 == x && c.1 < y))),
                cells@.no_duplicates(),
            decreases (height as int) - (y as int),
        {
            let ghost cells_before = cells@;
            if !snake.occupies(x, y) {
                proof {
                    assert(!cells@.contains((x, y)));
                }
                let ghost before = cells@;
                cells.push((x, y));
                proof {
                    assert forall|c: (i32, i32)| cells@.contains(c) <==> (before.contains(c) || c
                        == (x, y)) by {
                        if c == (x, y) {
                            assert(cells@[before.len() as int] == c);
                        }
                        if before.contains(c) {
                            let k = choose|k: int| 0 <= k < before.len() && before[k] == c;
                            assert(cells@[k] == c);
                        }
                        if cells@.contains(c) && c != (x, y) {
                            let k = choose|k: int| 0 <= k < cells@.len() && cells@[k] == c;
                            assert(before[k] == c);
                        }
                    }
                }
            }
            y += 1;
            proof {
                assert forall|c: (i32, i32)|
                    cells@.contains(c) <==> (is_free(width, height, snake@, c) && (c.0 < x || (
                    c.0 == x && c.1 < y))) by {
                    if c == (x, (y - 1) as i32) {
                        assert(in_interior(width, height, c));
                    } else {
                        assert(cells@.contains(c) <==> cells_before.contains(c) || c == (x, (y
                            - 1) as i32));
                    }
                }
            }
        }
        x += 1;
    }
    cells
}

/// Picks a free cell at random, each free cell being equally likely; fails
/// when the snake covers every cell inside the border.
pub fn spawn_food(width: i32, height: i32, snake: &Snake) -> (r: Result<(i32, i32), FoodError>)
    ensures
        r is Ok ==> is_free(width, height, snake@, r->Ok_0),
        r is Err <==> forall|c: (i32, i32)| !is_free(width, height, snake@, c),
        r is Err ==> r->Err_0 == FoodError::NoSpaceAvailable,
{
    let free = free_cells(width, height, snake);
    if free.len() == 0 {
        proof {
            assert forall|c: (i32, i32)| !is_free(width, height, snake@, c) by {
                if is_free(width, height, snake@, c) {
                    assert(free@.contains(c));
                }
            }
        }
        return Err(FoodError::NoSpaceAvailable);
    }
    let i = random_index(free.len());
    proof {
        assert(free@.contains(free@[i as int]));
    }
    Ok(free[i])
}

} // verus!
