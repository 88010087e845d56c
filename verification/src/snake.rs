use vstd::prelude::*;

use crate::display::{spec_codes_of, spec_number_codes, spec_render_on, Pixel, PixelDisplay};
use crate::input::Input;
use crate::{Game, GameState, RandomNumberSource};

verus! {

/// The four movement directions of the snake.
#[derive(Clone, Copy, Debug, PartialEq, Eq, Structural)]
pub enum Direction {
    Up,
    Down,
    Left,
    Right,
}

/// Horizontal step of a direction.
pub open spec fn spec_dx(d: Direction) -> int {
    match d {
        Direction::Up => 0,
        Direction::Down => 0,
        Direction::Left => -1,
        Direction::Right => 1,
    }
}

/// Vertical step of a direction.
pub open spec fn spec_dy(d: Direction) -> int {
    match d {
        Direction::Up => -1,
        Direction::Down => 1,
        Direction::Left => 0,
        Direction::Right => 0,
    }
}

/// Whether two directions are exact opposites.
pub open spec fn spec_is_opposite(a: Direction, b: Direction) -> bool {
    match (a, b) {
        (Direction::Up, Direction::Down) => true,
        (Direction::Down, Direction::Up) => true,
        (Direction::Left, Direction::Right) => true,
        (Direction::Right, Direction::Left) => true,
        _ => false,
    }
}

/// The direction the player requests this tick: the first pressed button in
/// the fixed left, right, up, down priority, or the current direction.
pub open spec fn spec_requested_direction(
    current: Direction,
    left: bool,
    right: bool,
    up: bool,
    down: bool,
) -> Direction {
    if left {
        Direction::Left
    } else if right {
        Direction::Right
    } else if up {
        Direction::Up
    } else if down {
        Direction::Down
    } else {
        current
    }
}

/// The direction the snake actually takes: the request, unless it is the
/// exact opposite of the current direction.
pub open spec fn spec_next_direction(
    current: Direction,
    left: bool,
    right: bool,
    up: bool,
    down: bool,
) -> Direction {
    let requested = spec_requested_direction(current, left, right, up, down);
    if spec_is_opposite(requested, current) {
        current
    } else {
        requested
    }
}

/// A direction request equal to the opposite of the current direction never
/// takes effect: the direction taken is never opposite the one it replaces.
pub proof fn lemma_no_reversal(current: Direction, left: bool, right: bool, up: bool, down: bool)
    ensures
        !spec_is_opposite(spec_next_direction(current, left, right, up, down), current),
        spec_is_opposite(
            spec_requested_direction(current, left, right, up, down),
            current,
        ) ==> spec_next_direction(current, left, right, up, down) == current,
{
}

impl Direction {
    pub fn dx(&self) -> (d: isize)
        ensures
            d as int == spec_dx(*self),
    {
        match *self {
            Direction::Up => 0,
            Direction::Down => 0,
            Direction::Left => -1,
            Direction::Right => 1,
        }
    }

    pub fn dy(&self) -> (d: isize)
        ensures
            d as int == spec_dy(*self),
    {
        match *self {
            Direction::Up => -1,
            Direction::Down => 1,
            Direction::Left => 0,
            Direction::Right => 0,
        }
    }

    pub fn is_opposite_to(&self, direction: Direction) -> (b: bool)
        ensures
            b == spec_is_opposite(*self, direction),
    {
        matches!(
            (*self, direction),
            (Direction::Up, Direction::Down)
            | (Direction::Down, Direction::Up)
            | (Direction::Left, Direction::Right)
            | (Direction::Right, Direction::Left)
        )
    }
}

/// Grid-based growing-trail simulation with apple spawning, self-collision,
/// and speed progression.
pub struct SnakeGame {
    state: GameState,
    update_timer: u64,
    update_rate: u64,
    position_x: isize,
    position_y: isize,
    apple_position_x: isize,
    apple_position_y: isize,
    board: Vec<Vec<usize>>,
    direction: Direction,
    length: usize,
    state_wait_timer: u64,
}

/// The observable state of a `SnakeGame`.  The board holds the trail age of
/// every cell; the apple coordinates use -1 as the "needs respawn" sentinel.
pub struct SnakeView {
    pub state: GameState,
    pub update_timer: u64,
    pub update_rate: u64,
    pub position_x: int,
    pub position_y: int,
    pub apple_position_x: int,
    pub apple_position_y: int,
    pub board: Seq<Seq<usize>>,
    pub direction: Direction,
    pub length: usize,
    pub state_wait_timer: u64,
}

impl View for SnakeGame {
    type V = SnakeView;

    closed spec fn view(&self) -> SnakeView {
        SnakeView {
            state: self.state,
            update_timer: self.update_timer,
            update_rate: self.update_rate,
            position_x: self.position_x as int,
            position_y: self.position_y as int,
            apple_position_x: self.apple_position_x as int,
            apple_position_y: self.apple_position_y as int,
            board: self.board@.map_values(|line: Vec<usize>| line@),
            direction: self.direction,
            length: self.length,
            state_wait_timer: self.state_wait_timer,
        }
    }
}

/// Internal consistency of a snake game: a rectangular age grid with room
/// for a border step, the head inside it (one step outside at most, and only
/// after the game ended), the apple inside it or at the sentinel, and the
/// update rate between its 50 ms floor and its 400 ms starting value.
pub open spec fn spec_snake_wf(v: SnakeView) -> bool {
    &&& v.board.len() >= 6
    &&& v.board[0].len() >= 6
    &&& forall|i: int| 0 <= i < v.board.len() ==> (#[trigger] v.board[i].len()) == v.board[0].len()
    &&& v.board.len() <= isize::MAX - 16
    &&& v.board[0].len() <= isize::MAX - 16
    &&& -1 <= v.position_x <= v.board[0].len()
    &&& -1 <= v.position_y <= v.board.len()
    &&& (v.state != GameState::GameOver ==> 0 <= v.position_x < v.board[0].len() && 0
        <= v.position_y < v.board.len())
    &&& -1 <= v.apple_position_x < v.board[0].len()
    &&& -1 <= v.apple_position_y < v.board.len()
    &&& (v.apple_position_x >= 0 ==> v.apple_position_y >= 0)
    &&& 50 <= v.update_rate <= 400
}

/// The full initial state of a snake game on a rows x cols grid.
pub open spec fn spec_snake_initial(rows: int, cols: int) -> SnakeView {
    SnakeView {
        state: GameState::Start,
        update_timer: 0,
        update_rate: 400,
        position_x: cols / 2,
        position_y: rows / 2,
        apple_position_x: 5,
        apple_position_y: 5,
        board: Seq::new(rows as nat, |r: int| Seq::new(cols as nat, |c: int| 0usize)),
        direction: Direction::Up,
        length: 0,
        state_wait_timer: 0,
    }
}

/// One movement step, given that any pending apple respawn already happened:
/// every age counts down (floored at zero), the head's cell is stamped with
/// the current length, the head advances one cell, and wall, apple and
/// self collisions are resolved in that order.
pub open spec fn spec_advance(v: SnakeView) -> SnakeView {
    let rows = v.board.len() as int;
    let cols = v.board[0].len() as int;
    let aged = Seq::new(
        v.board.len(),
        |r: int|
            Seq::new(
                v.board[r].len(),
                |c: int|
                    if v.board[r][c] > 0 {
                        (v.board[r][c] - 1) as usize
                    } else {
                        0usize
                    },
            ),
    );
    let stamped = aged.update(v.position_y, aged[v.position_y].update(v.position_x, v.length));
    let nx = v.position_x + spec_dx(v.direction);
    let ny = v.position_y + spec_dy(v.direction);
    if nx < 0 || ny < 0 || nx >= cols || ny >= rows {
        SnakeView { state: GameState::GameOver, position_x: nx, position_y: ny, board: stamped, ..v }
    } else {
        let ate = nx == v.apple_position_x && ny == v.apple_position_y;
        let new_rate = if ate {
            if v.update_rate - 10 > 50 {
                (v.update_rate - 10) as u64
            } else {
                50u64
            }
        } else {
            v.update_rate
        };
        let new_length = if ate {
            v.length.saturating_add(1)
        } else {
            v.length
        };
        let nax = if ate {
            -1int
        } else {
            v.apple_position_x
        };
        let nay = if ate {
            -1int
        } else {
            v.apple_position_y
        };
        let hit_self = stamped[ny][nx] > 0;
        SnakeView {
            state: if hit_self {
                GameState::GameOver
            } else {
                v.state
            },
            position_x: nx,
            position_y: ny,
            board: stamped,
            update_rate: new_rate,
            length: new_length,
            apple_position_x: nax,
            apple_position_y: nay,
            ..v
        }
    }
}

/// How a pending apple respawn relates the state before it to the state
/// after it: only the apple coordinates change; when the grid has any free
/// cell the new apple sits on a cell with zero trail age, otherwise the
/// sentinel stays and the next tick tries again.
pub open spec fn spec_apple_outcome(v: SnakeView, w: SnakeView) -> bool {
    &&& w == SnakeView {
        apple_position_x: w.apple_position_x,
        apple_position_y: w.apple_position_y,
        ..v
    }
    &&& if exists|r: int, c: int|
        0 <= r < v.board.len() && 0 <= c < v.board[0].len() && (#[trigger] v.board[r][c]) == 0 {
        &&& 0 <= w.apple_position_x < v.board[0].len()
        &&& 0 <= w.apple_position_y < v.board.len()
        &&& v.board[w.apple_position_y][w.apple_position_x] == 0
    } else {
        &&& w.apple_position_x == v.apple_position_x
        &&& w.apple_position_y == v.apple_position_y
    }
}

/// The respawn relation of one tick: the identity unless the sentinel marks
/// the apple as missing.
pub open spec fn spec_apple_step(v: SnakeView, w: SnakeView) -> bool {
    if v.apple_position_x >= 0 {
        w == v
    } else {
        spec_apple_outcome(v, w)
    }
}

/// The timer-gated movement of one tick: when the accumulated time exceeds
/// the update rate, the rate is deducted and the snake advances one step.
pub open spec fn spec_snake_tick(v: SnakeView) -> SnakeView {
    if v.update_timer > v.update_rate {
        spec_advance(SnakeView { update_timer: (v.update_timer - v.update_rate) as u64, ..v })
    } else {
        v
    }
}

/// The pixel the running game shows at one grid cell: on exactly at the
/// head, at the spawned apple, and over every cell with positive trail age.
pub open spec fn spec_snake_frame(v: SnakeView, r: int, c: int) -> Pixel {
    if (r == v.position_y && c == v.position_x) || (v.apple_position_x >= 0 && r
        == v.apple_position_y && c == v.apple_position_x) || v.board[r][c] > 0 {
        Pixel::On
    } else {
        Pixel::Off
    }
}

/// The state after the timer and direction phase of one running tick.
pub open spec fn spec_snake_pre(
    v: SnakeView,
    elapsed: u64,
    left: bool,
    right: bool,
    up: bool,
    down: bool,
) -> SnakeView {
    SnakeView {
        update_timer: v.update_timer.saturating_add(elapsed),
        direction: spec_next_direction(v.direction, left, right, up, down),
        ..v
    }
}

/// How one `SnakeGame` tick relates the state before it to the state after
/// it (the display effect is stated separately on `update` itself).
pub open spec fn spec_snake_update_rel(
    v0: SnakeView,
    v1: SnakeView,
    elapsed: u64,
    left: bool,
    right: bool,
    up: bool,
    down: bool,
    action: bool,
) -> bool {
    &&& v0.state == GameState::Start ==> ({
        let t1 = v0.state_wait_timer.saturating_add(elapsed);
        if action && t1 > 1000 {
            v1 == SnakeView { state: GameState::Playing, state_wait_timer: 0, ..v0 }
        } else {
            v1 == SnakeView { state_wait_timer: t1, ..v0 }
        }
    })
    &&& v0.state == GameState::GameOver ==> ({
        let t1 = v0.state_wait_timer.saturating_add(elapsed);
        if action && t1 > 1000 {
            v1 == spec_snake_initial(v0.board.len() as int, v0.board[0].len() as int)
        } else {
            v1 == SnakeView { state_wait_timer: t1, ..v0 }
        }
    })
    &&& v0.state == GameState::Playing ==> (exists|mid: SnakeView|
        {
            &&& #[trigger] spec_apple_step(spec_snake_pre(v0, elapsed, left, right, up, down), mid)
            &&& v1 == spec_snake_tick(mid)
        })
}

impl SnakeGame {
    /// A fresh game on a rows x cols grid: waiting to start, head at the
    /// center, apple at (5, 5), empty trail, update rate of 400 ms.
    pub fn new(rows: usize, cols: usize) -> (g: Self)
        requires
            6 <= rows <= isize::MAX - 16,
            6 <= cols <= isize::MAX - 16,
        ensures
            g@ == spec_snake_initial(rows as int, cols as int),
            spec_snake_wf(g@),
    {
        let mut board: Vec<Vec<usize>> = Vec::new();
        for i in 0..rows
            invariant
                board@.len() == i,
                forall|r: int| 0 <= r < i ==> (#[trigger] board@[r]@.len()) == cols,
                forall|r: int, c: int|
                    0 <= r < i && 0 <= c < cols ==> (#[trigger] board@[r]@[c]) == 0,
        {
            let mut line: Vec<usize> = Vec::new();
            for j in 0..cols
                invariant
                    line@.len() == j,
                    forall|c: int| 0 <= c < j ==> (#[trigger] line@[c]) == 0,
            {
                line.push(0);
            }
            board.push(line);
        }
        let g = SnakeGame {
            state: GameState::Start,
            update_timer: 0,
            update_rate: 400,
            position_x: (cols as isize) / 2,
            position_y: (rows as isize) / 2,
            apple_position_x: 5,
            apple_position_y: 5,
            board,
            direction: Direction::Up,
            length: 0,
            state_wait_timer: 0,
        };
        proof {
            assert(g@.board =~~= spec_snake_initial(rows as int, cols as int).board);
            assert(g@ == spec_snake_initial(rows as int, cols as int));
        }
        g
    }

    /// The snake's length so far, for the host and for tests.
    pub fn length(&self) -> (l: usize)
        ensures
            l == self@.length,
    {
        self.length
    }

    /// The head position as (column, row).
    pub fn head(&self) -> (p: (isize, isize))
        ensures
            p.0 as int == self@.position_x,
            p.1 as int == self@.position_y,
    {
        (self.position_x, self.position_y)
    }

    /// The apple position as (column, row); negative means "needs respawn".
    pub fn apple(&self) -> (p: (isize, isize))
        ensures
            p.0 as int == self@.apple_position_x,
            p.1 as int == self@.apple_position_y,
    {
        (self.apple_position_x, self.apple_position_y)
    }

    /// The current movement direction.
    pub fn direction(&self) -> (d: Direction)
        ensures
            d == self@.direction,
    {
        self.direction
    }

    /// The trail age of one cell.
    fn get_age(&self, row: usize, col: usize) -> (a: usize)
        requires
            spec_snake_wf(self@),
            row < self@.board.len(),
            col < self@.board[0].len(),
        ensures
            a == self@.board[row as int][col as int],
    {
        proof {
            assert(self@.board[row as int] == self.board@[row as int]@);
        }
        self.board[row][col]
    }

    /// Overwrites the trail age of one cell.
    fn set_age(&mut self, row: usize, col: usize, a: usize)
        requires
            spec_snake_wf(old(self)@),
            row < old(self)@.board.len(),
            col < old(self)@.board[0].len(),
        ensures
            final(self)@ == (SnakeView {
                board: old(self)@.board.update(
                    row as int,
                    old(self)@.board[row as int].update(col as int, a),
                ),
                ..old(self)@
            }),
            spec_snake_wf(final(self)@),
    {
        let mut line: Vec<usize> = Vec::new();
        let n = self.board[row].len();
        for i in 0..n
            invariant
                row < self.board@.len(),
                n == self.board@[row as int]@.len(),
                line@.len() == i,
                forall|k: int| 0 <= k < i ==> #[trigger] line@[k] == self.board@[row as int]@[k],
        {
            line.push(self.board[row][i]);
        }
        proof {
            assert(line@ =~= self@.board[row as int]);
        }
        line[col] = a;
        self.board[row] = line;
        proof {
            assert(final(self)@.board =~~= old(self)@.board.update(
                row as int,
                old(self)@.board[row as int].update(col as int, a),
            ));
        }
    }

    /// Spawns the apple on a random cell with zero trail age.  Random cells
    /// are sampled a bounded number of times; if none of them is free the
    /// grid is scanned for its first free cell, so the apple never lands on
    /// the trail.  On a fully covered grid the sentinel stays and the next
    /// tick tries again.
    fn respawn_apple<R: RandomNumberSource>(&mut self, random: &mut R)
        requires
            spec_snake_wf(old(self)@),
        ensures
            spec_snake_wf(final(self)@),
            spec_apple_outcome(old(self)@, final(self)@),
    {
        let rows = self.board.len();
        let cols = self.board[0].len();
        let mut attempts: usize = 0;
        while attempts < 100
            invariant
                spec_snake_wf(self@),
                self@ == old(self)@,
                rows == self@.board.len(),
                cols == self@.board[0].len(),
                attempts <= 100,
            decreases 100 - attempts,
        {
            let x = (random.next_u32() as usize) % cols;
            let y = (random.next_u32() as usize) % rows;
            if self.get_age(y, x) == 0 {
                self.apple_position_x = x as isize;
                self.apple_position_y = y as isize;
                return ;
            }
            attempts = attempts + 1;
        }
        for r in 0..rows
            invariant
                spec_snake_wf(self@),
                self@ == old(self)@,
                rows == self@.board.len(),
                cols == self@.board[0].len(),
                forall|rr: int, cc: int|
                    0 <= rr < r && 0 <= cc < cols ==> (#[trigger] self@.board[rr][cc]) > 0,
        {
            for c in 0..cols
                invariant
                    spec_snake_wf(self@),
                    self@ == old(self)@,
                    rows == self@.board.len(),
                    cols == self@.board[0].len(),
                    r < rows,
                    forall|rr: int, cc: int|
                        0 <= rr < r && 0 <= cc < cols ==> (#[trigger] self@.board[rr][cc]) > 0,
                    forall|cc: int| 0 <= cc < c ==> (#[trigger] self@.board[r as int][cc]) > 0,
            {
                if self.get_age(r, c) == 0 {
                    self.apple_position_x = c as isize;
                    self.apple_position_y = r as isize;
                    return ;
                }
            }
        }
        // every cell carries trail: leave the sentinel in place
    }

    /// One movement step: ages the trail, stamps the head cell, moves the
    /// head, and resolves wall, apple and self collisions.
    fn advance(&mut self)
        requires
            spec_snake_wf(old(self)@),
            old(self)@.state == GameState::Playing,
        ensures
            spec_snake_wf(final(self)@),
            final(self)@ == spec_advance(old(self)@),
    {
        let rows = self.board.len();
        let cols = self.board[0].len();

        // age the whole trail, floored at zero
        let mut aged: Vec<Vec<usize>> = Vec::new();
        for r in 0..rows
            invariant
                spec_snake_wf(self@),
                self@ == old(self)@,
                rows == self@.board.len(),
                cols == self@.board[0].len(),
                aged@.len() == r,
                forall|rr: int| 0 <= rr < r ==> (#[trigger] aged@[rr]@.len()) == cols,
                forall|rr: int, cc: int|
                    0 <= rr < r && 0 <= cc < cols ==> (#[trigger] aged@[rr]@[cc]) == (
                    if self@.board[rr][cc] > 0 {
                        (self@.board[rr][cc] - 1) as usize
                    } else {
                        0usize
                    }),
        {
            let mut line: Vec<usize> = Vec::new();
            for c in 0..cols
                invariant
                    spec_snake_wf(self@),
                    self@ == old(self)@,
                    rows == self@.board.len(),
                    cols == self@.board[0].len(),
                    r < rows,
                    line@.len() == c,
                    forall|cc: int|
                        0 <= cc < c ==> (#[trigger] line@[cc]) == (if self@.board[r as int][cc]
                            > 0 {
                            (self@.board[r as int][cc] - 1) as usize
                        } else {
                            0usize
                        }),
            {
                let a = self.get_age(r, c);
                if a > 0 {
                    line.push(a - 1);
                } else {
                    line.push(0);
                }
            }
            aged.push(line);
        }
        self.board = aged;
        proof {
            assert(self@.board =~~= Seq::new(
                old(self)@.board.len(),
                |r: int|
                    Seq::new(
                        old(self)@.board[r].len(),
                        |c: int|
                            if old(self)@.board[r][c] > 0 {
                                (old(self)@.board[r][c] - 1) as usize
                            } else {
                                0usize
                            },
                    ),
            ));
        }

        // stamp the cell the head leaves with the current length
        let py = self.position_y as usize;
        let px = self.position_x as usize;
        let len = self.length;
        self.set_age(py, px, len);

        // move the head in the current direction
        self.position_x = self.position_x + self.direction.dx();
        self.position_y = self.position_y + self.direction.dy();

        // collision with the walls ends the game at once
        if self.position_x < 0 || self.position_y < 0 || self.position_x >= cols as isize
            || self.position_y >= rows as isize {
            self.state = GameState::GameOver;
            return ;
        }

        // collision with the apple: speed up, grow, demand a respawn
        if self.position_x == self.apple_position_x && self.position_y == self.apple_position_y {
            let reduced = self.update_rate - 10;
            self.update_rate = if reduced > 50 {
                reduced
            } else {
                50
            };
            self.length = self.length.saturating_add(1);
            self.apple_position_x = -1;
            self.apple_position_y = -1;
        }

        // collision with the trail ends the game
        if self.get_age(self.position_y as usize, self.position_x as usize) > 0 {
            self.state = GameState::GameOver;
        }
    }
}

impl<I: Input, D: PixelDisplay, R: RandomNumberSource> Game<I, D, R> for SnakeGame {
    open spec fn spec_wf(&self) -> bool {
        spec_snake_wf(self@)
    }

    open spec fn spec_compatible(&self, rows: nat, cols: nat) -> bool {
        rows == self@.board.len() && cols == self@.board[0].len()
    }

    open spec fn spec_state(&self) -> GameState {
        self@.state
    }

    #[verifier::rlimit(60)]
    fn update(&mut self, elapsed: u64, input: &I, display: &mut D, random: &mut R)
        ensures
            spec_snake_update_rel(
                old(self)@,
                final(self)@,
                elapsed,
                input.spec_left(),
                input.spec_right(),
                input.spec_up(),
                input.spec_down(),
                input.spec_action(),
            ),
            old(self)@.state == GameState::Start ==> forall|r: int, c: int|
                0 <= r < old(self)@.board.len() && 0 <= c < old(self)@.board[0].len()
                    ==> #[trigger] final(display).spec_pixel(r, c) == (if spec_render_on(
                    spec_codes_of("RDY"@),
                    0,
                    0,
                    r,
                    c,
                ) || spec_render_on(
                    spec_codes_of("S"@),
                    8,
                    old(self)@.board[0].len() as int / 2 - 3,
                    r,
                    c,
                ) {
                    Pixel::On
                } else {
                    Pixel::Off
                }),
            old(self)@.state == GameState::GameOver ==> forall|r: int, c: int|
                0 <= r < old(self)@.board.len() && 0 <= c < old(self)@.board[0].len()
                    ==> #[trigger] final(display).spec_pixel(r, c) == (if spec_render_on(
                    spec_codes_of("DEAD"@),
                    0,
                    0,
                    r,
                    c,
                ) || spec_render_on(spec_codes_of("="@), 8, 0, r, c) || spec_render_on(
                    spec_number_codes(old(self)@.length),
                    8,
                    10,
                    r,
                    c,
                ) {
                    Pixel::On
                } else {
                    Pixel::Off
                }),
            old(self)@.state == GameState::Playing ==> forall|r: int, c: int|
                0 <= r < old(self)@.board.len() && 0 <= c < old(self)@.board[0].len()
                    ==> #[trigger] final(display).spec_pixel(r, c) == spec_snake_frame(
                    final(self)@,
                    r,
                    c,
                ),
    {
        if self.state == GameState::Start {
            display.clear();
            proof {
                reveal_strlit("RDY");
                reveal_strlit("S");
            }
            display.draw_text(0, 0, "RDY");
            display.draw_text(8, (self.board[0].len() as isize) / 2 - 3, "S");

            // delay for starting the game
            self.state_wait_timer = self.state_wait_timer.saturating_add(elapsed);

            if input.action() && self.state_wait_timer > 1000 {
                // moving on, reset the timer for use by the game-over state
                self.state_wait_timer = 0;
                self.state = GameState::Playing;
            }
            return ;
        } else if self.state == GameState::GameOver {
            display.clear();
            proof {
                reveal_strlit("DEAD");
                reveal_strlit("=");
            }
            display.draw_text(0, 0, "DEAD");
            display.draw_text(8, 0, "=");
            display.draw_number(8, 10, self.length);

            // delay for leaving the game-over state
            self.state_wait_timer = self.state_wait_timer.saturating_add(elapsed);

            if input.action() && self.state_wait_timer > 1000 {
                // restart by reinstantiating the whole game
                let rows = self.board.len();
                let cols = self.board[0].len();
                *self = SnakeGame::new(rows, cols);
            }
            return ;
        }  // else continue with the game logic

        self.update_timer = self.update_timer.saturating_add(elapsed);

        let new_direction = if input.left() {
            Direction::Left
        } else if input.right() {
            Direction::Right
        } else if input.up() {
            Direction::Up
        } else if input.down() {
            Direction::Down
        } else {
            self.direction
        };

        if !new_direction.is_opposite_to(self.direction) {
            self.direction = new_direction;
        }

        let ghost pre = spec_snake_pre(
            old(self)@,
            elapsed,
            input.spec_left(),
            input.spec_right(),
            input.spec_up(),
            input.spec_down(),
        );
        proof {
            assert(self@ == pre);
        }

        // spawn the apple on a free random cell if it is unspecified
        if self.apple_position_x < 0 {
            self.respawn_apple(random);
        }
        let ghost mid = self@;
        proof {
            assert(spec_apple_step(pre, mid));
        }

        if self.update_timer > self.update_rate {
            self.update_timer = self.update_timer - self.update_rate;

            self.advance();
        }
        proof {
            assert(self@ == spec_snake_tick(mid));
        }

        // redraw: the head (when it is on the grid), the apple if spawned,
        // and the whole trail -- also on the tick the head left the grid
        display.clear();

        let rows = self.board.len();
        let cols = self.board[0].len();
        if self.position_x >= 0 && self.position_y >= 0 && self.position_x < cols as isize
            && self.position_y < rows as isize {
            display.set_pixel(self.position_y as usize, self.position_x as usize, Pixel::On);
        }
        if self.apple_position_x >= 0 {
            display.set_pixel(
                self.apple_position_y as usize,
                self.apple_position_x as usize,
                Pixel::On,
            );
        }
        for r in 0..rows
            invariant
                spec_snake_wf(self@),
                rows == self@.board.len(),
                cols == self@.board[0].len(),
                display.spec_rows() == rows,
                display.spec_columns() == cols,
                forall|rr: int, cc: int|
                    0 <= rr < rows && 0 <= cc < cols ==> #[trigger] display.spec_pixel(rr, cc)
                        == spec_partial_frame(self@, rr, cc, rr < r),
        {
            for c in 0..cols
                invariant
                    spec_snake_wf(self@),
                    rows == self@.board.len(),
                    cols == self@.board[0].len(),
                    r < rows,
                    display.spec_rows() == rows,
                    display.spec_columns() == cols,
                    forall|rr: int, cc: int|
                        0 <= rr < rows && 0 <= cc < cols ==> #[trigger] display.spec_pixel(rr, cc)
                            == spec_partial_frame(self@, rr, cc, rr < r || (rr == r && cc < c)),
            {
                if self.get_age(r, c) > 0 {
                    display.set_pixel(r, c, Pixel::On);
                }
            }
        }
    }

    fn state(&self) -> GameState {
        self.state
    }
}

/// The frame as it stands midway through drawing the trail: head and apple
/// already shown, the trail only where `done` covers the cell.
spec fn spec_partial_frame(v: SnakeView, r: int, c: int, done: bool) -> Pixel {
    if (r == v.position_y && c == v.position_x) || (v.apple_position_x >= 0 && r
        == v.apple_position_y && c == v.apple_position_x) || (done && v.board[r][c] > 0) {
        Pixel::On
    } else {
        Pixel::Off
    }
}

} // verus!
