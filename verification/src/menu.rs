use vstd::prelude::*;

use crate::display::{spec_codes_of, spec_number_codes, spec_render_on, Pixel, PixelDisplay};
use crate::input::Input;
use crate::snake::{spec_snake_frame, spec_snake_update_rel, SnakeGame};
use crate::tetris::{spec_tetris_frame, spec_tetris_update_rel, TetrisGame};
use crate::{spec_ticker_update_rel, Game, GameState, RandomNumberSource, TickerGame};

verus! {

/// One of the games the menu can host, behind the shared tick contract.
pub enum MenuGame {
    Tetris(TetrisGame),
    Snake(SnakeGame),
    Ticker(TickerGame),
}

/// The pixel a delegated tick leaves at one grid cell, given the hosted
/// game before and after the tick: the ready or game-over banner of the
/// state the tick started in, or the live frame of the updated game.
pub open spec fn spec_menu_frame(g0: MenuGame, g1: MenuGame, r: int, c: int) -> Pixel {
    match (g0, g1) {
        (MenuGame::Tetris(t0), MenuGame::Tetris(t1)) => {
            if t0@.state == GameState::Start {
                if spec_render_on(spec_codes_of("RDY"@), 0, 0, r, c) {
                    Pixel::On
                } else {
                    Pixel::Off
                }
            } else if t0@.state == GameState::GameOver {
                if spec_render_on(spec_codes_of("DEAD"@), 0, 0, r, c) || spec_render_on(
                    spec_codes_of("="@),
                    8,
                    0,
                    r,
                    c,
                ) || spec_render_on(spec_number_codes(t0@.score), 8, 10, r, c) {
                    Pixel::On
                } else {
                    Pixel::Off
                }
            } else {
                spec_tetris_frame(t1@, r, c)
            }
        },
        (MenuGame::Snake(s0), MenuGame::Snake(s1)) => {
            if s0@.state == GameState::Start {
                if spec_render_on(spec_codes_of("RDY"@), 0, 0, r, c) || spec_render_on(
                    spec_codes_of("S"@),
                    8,
                    s0@.board[0].len() as int / 2 - 3,
                    r,
                    c,
                ) {
                    Pixel::On
                } else {
                    Pixel::Off
                }
            } else if s0@.state == GameState::GameOver {
                if spec_render_on(spec_codes_of("DEAD"@), 0, 0, r, c) || spec_render_on(
                    spec_codes_of("="@),
                    8,
                    0,
                    r,
                    c,
                ) || spec_render_on(spec_number_codes(s0@.length), 8, 10, r, c) {
                    Pixel::On
                } else {
                    Pixel::Off
                }
            } else {
                spec_snake_frame(s1@, r, c)
            }
        },
        (MenuGame::Ticker(k0), MenuGame::Ticker(k1)) => {
            if (r == k1@.row && c == k1@.col) || spec_render_on(
                spec_codes_of("HELLO!"@),
                0,
                0,
                r,
                c,
            ) {
                Pixel::On
            } else {
                Pixel::Off
            }
        },
        _ => Pixel::Off,
    }
}

/// How one delegated tick relates a hosted game to its updated self: the
/// variant is kept and the payload is related by that game's own update
/// relation, on a display of the given extent.
pub open spec fn spec_menu_game_rel(
    g0: MenuGame,
    g1: MenuGame,
    elapsed: u64,
    left: bool,
    right: bool,
    up: bool,
    down: bool,
    action: bool,
    rows: nat,
    cols: nat,
) -> bool {
    match g0 {
        MenuGame::Tetris(t0) => g1 matches MenuGame::Tetris(t1) && spec_tetris_update_rel(
            t0@,
            t1@,
            elapsed,
            left,
            right,
            down,
            action,
        ),
        MenuGame::Snake(s0) => g1 matches MenuGame::Snake(s1) && spec_snake_update_rel(
            s0@,
            s1@,
            elapsed,
            left,
            right,
            up,
            down,
            action,
        ),
        MenuGame::Ticker(k0) => g1 matches MenuGame::Ticker(k1) && spec_ticker_update_rel(
            k0@,
            k1@,
            elapsed,
            up,
            rows,
            cols,
        ),
    }
}

impl<I: Input, D: PixelDisplay, R: RandomNumberSource> Game<I, D, R> for MenuGame {
    open spec fn spec_wf(&self) -> bool {
        match self {
            MenuGame::Tetris(g) => <TetrisGame as Game<I, D, R>>::spec_wf(g),
            MenuGame::Snake(g) => <SnakeGame as Game<I, D, R>>::spec_wf(g),
            MenuGame::Ticker(g) => <TickerGame as Game<I, D, R>>::spec_wf(g),
        }
    }

    open spec fn spec_compatible(&self, rows: nat, cols: nat) -> bool {
        match self {
            MenuGame::Tetris(g) => <TetrisGame as Game<I, D, R>>::spec_compatible(g, rows, cols),
            MenuGame::Snake(g) => <SnakeGame as Game<I, D, R>>::spec_compatible(g, rows, cols),
            MenuGame::Ticker(g) => <TickerGame as Game<I, D, R>>::spec_compatible(g, rows, cols),
        }
    }

    open spec fn spec_state(&self) -> GameState {
        match self {
            MenuGame::Tetris(g) => <TetrisGame as Game<I, D, R>>::spec_state(g),
            MenuGame::Snake(g) => <SnakeGame as Game<I, D, R>>::spec_state(g),
            MenuGame::Ticker(g) => <TickerGame as Game<I, D, R>>::spec_state(g),
        }
    }

    fn update(&mut self, elapsed: u64, input: &I, display: &mut D, random: &mut R)
        ensures
            spec_menu_game_rel(
                *old(self),
                *final(self),
                elapsed,
                input.spec_left(),
                input.spec_right(),
                input.spec_up(),
                input.spec_down(),
                input.spec_action(),
                old(display).spec_rows(),
                old(display).spec_columns(),
            ),
            forall|r: int, c: int|
                0 <= r < old(display).spec_rows() && 0 <= c < old(display).spec_columns()
                    ==> #[trigger] final(display).spec_pixel(r, c) == spec_menu_frame(
                    *old(self),
                    *final(self),
                    r,
                    c,
                ),
    {
        match self {
            MenuGame::Tetris(g) => g.update(elapsed, input, display, random),
            MenuGame::Snake(g) => g.update(elapsed, input, display, random),
            MenuGame::Ticker(g) => g.update(elapsed, input, display, random),
        }
    }

    fn state(&self) -> GameState {
        match self {
            MenuGame::Tetris(g) => <TetrisGame as Game<I, D, R>>::state(g),
            MenuGame::Snake(g) => <SnakeGame as Game<I, D, R>>::state(g),
            MenuGame::Ticker(g) => <TickerGame as Game<I, D, R>>::state(g),
        }
    }
}

/// Whether (r, c) is one of the six pixels of the two corner arrows.
pub open spec fn spec_arrow_pixel(r: int, c: int, rows: int, cols: int) -> bool {
    ||| (r == rows - 1 && c == 1)
    ||| (r == rows - 2 && c == 0)
    ||| (r == rows - 3 && c == 1)
    ||| (r == rows - 1 && c == cols - 2)
    ||| (r == rows - 2 && c == cols - 1)
    ||| (r == rows - 3 && c == cols - 2)
}

/// The menu index after one tick: while switching is allowed, a left edge
/// cycles the index down and a right edge cycles it up, both wrapping at the
/// ends, in that order.
pub open spec fn spec_menu_index(i: int, len: int, left: bool, right: bool) -> int {
    let i1 = if left {
        if i == 0 {
            len - 1
        } else {
            i - 1
        }
    } else {
        i
    };
    if right {
        if i1 == len - 1 {
            0
        } else {
            i1 + 1
        }
    } else {
        i1
    }
}

/// Composes a non-empty ordered list of games behind one Game contract.
/// Every tick is delegated to the active game; only while that game reports
/// `Start` can left/right input cycle the active index, and small arrow
/// hints are drawn in the bottom corners of the display.
pub struct GameMenu {
    games: Vec<MenuGame>,
    current_index: usize,
}

impl GameMenu {
    /// The hosted games, for specifications.
    pub closed spec fn spec_games(&self) -> Seq<MenuGame> {
        self.games@
    }

    /// The index of the active game, for specifications.
    pub closed spec fn spec_index(&self) -> int {
        self.current_index as int
    }

    /// The index of the active game.
    pub fn current_index(&self) -> (i: usize)
        ensures
            i == self.spec_index(),
    {
        self.current_index
    }

    /// A menu over the given games; the first one starts active.
    pub fn new(games: Vec<MenuGame>) -> (m: Self)
        requires
            games@.len() >= 1,
        ensures
            m.spec_games() == games@,
            m.spec_index() == 0,
    {
        GameMenu { games, current_index: 0 }
    }
}

impl<I: Input, D: PixelDisplay, R: RandomNumberSource> Game<I, D, R> for GameMenu {
    open spec fn spec_wf(&self) -> bool {
        &&& self.spec_games().len() >= 1
        &&& 0 <= self.spec_index() < self.spec_games().len()
        &&& forall|k: int|
            0 <= k < self.spec_games().len() ==> <MenuGame as Game<I, D, R>>::spec_wf(
                &(#[trigger] self.spec_games()[k]),
            )
    }

    open spec fn spec_compatible(&self, rows: nat, cols: nat) -> bool {
        &&& 3 <= rows <= isize::MAX
        &&& 2 <= cols <= isize::MAX
        &&& forall|k: int|
            0 <= k < self.spec_games().len() ==> <MenuGame as Game<I, D, R>>::spec_compatible(
                &(#[trigger] self.spec_games()[k]),
                rows,
                cols,
            )
    }

    open spec fn spec_state(&self) -> GameState {
        <MenuGame as Game<I, D, R>>::spec_state(&self.spec_games()[self.spec_index()])
    }

    fn update(&mut self, elapsed: u64, input: &I, display: &mut D, random: &mut R)
        ensures
            final(self).spec_games().len() == old(self).spec_games().len(),
            forall|k: int|
                0 <= k < old(self).spec_games().len() && k != old(self).spec_index()
                    ==> final(self).spec_games()[k] == old(self).spec_games()[k],
            spec_menu_game_rel(
                old(self).spec_games()[old(self).spec_index()],
                final(self).spec_games()[old(self).spec_index()],
                elapsed,
                input.spec_left(),
                input.spec_right(),
                input.spec_up(),
                input.spec_down(),
                input.spec_action(),
                old(display).spec_rows(),
                old(display).spec_columns(),
            ),
            (<MenuGame as Game<I, D, R>>::spec_state(
                &old(self).spec_games()[old(self).spec_index()],
            ) == GameState::Start && !input.spec_action())
                ==> <MenuGame as Game<I, D, R>>::spec_state(
                &final(self).spec_games()[old(self).spec_index()],
            ) == GameState::Start,
            <MenuGame as Game<I, D, R>>::spec_state(
                &final(self).spec_games()[old(self).spec_index()],
            ) == GameState::Start ==> ({
                let rows = old(display).spec_rows() as int;
                let cols = old(display).spec_columns() as int;
                &&& final(display).spec_pixel(rows - 1, 1) == Pixel::On
                &&& final(display).spec_pixel(rows - 2, 0) == Pixel::On
                &&& final(display).spec_pixel(rows - 3, 1) == Pixel::On
                &&& final(display).spec_pixel(rows - 1, cols - 2) == Pixel::On
                &&& final(display).spec_pixel(rows - 2, cols - 1) == Pixel::On
                &&& final(display).spec_pixel(rows - 3, cols - 2) == Pixel::On
            }),
            forall|r: int, c: int|
                0 <= r < old(display).spec_rows() && 0 <= c < old(display).spec_columns() && !(
                <MenuGame as Game<I, D, R>>::spec_state(
                    &final(self).spec_games()[old(self).spec_index()],
                ) == GameState::Start && spec_arrow_pixel(
                    r,
                    c,
                    old(display).spec_rows() as int,
                    old(display).spec_columns() as int,
                )) ==> #[trigger] final(display).spec_pixel(r, c) == spec_menu_frame(
                    old(self).spec_games()[old(self).spec_index()],
                    final(self).spec_games()[old(self).spec_index()],
                    r,
                    c,
                ),
            ({
                let active = final(self).spec_games()[old(self).spec_index()];
                if <MenuGame as Game<I, D, R>>::spec_state(&active) == GameState::Start {
                    final(self).spec_index() == spec_menu_index(
                        old(self).spec_index(),
                        old(self).spec_games().len() as int,
                        input.spec_left(),
                        input.spec_right(),
                    )
                } else {
                    final(self).spec_index() == old(self).spec_index()
                }
            }),
    {
        let i = self.current_index;
        let n = self.games.len();

        // delegate to the currently selected game
        let mut g = self.games.remove(i);
        g.update(elapsed, input, display, random);
        let st = <MenuGame as Game<I, D, R>>::state(&g);
        self.games.insert(i, g);
        proof {
            assert(self.spec_games() =~= old(self).spec_games().update(i as int, g));
        }

        // when the game is in the start state, allow changing the game using
        // left & right, and hint at it with arrows in the bottom corners
        if st == GameState::Start {
            if input.left() {
                self.current_index = if self.current_index == 0 {
                    n - 1
                } else {
                    self.current_index - 1
                };
            }

            if input.right() {
                self.current_index = if self.current_index == n - 1 {
                    0
                } else {
                    self.current_index + 1
                };
            }

            let rows = display.rows();
            let cols = display.columns();
            display.set_pixel(rows - 1, 1, Pixel::On);
            display.set_pixel(rows - 2, 0, Pixel::On);
            display.set_pixel(rows - 3, 1, Pixel::On);
            display.set_pixel(rows - 1, cols - 2, Pixel::On);
            display.set_pixel(rows - 2, cols - 1, Pixel::On);
            display.set_pixel(rows - 3, cols - 2, Pixel::On);
        }
    }

    fn state(&self) -> GameState {
        let g = &self.games[self.current_index];
        <MenuGame as Game<I, D, R>>::state(g)
    }
}

} // verus!
