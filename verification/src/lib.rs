pub mod display;
pub mod font_monospace;
pub mod input;
pub mod menu;
pub mod snake;
pub mod tetris;

use vstd::prelude::*;

use crate::display::{spec_codes_of, spec_render_on, Pixel, PixelDisplay};
use crate::input::Input;

verus! {

/// Lifecycle of a game as seen by the menu and the host loop.
#[derive(Clone, Copy, Debug, PartialEq, Eq, Structural)]
pub enum GameState {
    Start,
    Playing,
    GameOver,
}

/// Source of uniformly distributed unsigned 32-bit values, supplied by the
/// host so the engine stays deterministic and testable.  Nothing can be
/// promised of the values themselves.
pub trait RandomNumberSource: Sized {
    fn next_u32(&mut self) -> u32;
}

/// One game behind the shared tick contract.
///
/// `update` runs the logic of the game given the current state of the input
/// and draws the full current state to the display in immediate-mode style,
/// once per tick with the elapsed milliseconds.  `state` reports the
/// lifecycle state without side effects.  The spec members let every
/// implementation publish its own well-formedness and the display extent it
/// needs; both are preserved by every tick.
pub trait Game<I: Input, D: PixelDisplay, R: RandomNumberSource>: Sized {
    /// Internal consistency of the game's own state.
    spec fn spec_wf(&self) -> bool;

    /// Whether a display of the given extent can host this game's state.
    spec fn spec_compatible(&self, rows: nat, cols: nat) -> bool;

    /// The lifecycle state that `state` reports.
    spec fn spec_state(&self) -> GameState;

    fn update(&mut self, elapsed: u64, input: &I, display: &mut D, random: &mut R)
        requires
            old(self).spec_wf(),
            old(self).spec_compatible(old(display).spec_rows(), old(display).spec_columns()),
        ensures
            final(self).spec_wf(),
            final(self).spec_compatible(old(display).spec_rows(), old(display).spec_columns()),
            final(display).spec_rows() == old(display).spec_rows(),
            final(display).spec_columns() == old(display).spec_columns(),
    ;

    fn state(&self) -> (s: GameState)
        requires
            self.spec_wf(),
        ensures
            s == self.spec_state(),
    ;
}

/// A minimal demonstration game: a single pixel wanders over the grid while
/// a greeting is shown.
pub struct TickerGame {
    time: u64,
    row: usize,
    col: usize,
}

/// The observable state of a `TickerGame`: its accumulated timer and the
/// position of the wandering pixel.
pub struct TickerView {
    pub time: u64,
    pub row: usize,
    pub col: usize,
}

/// How one `TickerGame` tick relates the state before it to the state
/// after it, on a display of the given extent.
pub open spec fn spec_ticker_update_rel(
    v0: TickerView,
    v1: TickerView,
    elapsed: u64,
    up: bool,
    rows: nat,
    cols: nat,
) -> bool {
    let t1 = v0.time.saturating_add(elapsed);
    let moved = t1 > 200;
    &&& v1.time == if moved {
        (t1 - 200) as u64
    } else {
        t1
    }
    &&& v1.row == if moved {
        ((v0.row + 1) as int % rows as int) as usize
    } else {
        v0.row
    }
    &&& v1.col == if moved {
        if up {
            ((v0.col + 1) as int % cols as int) as usize
        } else if v0.col > 0 {
            (v0.col - 1) as usize
        } else {
            0
        }
    } else {
        v0.col
    }
}

impl View for TickerGame {
    type V = TickerView;

    closed spec fn view(&self) -> TickerView {
        TickerView { time: self.time, row: self.row, col: self.col }
    }
}

impl TickerGame {
    pub fn new() -> (r: Self)
        ensures
            r@.time == 0,
            r@.row == 0,
            r@.col == 0,
    {
        TickerGame { time: 0, row: 0, col: 0 }
    }
}

impl Default for TickerGame {
    fn default() -> (r: Self)
        ensures
            r@.time == 0,
            r@.row == 0,
            r@.col == 0,
    {
        TickerGame::new()
    }
}

impl<I: Input, D: PixelDisplay, R: RandomNumberSource> Game<I, D, R> for TickerGame {
    open spec fn spec_wf(&self) -> bool {
        true
    }

    open spec fn spec_compatible(&self, rows: nat, cols: nat) -> bool {
        &&& 1 <= rows <= isize::MAX
        &&& 1 <= cols <= isize::MAX
        &&& self@.row < rows
        &&& self@.col < cols
    }

    open spec fn spec_state(&self) -> GameState {
        GameState::Start
    }

    fn update(&mut self, elapsed: u64, input: &I, display: &mut D, _random: &mut R)
        ensures
            spec_ticker_update_rel(
                old(self)@,
                final(self)@,
                elapsed,
                input.spec_up(),
                old(display).spec_rows(),
                old(display).spec_columns(),
            ),
            forall|r: int, c: int|
                0 <= r < old(display).spec_rows() && 0 <= c < old(display).spec_columns()
                    ==> #[trigger] final(display).spec_pixel(r, c) == (if (r == final(self)@.row
                    && c == final(self)@.col) || spec_render_on(
                    spec_codes_of("HELLO!"@),
                    0,
                    0,
                    r,
                    c,
                ) {
                    Pixel::On
                } else {
                    Pixel::Off
                }),
    {
        self.time = self.time.saturating_add(elapsed);

        if self.time > 200 {
            self.time = self.time - 200;

            self.row = (self.row + 1) % display.rows();

            if input.up() {
                self.col = (self.col + 1) % display.columns();
            } else if self.col > 0 {
                self.col = self.col - 1;
            }
        }

        display.clear();
        display.set_pixel(self.row, self.col, Pixel::On);

        proof {
            reveal_strlit("HELLO!");
        }
        display.draw_text(0, 0, "HELLO!");
    }

    fn state(&self) -> GameState {
        GameState::Start
    }
}

} // verus!
