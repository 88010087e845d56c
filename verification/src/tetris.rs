use vstd::prelude::*;

use crate::display::{spec_codes_of, spec_number_codes, spec_render_on, Pixel, PixelDisplay};
use crate::input::Input;
use crate::{Game, GameState, RandomNumberSource};

verus! {

/// Occupancy of one board cell.
#[derive(Clone, Copy, Debug, PartialEq, Eq, Structural)]
pub enum BoardState {
    Free,
    Occupied,
}

/// The four piece kinds.
#[derive(Clone, Copy, Debug, PartialEq, Eq, Structural)]
pub enum Type {
    Square,
    L,
    T,
    Line,
}

/// The cell offsets of each piece kind, relative to its anchor, before
/// rotation.
pub open spec fn spec_pattern(kind: Type) -> Seq<(int, int)> {
    match kind {
        Type::Square => seq![(0, 0), (0, 1), (1, 0), (1, 1)],
        Type::L => seq![(-2, 0), (-1, 0), (0, 0), (0, 1)],
        Type::T => seq![(-1, 0), (0, 0), (0, 1), (1, 0)],
        Type::Line => seq![(-1, 0), (0, 0), (1, 0), (2, 0)],
    }
}

/// The kind a drawn random value selects, uniform over the four kinds via
/// modulo.
pub open spec fn spec_type_from_draw(value: u32) -> Type {
    if value % 4 == 0 {
        Type::Square
    } else if value % 4 == 1 {
        Type::L
    } else if value % 4 == 2 {
        Type::T
    } else {
        Type::Line
    }
}

impl Type {
    /// The kind selected by one drawn random value.
    pub fn from_draw(value: u32) -> (r: Self)
        ensures
            r == spec_type_from_draw(value),
    {
        match value % 4 {
            0 => Self::Square,
            1 => Self::L,
            2 => Self::T,
            3 => Self::Line,
            _ => Self::Square,
        }
    }

    /// Picks one of the four kinds from the next random value.
    pub fn new_random<R: RandomNumberSource>(rng: &mut R) -> Self {
        Self::from_draw(rng.next_u32())
    }

    /// Returns the list of offsets to apply for this type.
    pub fn pattern(self) -> (r: Vec<(isize, isize)>)
        ensures
            r@.len() == 4,
            forall|i: int|
                0 <= i < 4 ==> (#[trigger] r@[i].0 as int, r@[i].1 as int) == spec_pattern(
                    self,
                )[i],
    {
        match self {
            Type::Square => vec![(0, 0), (0, 1), (1, 0), (1, 1)],
            Type::L => vec![(-2, 0), (-1, 0), (0, 0), (0, 1)],
            Type::T => vec![(-1, 0), (0, 0), (0, 1), (1, 0)],
            Type::Line => vec![(-1, 0), (0, 0), (1, 0), (2, 0)],
        }
    }
}

/// The four rotations, in quarter turns.
#[derive(Clone, Copy, Debug, PartialEq, Eq, Structural)]
pub enum Rotation {
    R0,
    R90,
    R180,
    R270,
}

/// A quarter turn applied to a (row, column) offset.
pub open spec fn spec_apply(rot: Rotation, dr: int, dc: int) -> (int, int) {
    match rot {
        Rotation::R0 => (dr, dc),
        Rotation::R90 => (-dc, dr),
        Rotation::R180 => (-dr, -dc),
        Rotation::R270 => (dc, -dr),
    }
}

/// One quarter turn clockwise.
pub open spec fn spec_rotate_right(rot: Rotation) -> Rotation {
    match rot {
        Rotation::R0 => Rotation::R90,
        Rotation::R90 => Rotation::R180,
        Rotation::R180 => Rotation::R270,
        Rotation::R270 => Rotation::R0,
    }
}

/// One quarter turn counterclockwise.
pub open spec fn spec_rotate_left(rot: Rotation) -> Rotation {
    match rot {
        Rotation::R0 => Rotation::R270,
        Rotation::R90 => Rotation::R0,
        Rotation::R180 => Rotation::R90,
        Rotation::R270 => Rotation::R180,
    }
}

/// The rotation a drawn random value selects, uniform over the four
/// rotations via modulo.
pub open spec fn spec_rotation_from_draw(value: u32) -> Rotation {
    if value % 4 == 0 {
        Rotation::R0
    } else if value % 4 == 1 {
        Rotation::R90
    } else if value % 4 == 2 {
        Rotation::R180
    } else {
        Rotation::R270
    }
}

impl Rotation {
    /// The rotation selected by one drawn random value.
    pub fn from_draw(value: u32) -> (r: Self)
        ensures
            r == spec_rotation_from_draw(value),
    {
        match value % 4 {
            0 => Self::R0,
            1 => Self::R90,
            2 => Self::R180,
            3 => Self::R270,
            _ => Self::R0,
        }
    }

    /// Picks one of the four rotations from the next random value.
    pub fn new_random<R: RandomNumberSource>(rng: &mut R) -> Self {
        Self::from_draw(rng.next_u32())
    }

    /// Applies this rotation to a (row, column) tuple.
    pub fn apply(&self, offset: (isize, isize)) -> (r: (isize, isize))
        requires
            offset.0 > isize::MIN,
            offset.1 > isize::MIN,
        ensures
            (r.0 as int, r.1 as int) == spec_apply(*self, offset.0 as int, offset.1 as int),
    {
        match self {
            Rotation::R0 => offset,
            Rotation::R90 => (-offset.1, offset.0),
            Rotation::R180 => (-offset.0, -offset.1),
            Rotation::R270 => (offset.1, -offset.0),
        }
    }

    /// Turns this rotation one quarter turn clockwise.
    pub fn rotate_right(&mut self)
        ensures
            *final(self) == spec_rotate_right(*old(self)),
    {
        *self = match self {
            Rotation::R0 => Self::R90,
            Rotation::R90 => Self::R180,
            Rotation::R180 => Self::R270,
            Rotation::R270 => Self::R0,
        }
    }

    /// Turns this rotation one quarter turn counterclockwise.
    pub fn rotate_left(&mut self)
        ensures
            *final(self) == spec_rotate_left(*old(self)),
    {
        *self = match self {
            Rotation::R0 => Self::R270,
            Rotation::R90 => Self::R0,
            Rotation::R180 => Self::R90,
            Rotation::R270 => Self::R180,
        }
    }
}

/// Rotating right four times returns every rotation to itself, and rotating
/// left exactly undoes rotating right (and the other way around).
pub proof fn lemma_rotation_cycle(rot: Rotation)
    ensures
        spec_rotate_right(spec_rotate_right(spec_rotate_right(spec_rotate_right(rot)))) == rot,
        spec_rotate_left(spec_rotate_right(rot)) == rot,
        spec_rotate_right(spec_rotate_left(rot)) == rot,
{
}

/// A falling piece: kind, rotation, and anchor position.  Negative anchor
/// coordinates are allowed; pieces spawn above the visible board.
#[derive(Clone, Copy, Debug, PartialEq, Eq, Structural)]
pub struct Tetronomicon {
    pub kind: Type,
    pub rotation: Rotation,
    pub row: isize,
    pub column: isize,
}

/// The board cell covered by the piece's `i`-th pattern offset, after
/// rotation and anchoring.
pub open spec fn spec_cell(t: Tetronomicon, i: int) -> (int, int) {
    let offset = spec_pattern(t.kind)[i];
    let rotated = spec_apply(t.rotation, offset.0, offset.1);
    (t.row + rotated.0, t.column + rotated.1)
}

impl Tetronomicon {
    /// A random kind and rotation, anchored above the visible board.
    pub fn new_random<R: RandomNumberSource>(rng: &mut R) -> (t: Self)
        ensures
            t.row == -4,
            t.column == 8,
    {
        Tetronomicon {
            kind: Type::new_random(rng),
            rotation: Rotation::new_random(rng),
            row: -4,  // start above the screen
            column: 8,
        }
    }

    /// The four board cells this piece covers.
    pub fn cells(&self) -> (r: Vec<(isize, isize)>)
        requires
            isize::MIN + 4 <= self.row <= isize::MAX - 4,
            isize::MIN + 4 <= self.column <= isize::MAX - 4,
        ensures
            r@.len() == 4,
            forall|i: int|
                0 <= i < 4 ==> (#[trigger] r@[i].0 as int, r@[i].1 as int) == spec_cell(*self, i),
    {
        let pattern = self.kind.pattern();
        let mut result: Vec<(isize, isize)> = Vec::new();
        for idx in 0..4usize
            invariant
                pattern@.len() == 4,
                forall|i: int|
                    0 <= i < 4 ==> (#[trigger] pattern@[i].0 as int, pattern@[i].1 as int)
                        == spec_pattern(self.kind)[i],
                isize::MIN + 4 <= self.row <= isize::MAX - 4,
                isize::MIN + 4 <= self.column <= isize::MAX - 4,
                result@.len() == idx,
                forall|i: int|
                    0 <= i < idx ==> (#[trigger] result@[i].0 as int, result@[i].1 as int)
                        == spec_cell(*self, i),
        {
            let offset = pattern[idx];
            assert(-2 <= offset.0 <= 2 && -2 <= offset.1 <= 2) by {
                assert((pattern@[idx as int].0 as int, pattern@[idx as int].1 as int)
                    == spec_pattern(self.kind)[idx as int]);
            }
            let rotated = self.rotation.apply(offset);
            result.push((self.row + rotated.0, self.column + rotated.1));
        }
        result
    }
}

/// The Tetris occupancy grid.  Its two core operations are the row-complete
/// test and the shift-down-on-clear pass.
pub struct Board {
    cells: Vec<Vec<BoardState>>,
}

impl View for Board {
    type V = Seq<Seq<BoardState>>;

    closed spec fn view(&self) -> Seq<Seq<BoardState>> {
        self.cells@.map_values(|line: Vec<BoardState>| line@)
    }
}

/// A well-formed board view: a non-empty rectangle.
pub open spec fn spec_grid_wf(g: Seq<Seq<BoardState>>) -> bool {
    &&& g.len() >= 1
    &&& g[0].len() >= 1
    &&& forall|i: int| 0 <= i < g.len() ==> (#[trigger] g[i].len()) == g[0].len()
}

/// A row is full when all but the last column are occupied.
pub open spec fn spec_row_full(line: Seq<BoardState>) -> bool {
    forall|c: int| 0 <= c < line.len() - 1 ==> (#[trigger] line[c]) == BoardState::Occupied
}

/// The grid after the rows above `k` moved down one slot onto row `k`; the
/// top row keeps its value.
pub open spec fn spec_shift_down(g: Seq<Seq<BoardState>>, k: int) -> Seq<Seq<BoardState>> {
    Seq::new(g.len(), |i: int| if 1 <= i <= k { g[i - 1] } else { g[i] })
}

/// One top-to-bottom clearing pass starting at row `r`: each full row is
/// replaced by the rows above it shifting down, and the number of cleared
/// rows is counted.  The scan continues on the shifted grid.
pub open spec fn spec_collapse_from(g: Seq<Seq<BoardState>>, r: int) -> (Seq<Seq<BoardState>>, int)
    decreases g.len() - r,
{
    if r < 0 || r >= g.len() {
        (g, 0)
    } else {
        let g2 = if spec_row_full(g[r]) {
            spec_shift_down(g, r)
        } else {
            g
        };
        let rest = spec_collapse_from(g2, r + 1);
        (rest.0, rest.1 + if spec_row_full(g[r]) {
            1int
        } else {
            0int
        })
    }
}

/// The full clearing pass over the whole grid.
pub open spec fn spec_collapse(g: Seq<Seq<BoardState>>) -> (Seq<Seq<BoardState>>, int) {
    spec_collapse_from(g, 0)
}

/// An element-for-element copy of one board row.
fn copy_row(src: &Vec<BoardState>) -> (r: Vec<BoardState>)
    ensures
        r@ == src@,
{
    let mut r: Vec<BoardState> = Vec::new();
    let n = src.len();
    for i in 0..n
        invariant
            n == src@.len(),
            r@.len() == i,
            forall|k: int| 0 <= k < i ==> #[trigger] r@[k] == src@[k],
    {
        r.push(src[i]);
    }
    proof {
        assert(r@ =~= src@);
    }
    r
}

impl Board {
    pub open spec fn wf(&self) -> bool {
        spec_grid_wf(self@)
    }

    pub open spec fn spec_rows(&self) -> nat {
        self@.len()
    }

    pub open spec fn spec_cols(&self) -> nat {
        self@[0].len()
    }

    /// A rows x cols board with every cell free.
    pub fn new(rows: usize, cols: usize) -> (b: Self)
        requires
            1 <= rows,
            1 <= cols,
        ensures
            b.wf(),
            b.spec_rows() == rows,
            b.spec_cols() == cols,
            forall|r: int, c: int|
                0 <= r < rows && 0 <= c < cols ==> (#[trigger] b@[r][c]) == BoardState::Free,
    {
        let mut cells: Vec<Vec<BoardState>> = Vec::new();
        for i in 0..rows
            invariant
                cells@.len() == i,
                forall|r: int| 0 <= r < i ==> (#[trigger] cells@[r]@.len()) == cols,
                forall|r: int, c: int|
                    0 <= r < i && 0 <= c < cols ==> (#[trigger] cells@[r]@[c]) == BoardState::Free,
        {
            let mut line: Vec<BoardState> = Vec::new();
            for j in 0..cols
                invariant
                    line@.len() == j,
                    forall|c: int| 0 <= c < j ==> (#[trigger] line@[c]) == BoardState::Free,
            {
                line.push(BoardState::Free);
            }
            cells.push(line);
        }
        Board { cells }
    }

    pub fn rows(&self) -> (r: usize)
        ensures
            r == self.spec_rows(),
    {
        self.cells.len()
    }

    pub fn cols(&self) -> (c: usize)
        requires
            self.wf(),
        ensures
            c == self.spec_cols(),
    {
        self.cells[0].len()
    }

    pub fn get(&self, row: usize, col: usize) -> (v: BoardState)
        requires
            self.wf(),
            row < self.spec_rows(),
            col < self.spec_cols(),
        ensures
            v == self@[row as int][col as int],
    {
        self.cells[row][col]
    }

    pub fn set(&mut self, row: usize, col: usize, v: BoardState)
        requires
            old(self).wf(),
            row < old(self).spec_rows(),
            col < old(self).spec_cols(),
        ensures
            final(self).wf(),
            final(self)@ == old(self)@.update(
                row as int,
                old(self)@[row as int].update(col as int, v),
            ),
    {
        let mut line = copy_row(&self.cells[row]);
        proof {
            assert(line@ == self@[row as int]);
            assert(line@.len() == self@[0].len());
        }
        line[col] = v;
        self.cells[row] = line;
        proof {
            assert(self@ =~~= old(self)@.update(
                row as int,
                old(self)@[row as int].update(col as int, v),
            ));
        }
    }

    /// Whether all but the last column of the given row are occupied.
    pub fn row_is_full(&self, row: usize) -> (b: bool)
        requires
            self.wf(),
            row < self.spec_rows(),
        ensures
            b == spec_row_full(self@[row as int]),
    {
        let cols = self.cols();
        for c in 0..cols - 1
            invariant
                self.wf(),
                cols == self.spec_cols(),
                row < self.spec_rows(),
                forall|k: int|
                    0 <= k < c ==> (#[trigger] self@[row as int][k]) == BoardState::Occupied,
        {
            if self.get(row, c) != BoardState::Occupied {
                return false;
            }
        }
        true
    }

    /// Scans the rows from the top; every full row is removed by shifting
    /// all rows above it down one slot.  Returns how many rows were full.
    pub fn clear_full_rows(&mut self) -> (cleared: usize)
        requires
            old(self).wf(),
        ensures
            final(self).wf(),
            final(self).spec_rows() == old(self).spec_rows(),
            final(self).spec_cols() == old(self).spec_cols(),
            final(self)@ == spec_collapse(old(self)@).0,
            cleared == spec_collapse(old(self)@).1,
    {
        let rows = self.cells.len();
        let mut cleared: usize = 0;
        for row in 0..rows
            invariant
                self.wf(),
                rows == self.spec_rows(),
                self.spec_rows() == old(self).spec_rows(),
                self.spec_cols() == old(self).spec_cols(),
                cleared <= row,
                spec_collapse(old(self)@).0 == spec_collapse_from(self@, row as int).0,
                spec_collapse(old(self)@).1 == cleared + spec_collapse_from(self@, row as int).1,
        {
            let ghost prev = self@;
            if self.row_is_full(row) {
                let line = copy_row(&self.cells[0]);
                self.cells.remove(row);
                self.cells.insert(0, line);
                proof {
                    assert(self@ =~~= spec_shift_down(prev, row as int));
                }
                cleared = cleared + 1;
            }
        }
        cleared
    }
}

/// Saturating addition at the usize limit, as a mathematical value.
pub open spec fn spec_sat_add_usize(a: int, b: int) -> int {
    if a + b > usize::MAX {
        usize::MAX as int
    } else {
        a + b
    }
}

/// The grid with the four cells of `t` stamped `Occupied`; cells outside the
/// grid (including those above it) are ignored.
pub open spec fn spec_stamp(g: Seq<Seq<BoardState>>, t: Tetronomicon) -> Seq<Seq<BoardState>> {
    Seq::new(
        g.len(),
        |r: int|
            Seq::new(
                g[r].len(),
                |c: int|
                    if exists|i: int| 0 <= i < 4 && #[trigger] spec_cell(t, i) == (r, c) {
                        BoardState::Occupied
                    } else {
                        g[r][c]
                    },
            ),
    )
}

/// Piece anchors stay near the board; wide enough for the fixed spawn
/// position and one speculative step in any direction.
pub open spec fn spec_piece_bounded(t: Tetronomicon, rows: int, cols: int) -> bool {
    &&& -8 <= t.row <= rows + 8
    &&& -8 <= t.column <= cols + 16
}

/// Whether one cell of the piece lies inside the side and bottom walls and
/// over a free board cell.  Cells above the board (negative row) count as in
/// bounds, since pieces spawn above the visible field.
pub open spec fn spec_cell_ok(t: Tetronomicon, g: Seq<Seq<BoardState>>, i: int) -> bool {
    let cell = spec_cell(t, i);
    &&& 0 <= cell.1 < g[0].len()
    &&& cell.0 < g.len()
    &&& (cell.0 >= 0 ==> g[cell.0][cell.1] == BoardState::Free)
}

/// A piece placement is valid when every one of its four cells is.
pub open spec fn spec_is_valid(t: Tetronomicon, g: Seq<Seq<BoardState>>) -> bool {
    forall|i: int| 0 <= i < 4 ==> #[trigger] spec_cell_ok(t, g, i)
}

/// Every pattern contains the offset (0, 0), so a valid placement pins the
/// anchor itself inside the board walls.
proof fn lemma_valid_anchor(t: Tetronomicon, g: Seq<Seq<BoardState>>)
    requires
        spec_grid_wf(g),
        spec_is_valid(t, g),
    ensures
        0 <= t.column < g[0].len(),
        t.row < g.len(),
{
    let i: int = match t.kind {
        Type::Square => 0,
        Type::L => 2,
        Type::T => 1,
        Type::Line => 1,
    };
    assert(spec_cell_ok(t, g, i));
    assert(spec_pattern(t.kind)[i] == (0int, 0int));
    assert(spec_cell(t, i) == (t.row as int, t.column as int));
}

/// The full initial state of a Tetris game on a rows x cols board.
pub open spec fn spec_tetris_initial(rows: int, cols: int) -> TetrisView {
    TetrisView {
        state: GameState::Start,
        update_timer: 0,
        update_rate: 400,
        board: Seq::new(rows as nat, |r: int| Seq::new(cols as nat, |c: int| BoardState::Free)),
        score: 0,
        state_wait_timer: 0,
        current: None,
    }
}

/// The pixel the running game shows at one grid cell: on exactly over
/// occupied board cells and over the cells of the falling piece.
pub open spec fn spec_tetris_frame(v: TetrisView, r: int, c: int) -> Pixel {
    if v.board[r][c] == BoardState::Occupied || (match v.current {
        Some(t) => exists|i: int| 0 <= i < 4 && #[trigger] spec_cell(t, i) == (r, c),
        None => false,
    }) {
        Pixel::On
    } else {
        Pixel::Off
    }
}


/// A speculative clockwise rotation: applied, then rolled back with the
/// inverse rotation when the result is not valid.
pub open spec fn spec_try_rotate(t: Tetronomicon, g: Seq<Seq<BoardState>>) -> Tetronomicon {
    let turned = Tetronomicon { rotation: spec_rotate_right(t.rotation), ..t };
    if spec_is_valid(turned, g) {
        turned
    } else {
        t
    }
}

/// A speculative horizontal move: applied, then rolled back with the inverse
/// offset when the result is not valid.
pub open spec fn spec_try_shift(t: Tetronomicon, g: Seq<Seq<BoardState>>, dc: int) -> Tetronomicon {
    let moved = Tetronomicon { column: (t.column + dc) as isize, ..t };
    if spec_is_valid(moved, g) {
        moved
    } else {
        t
    }
}

/// The falling piece after the input phase of one tick: rotate on action,
/// then shift right, then shift left, each speculative-then-validate.
pub open spec fn spec_input_moves(
    t: Tetronomicon,
    g: Seq<Seq<BoardState>>,
    action: bool,
    right: bool,
    left: bool,
) -> Tetronomicon {
    let t1 = if action {
        spec_try_rotate(t, g)
    } else {
        t
    };
    let t2 = if right {
        spec_try_shift(t1, g, 1)
    } else {
        t1
    };
    if left {
        spec_try_shift(t2, g, -1)
    } else {
        t2
    }
}


/// How one `move_down` call relates the state before it to the state after
/// it.  With no piece in play nothing changes.  A piece that can move down
/// does; one that cannot has landed: its cells are stamped onto the board,
/// the lock is scored, full rows are cleared for ten points each, a lock at
/// or above the top row ends the game, and a random piece spawns above the
/// field.
pub open spec fn spec_move_down_rel(v: TetrisView, w: TetrisView) -> bool {
    &&& w.update_timer == v.update_timer
    &&& w.update_rate == v.update_rate
    &&& w.state_wait_timer == v.state_wait_timer
    &&& w.board.len() == v.board.len()
    &&& w.board[0].len() == v.board[0].len()
    &&& match v.current {
        None => w == v,
        Some(t) => {
            let moved = Tetronomicon { row: (t.row + 1) as isize, ..t };
            if spec_is_valid(moved, v.board) {
                w == TetrisView { current: Some(moved), ..v }
            } else {
                let collapsed = spec_collapse(spec_stamp(v.board, t));
                &&& w.board == collapsed.0
                &&& w.score == spec_sat_add_usize(v.score as int, 1 + 10 * collapsed.1)
                &&& w.state == if t.row <= 0 {
                    GameState::GameOver
                } else {
                    v.state
                }
                &&& (w.current matches Some(p) && p.row == -4 && p.column == 8)
            }
        },
    }
}

/// `spec_move_down_rel` when the drop applies, the identity when not.
pub open spec fn spec_move_down_opt(v: TetrisView, w: TetrisView, applies: bool) -> bool {
    if applies {
        spec_move_down_rel(v, w)
    } else {
        w == v
    }
}

/// How the empty falling slot is refilled when the drop timer fires: a
/// random piece appears above the field; an occupied slot stays as it is.
pub open spec fn spec_spawn_rel(v: TetrisView, w: TetrisView) -> bool {
    match v.current {
        Some(_) => w == v,
        None => {
            &&& (w.current matches Some(p) && p.row == -4 && p.column == 8)
            &&& w == TetrisView { current: w.current, ..v }
        },
    }
}

/// The state after the timer and input phase of one running tick: the
/// elapsed time is accumulated and the falling piece, if any, has taken the
/// requested rotation and shifts.
pub open spec fn spec_after_input(
    v: TetrisView,
    elapsed: u64,
    action: bool,
    right: bool,
    left: bool,
) -> TetrisView {
    TetrisView {
        update_timer: v.update_timer.saturating_add(elapsed),
        current: match v.current {
            Some(t) => Some(spec_input_moves(t, v.board, action, right, left)),
            None => None,
        },
        ..v
    }
}

/// The whole logic of one running tick, after the input phase: an optional
/// player-requested drop, then, when the accumulated time exceeds the update
/// rate, the rate is deducted, an empty slot is refilled, and the piece
/// drops once more.
pub open spec fn spec_playing_chain(
    after_input: TetrisView,
    after_down: TetrisView,
    spawned: TetrisView,
    end: TetrisView,
    down: bool,
) -> bool {
    &&& spec_move_down_opt(after_input, after_down, down && after_input.current is Some)
    &&& if after_down.update_timer > after_down.update_rate {
        let ticked = TetrisView {
            update_timer: (after_down.update_timer - after_down.update_rate) as u64,
            ..after_down
        };
        &&& spec_spawn_rel(ticked, spawned)
        &&& spec_move_down_rel(spawned, end)
    } else {
        &&& spawned == after_down
        &&& end == after_down
    }
}

/// How one `TetrisGame` tick relates the state before it to the state after
/// it (the display effect is stated separately on `update` itself).
pub open spec fn spec_tetris_update_rel(
    v0: TetrisView,
    v1: TetrisView,
    elapsed: u64,
    left: bool,
    right: bool,
    down: bool,
    action: bool,
) -> bool {
    &&& v0.state == GameState::Start ==> ({
        let t1 = v0.state_wait_timer.saturating_add(elapsed);
        if action && t1 > 1000 {
            v1 == TetrisView { state: GameState::Playing, state_wait_timer: 0, ..v0 }
        } else {
            v1 == TetrisView { state_wait_timer: t1, ..v0 }
        }
    })
    &&& v0.state == GameState::GameOver ==> ({
        let t1 = v0.state_wait_timer.saturating_add(elapsed);
        if action && t1 > 1000 {
            v1 == spec_tetris_initial(v0.board.len() as int, v0.board[0].len() as int)
        } else {
            v1 == TetrisView { state_wait_timer: t1, ..v0 }
        }
    })
    &&& v0.state == GameState::Playing ==> ({
        let t1 = v0.update_timer.saturating_add(elapsed);
        &&& v1.update_rate == v0.update_rate
        &&& v1.state_wait_timer == v0.state_wait_timer
        &&& v1.update_timer == if t1 > v0.update_rate {
            (t1 - v0.update_rate) as u64
        } else {
            t1
        }
        &&& (v1.state == GameState::Playing || v1.state == GameState::GameOver)
        &&& v1.score >= v0.score
    })
    &&& v0.state == GameState::Playing ==> (exists|after_down: TetrisView, spawned: TetrisView|
        #[trigger] spec_playing_chain(
            spec_after_input(v0, elapsed, action, right, left),
            after_down,
            spawned,
            v1,
            down,
        ))
}

/// Grid-based falling-piece simulation with rotation, collision, locking,
/// row clearing, and scoring.
pub struct TetrisGame {
    state: GameState,
    update_timer: u64,
    update_rate: u64,
    board: Board,
    score: usize,
    state_wait_timer: u64,
    current: Option<Tetronomicon>,
}

/// The observable state of a `TetrisGame`.
pub struct TetrisView {
    pub state: GameState,
    pub update_timer: u64,
    pub update_rate: u64,
    pub board: Seq<Seq<BoardState>>,
    pub score: usize,
    pub state_wait_timer: u64,
    pub current: Option<Tetronomicon>,
}

impl View for TetrisGame {
    type V = TetrisView;

    closed spec fn view(&self) -> TetrisView {
        TetrisView {
            state: self.state,
            update_timer: self.update_timer,
            update_rate: self.update_rate,
            board: self.board@,
            score: self.score,
            state_wait_timer: self.state_wait_timer,
            current: self.current,
        }
    }
}

/// Internal consistency of a Tetris game: a well-formed board whose extent
/// leaves room for the piece arithmetic, and a piece anchored near it.
pub open spec fn spec_tetris_wf(v: TetrisView) -> bool {
    &&& spec_grid_wf(v.board)
    &&& v.board.len() <= isize::MAX - 16
    &&& v.board[0].len() <= isize::MAX - 32
    &&& match v.current {
        Some(t) => spec_piece_bounded(t, v.board.len() as int, v.board[0].len() as int),
        None => true,
    }
}

impl TetrisGame {
    /// A fresh game on a rows x cols board: waiting to start, empty board,
    /// no falling piece, drop timer of 400 ms.
    pub fn new(rows: usize, cols: usize) -> (g: Self)
        requires
            1 <= rows <= isize::MAX - 16,
            1 <= cols <= isize::MAX - 32,
        ensures
            g@ == spec_tetris_initial(rows as int, cols as int),
            spec_tetris_wf(g@),
    {
        let g = TetrisGame {
            state: GameState::Start,
            update_timer: 0,
            update_rate: 400,
            board: Board::new(rows, cols),
            score: 0,
            state_wait_timer: 0,
            current: None,
        };
        proof {
            assert(g@.board =~~= spec_tetris_initial(rows as int, cols as int).board);
            assert(g@ == spec_tetris_initial(rows as int, cols as int));
        }
        g
    }

    /// The accumulated score, for the host and for tests.
    pub fn score(&self) -> (s: usize)
        ensures
            s == self@.score,
    {
        self.score
    }

    /// The falling piece, if one is in play.
    pub fn current_piece(&self) -> (t: Option<Tetronomicon>)
        ensures
            t == self@.current,
    {
        self.current
    }

    /// Checks that a piece does not go outside the side or bottom edges of
    /// the field and does not collide with any occupied cell.
    pub fn is_valid(t: &Tetronomicon, board: &Board) -> (r: bool)
        requires
            board.wf(),
            board.spec_rows() <= isize::MAX,
            board.spec_cols() <= isize::MAX,
            isize::MIN + 4 <= t.row <= isize::MAX - 4,
            isize::MIN + 4 <= t.column <= isize::MAX - 4,
        ensures
            r == spec_is_valid(*t, board@),
    {
        let cells = t.cells();
        let rows = board.rows();
        let cols = board.cols();
        for i in 0..4usize
            invariant
                cells@.len() == 4,
                forall|k: int|
                    0 <= k < 4 ==> (#[trigger] cells@[k].0 as int, cells@[k].1 as int)
                        == spec_cell(*t, k),
                board.wf(),
                rows == board.spec_rows(),
                cols == board.spec_cols(),
                rows <= isize::MAX,
                cols <= isize::MAX,
                forall|k: int| 0 <= k < i ==> #[trigger] spec_cell_ok(*t, board@, k),
        {
            let (r, c) = cells[i];
            if r >= rows as isize || c < 0 || c >= cols as isize {
                assert(!spec_cell_ok(*t, board@, i as int));
                return false;
            }
            if r >= 0 && board.get(r as usize, c as usize) == BoardState::Occupied {
                assert(!spec_cell_ok(*t, board@, i as int));
                return false;
            }
            assert(spec_cell_ok(*t, board@, i as int));
        }
        true
    }

    /// Moves the falling piece down one row.  If the new position is not
    /// valid the piece has landed: its cells are stamped onto the board, the
    /// lock is scored, full rows are cleared for ten points each, the game
    /// ends when the piece locked at or above the top row, and a new random
    /// piece spawns above the field.
    pub fn move_down<R: RandomNumberSource>(&mut self, rng: &mut R)
        requires
            spec_tetris_wf(old(self)@),
        ensures
            spec_tetris_wf(final(self)@),
            spec_move_down_rel(old(self)@, final(self)@),
            final(self)@.score >= old(self)@.score,
    {
        if self.current.is_some() {
            let t_orig = self.current.unwrap();
            let mut t = t_orig;
            t.row = t.row + 1;

            // if the new position is not valid, then we collided with the
            // bottom or something on the board, so copy all cells over
            if !Self::is_valid(&t, &self.board) {
                t.row = t.row - 1;
                assert(t == t_orig);

                // a collision at or above the top ends the game
                if t.row <= 0 {
                    self.state = GameState::GameOver;
                }

                self.score = self.score.saturating_add(1);

                let ghost board0 = self.board@;
                let cells = t.cells();
                let rows = self.board.rows();
                let cols = self.board.cols();
                for idx in 0..4usize
                    invariant
                        cells@.len() == 4,
                        forall|k: int|
                            0 <= k < 4 ==> (#[trigger] cells@[k].0 as int, cells@[k].1 as int)
                                == spec_cell(t, k),
                        self.board.wf(),
                        rows == self.board.spec_rows(),
                        cols == self.board.spec_cols(),
                        rows == board0.len(),
                        cols == board0[0].len(),
                        rows <= isize::MAX,
                        cols <= isize::MAX,
                        self@.state == old(self)@.state || self@.state == GameState::GameOver,
                        self@.update_timer == old(self)@.update_timer,
                        self@.update_rate == old(self)@.update_rate,
                        self@.state_wait_timer == old(self)@.state_wait_timer,
                        self@.score >= old(self)@.score,
                        self@.state == if t.row <= 0 { GameState::GameOver } else { old(self)@.state },
                        self@.score == spec_sat_add_usize(old(self)@.score as int, 1),
                        self@.current == old(self)@.current,
                        forall|r: int, c: int|
                            0 <= r < rows && 0 <= c < cols ==> #[trigger] self.board@[r][c] == (
                            if exists|k: int|
                                0 <= k < idx && #[trigger] spec_cell(t, k) == (r, c) {
                                BoardState::Occupied
                            } else {
                                board0[r][c]
                            }),
                {
                    let (r, c) = cells[idx];
                    if r >= 0 && r < rows as isize && c >= 0 && c < cols as isize {
                        self.board.set(r as usize, c as usize, BoardState::Occupied);
                    }
                    proof {
                        assert forall|r: int, c: int|
                            0 <= r < rows && 0 <= c < cols implies #[trigger] self.board@[r][c]
                            == (if exists|k: int|
                                0 <= k < idx + 1 && #[trigger] spec_cell(t, k) == (r, c) {
                                BoardState::Occupied
                            } else {
                                board0[r][c]
                            }) by {
                            if spec_cell(t, idx as int) == (r, c) {
                            } else {
                            }
                        }
                    }
                }
                proof {
                    assert(self.board@ =~~= spec_stamp(board0, t));
                }

                let cleared = self.board.clear_full_rows();
                let bonus = match cleared.checked_mul(10) {
                    Some(b) => b,
                    None => usize::MAX,
                };
                self.score = self.score.saturating_add(bonus);

                self.current = Some(Tetronomicon::new_random(rng));
            } else {
                self.current = Some(t);
                proof {
                    lemma_valid_anchor(t, self.board@);
                }
            }
        }
    }
}

impl<I: Input, D: PixelDisplay, R: RandomNumberSource> Game<I, D, R> for TetrisGame {
    open spec fn spec_wf(&self) -> bool {
        spec_tetris_wf(self@)
    }

    open spec fn spec_compatible(&self, rows: nat, cols: nat) -> bool {
        rows == self@.board.len() && cols == self@.board[0].len()
    }

    open spec fn spec_state(&self) -> GameState {
        self@.state
    }

    #[verifier::rlimit(100)]
    #[verifier::spinoff_prover]
    fn update(&mut self, elapsed: u64, input: &I, display: &mut D, random: &mut R)
        ensures
            spec_tetris_update_rel(
                old(self)@,
                final(self)@,
                elapsed,
                input.spec_left(),
                input.spec_right(),
                input.spec_down(),
                input.spec_action(),
            ),
            old(self)@.state == GameState::Start ==> forall|r: int, c: int|
                0 <= r < old(self)@.board.len() && 0 <= c < old(self)@.board[0].len()
                    ==> #[trigger] final(display).spec_pixel(r, c) == (if spec_render_on(
                    spec_codes_of("RDY"@),
                    0,
                    0,
                    r,
                    c,
                ) {
                    Pixel::On
                } else {
                    Pixel::Off
                }),
            old(self)@.state == GameState::GameOver ==> forall|r: int, c: int|
                0 <= r < old(self)@.board.len() && 0 <= c < old(self)@.board[0].len()
                    ==> #[trigger] final(display).spec_pixel(r, c) == (if spec_render_on(
                    spec_codes_of("DEAD"@),
                    0,
                    0,
                    r,
                    c,
                ) || spec_render_on(spec_codes_of("="@), 8, 0, r, c) || spec_render_on(
                    spec_number_codes(old(self)@.score),
                    8,
                    10,
                    r,
                    c,
                ) {
                    Pixel::On
                } else {
                    Pixel::Off
                }),
            old(self)@.state == GameState::Playing ==> forall|r: int, c: int|
                0 <= r < old(self)@.board.len() && 0 <= c < old(self)@.board[0].len()
                    ==> #[trigger] final(display).spec_pixel(r, c) == spec_tetris_frame(
                    final(self)@,
                    r,
                    c,
                ),
    {
        if self.state == GameState::Start {
            display.clear();
            proof {
                reveal_strlit("RDY");
            }
            display.draw_text(0, 0, "RDY");

            // delay for starting the game
            self.state_wait_timer = self.state_wait_timer.saturating_add(elapsed);

            if input.action() && self.state_wait_timer > 1000 {
                // moving on, reset the timer for use by the game-over state
                self.state_wait_timer = 0;
                self.state = GameState::Playing;
            }
            return ;
        } else if self.state == GameState::GameOver {
            display.clear();
            proof {
                reveal_strlit("DEAD");
                reveal_strlit("=");
            }
            display.draw_text(0, 0, "DEAD");
            display.draw_text(8, 0, "=");
            display.draw_number(8, 10, self.score);

            // delay for leaving the game-over state
            self.state_wait_timer = self.state_wait_timer.saturating_add(elapsed);

            if input.action() && self.state_wait_timer > 1000 {
                // restart by reinstantiating the whole game
                let rows = self.board.rows();
                let cols = self.board.cols();
                *self = TetrisGame::new(rows, cols);
            }
            return ;
        }  // else continue with the game logic

        self.update_timer = self.update_timer.saturating_add(elapsed);
        let ghost after_input = spec_after_input(
            old(self)@,
            elapsed,
            input.spec_action(),
            input.spec_right(),
            input.spec_left(),
        );

        // always let the user rotate and shift the falling piece; every
        // change is applied speculatively and rolled back when invalid
        if self.current.is_some() {
            let t_orig = self.current.unwrap();
            let mut t = t_orig;

            if input.action() {
                t.rotation.rotate_right();
                if !Self::is_valid(&t, &self.board) {
                    t.rotation.rotate_left();
                    proof {
                        lemma_rotation_cycle(t_orig.rotation);
                        assert(t == t_orig);
                    }
                }
            }
            assert(t.row == t_orig.row && t.column == t_orig.column);
            assert(t == if input.spec_action() {
                spec_try_rotate(t_orig, self@.board)
            } else {
                t_orig
            });
            let ghost t_rotated = t;

            if input.right() {
                t.column = t.column + 1;
                if !Self::is_valid(&t, &self.board) {
                    t.column = t.column - 1;
                } else {
                    proof {
                        lemma_valid_anchor(t, self.board@);
                    }
                }
            }
            assert(spec_piece_bounded(t, self@.board.len() as int, self@.board[0].len() as int));
            assert(t == if input.spec_right() {
                spec_try_shift(t_rotated, self@.board, 1)
            } else {
                t_rotated
            });
            let ghost t_shifted = t;

            if input.left() {
                t.column = t.column - 1;
                if !Self::is_valid(&t, &self.board) {
                    t.column = t.column + 1;
                } else {
                    proof {
                        lemma_valid_anchor(t, self.board@);
                    }
                }
            }
            assert(spec_piece_bounded(t, self@.board.len() as int, self@.board[0].len() as int));
            assert(t == spec_input_moves(
                t_orig,
                self@.board,
                input.spec_action(),
                input.spec_right(),
                input.spec_left(),
            ));

            self.current = Some(t);
            proof {
                assert(self@ == after_input);
            }

            if input.down() {
                self.move_down(random);
            }
        }
        let ghost after_down = self@;
        let ghost mut spawned = after_down;
        proof {
            assert(spec_move_down_opt(
                after_input,
                after_down,
                input.spec_down() && after_input.current is Some,
            ));
        }

        if self.update_timer > self.update_rate {
            self.update_timer = self.update_timer - self.update_rate;

            if self.current.is_none() {
                self.current = Some(Tetronomicon::new_random(random));
            }
            proof {
                spawned = self@;
                assert(spec_spawn_rel(
                    TetrisView {
                        update_timer: (after_down.update_timer - after_down.update_rate) as u64,
                        ..after_down
                    },
                    spawned,
                ));
            }
            self.move_down(random);
        }

        // redraw: the whole board, then the falling piece
        display.clear();

        let rows = self.board.rows();
        let cols = self.board.cols();
        for r in 0..rows
            invariant
                self.board.wf(),
                rows == self.board.spec_rows(),
                cols == self.board.spec_cols(),
                display.spec_rows() == rows,
                display.spec_columns() == cols,
                forall|rr: int, cc: int|
                    0 <= rr < r && 0 <= cc < cols ==> #[trigger] display.spec_pixel(rr, cc) == (
                    if self.board@[rr][cc] == BoardState::Occupied {
                        Pixel::On
                    } else {
                        Pixel::Off
                    }),
                forall|rr: int, cc: int|
                    r <= rr < rows && 0 <= cc < cols ==> #[trigger] display.spec_pixel(rr, cc)
                        == Pixel::Off,
        {
            for c in 0..cols
                invariant
                    self.board.wf(),
                    rows == self.board.spec_rows(),
                    cols == self.board.spec_cols(),
                    r < rows,
                    display.spec_rows() == rows,
                    display.spec_columns() == cols,
                    forall|rr: int, cc: int|
                        0 <= rr < r && 0 <= cc < cols ==> #[trigger] display.spec_pixel(rr, cc)
                            == (if self.board@[rr][cc] == BoardState::Occupied {
                            Pixel::On
                        } else {
                            Pixel::Off
                        }),
                    forall|cc: int|
                        0 <= cc < c ==> #[trigger] display.spec_pixel(r as int, cc) == (
                        if self.board@[r as int][cc] == BoardState::Occupied {
                            Pixel::On
                        } else {
                            Pixel::Off
                        }),
                    forall|rr: int, cc: int|
                        r <= rr < rows && 0 <= cc < cols && !(rr == r && cc < c)
                            ==> #[trigger] display.spec_pixel(rr, cc) == Pixel::Off,
            {
                if self.board.get(r, c) == BoardState::Occupied {
                    display.set_pixel(r, c, Pixel::On);
                }
            }
        }

        // display the tetris block
        if self.current.is_some() {
            let t = self.current.unwrap();
            let cells = t.cells();
            let drows = display.rows();
            let dcols = display.columns();
            for i in 0..4usize
                invariant
                    cells@.len() == 4,
                    forall|k: int|
                        0 <= k < 4 ==> (#[trigger] cells@[k].0 as int, cells@[k].1 as int)
                            == spec_cell(t, k),
                    drows == display.spec_rows(),
                    dcols == display.spec_columns(),
                    drows == self.board@.len(),
                    dcols == self.board@[0].len(),
                    drows <= isize::MAX,
                    dcols <= isize::MAX,
                    forall|rr: int, cc: int|
                        0 <= rr < drows && 0 <= cc < dcols ==> #[trigger] display.spec_pixel(
                            rr,
                            cc,
                        ) == (if self.board@[rr][cc] == BoardState::Occupied || (exists|k: int|
                            0 <= k < i && #[trigger] spec_cell(t, k) == (rr, cc)) {
                            Pixel::On
                        } else {
                            Pixel::Off
                        }),
            {
                let (rr, cc) = cells[i];
                if rr >= 0 && rr < drows as isize && cc >= 0 && cc < dcols as isize {
                    display.set_pixel(rr as usize, cc as usize, Pixel::On);
                }
                proof {
                    assert forall|r2: int, c2: int|
                        0 <= r2 < drows && 0 <= c2 < dcols implies #[trigger] display.spec_pixel(
                        r2,
                        c2,
                    ) == (if self.board@[r2][c2] == BoardState::Occupied || (exists|k: int|
                        0 <= k < i + 1 && #[trigger] spec_cell(t, k) == (r2, c2)) {
                        Pixel::On
                    } else {
                        Pixel::Off
                    }) by {
                        if spec_cell(t, i as int) == (r2, c2) {
                        } else {
                        }
                    }
                }
            }
        }
        proof {
            assert(spec_playing_chain(
                after_input,
                after_down,
                spawned,
                self@,
                input.spec_down(),
            ));
        }
    }

    fn state(&self) -> GameState {
        self.state
    }
}

/// A clearing pass over rows with no full row changes nothing.
proof fn lemma_collapse_no_full(g: Seq<Seq<BoardState>>, r: int)
    requires
        forall|j: int| r <= j < g.len() ==> !spec_row_full(#[trigger] g[j]),
    ensures
        spec_collapse_from(g, r) == (g, 0int),
    decreases g.len() - r,
{
    if r < 0 || r >= g.len() {
    } else {
        lemma_collapse_no_full(g, r + 1);
    }
}

/// A clearing pass may skip leading rows that are not full.
proof fn lemma_collapse_skip_prefix(g: Seq<Seq<BoardState>>, r: int, k: int)
    requires
        0 <= r <= k < g.len(),
        forall|j: int| r <= j < k ==> !spec_row_full(#[trigger] g[j]),
    ensures
        spec_collapse_from(g, r) == spec_collapse_from(g, k),
    decreases k - r,
{
    if r < k {
        lemma_collapse_skip_prefix(g, r + 1, k);
    }
}

/// Tetris line clear: on a board whose only full row (by the board's
/// all-but-the-last-column test) is row `k`, the clearing pass removes that
/// row by shifting every row above it down one slot and reports exactly one
/// cleared row.  Together with the contract of `move_down`, a lock on such a
/// board scores exactly 10 points for the cleared row plus the 1-point lock
/// bonus.
pub proof fn lemma_single_full_row_clear(g: Seq<Seq<BoardState>>, k: int)
    requires
        spec_grid_wf(g),
        0 <= k < g.len(),
        spec_row_full(g[k]),
        forall|j: int| 0 <= j < g.len() && j != k ==> !spec_row_full(#[trigger] g[j]),
    ensures
        spec_collapse(g) == (spec_shift_down(g, k), 1int),
{
    lemma_collapse_skip_prefix(g, 0, k);
    let g2 = spec_shift_down(g, k);
    assert forall|j: int| k + 1 <= j < g2.len() implies !spec_row_full(#[trigger] g2[j]) by {
        assert(g2[j] == g[j]);
    }
    lemma_collapse_no_full(g2, k + 1);
    assert(spec_collapse_from(g, k) == (g2, 1int));
}

} // verus!
