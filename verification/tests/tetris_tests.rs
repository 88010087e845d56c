use pixel_games::display::{BufferDisplay, Pixel, PixelDisplay};
use pixel_games::input::BasicInput;
use pixel_games::tetris::{Board, BoardState, Rotation, TetrisGame, Tetronomicon, Type};
use pixel_games::{Game, GameState, RandomNumberSource};

struct ScriptRng {
    values: Vec<u32>,
    index: usize,
}

impl ScriptRng {
    fn new(values: Vec<u32>) -> Self {
        ScriptRng { values, index: 0 }
    }
}

impl RandomNumberSource for ScriptRng {
    fn next_u32(&mut self) -> u32 {
        let v = if self.index < self.values.len() {
            self.values[self.index]
        } else {
            0
        };
        self.index += 1;
        v
    }
}

fn tetris_state(g: &TetrisGame) -> GameState {
    <TetrisGame as Game<BasicInput, BufferDisplay, ScriptRng>>::state(g)
}

fn buttons(left: bool, right: bool, down: bool, action: bool) -> BasicInput {
    BasicInput {
        left,
        right,
        up: false,
        down,
        action,
    }
}

#[test]
fn rotate_right_four_times_is_identity() {
    for start in [Rotation::R0, Rotation::R90, Rotation::R180, Rotation::R270] {
        let mut r = start;
        r.rotate_right();
        r.rotate_right();
        r.rotate_right();
        r.rotate_right();
        assert_eq!(r, start);
    }
}

#[test]
fn rotate_left_undoes_rotate_right() {
    for start in [Rotation::R0, Rotation::R90, Rotation::R180, Rotation::R270] {
        let mut r = start;
        r.rotate_right();
        r.rotate_left();
        assert_eq!(r, start);

        let mut l = start;
        l.rotate_left();
        l.rotate_right();
        assert_eq!(l, start);
    }
}

#[test]
fn rotation_apply_turns_offsets() {
    assert_eq!(Rotation::R0.apply((-1, 0)), (-1, 0));
    assert_eq!(Rotation::R90.apply((-1, 0)), (0, -1));
    assert_eq!(Rotation::R180.apply((-1, 0)), (1, 0));
    assert_eq!(Rotation::R270.apply((-1, 0)), (0, 1));
    assert_eq!(Rotation::R90.apply((0, 1)), (-1, 0));
}

#[test]
fn patterns_have_four_offsets() {
    assert_eq!(
        Type::Square.pattern(),
        vec![(0, 0), (0, 1), (1, 0), (1, 1)]
    );
    assert_eq!(Type::L.pattern(), vec![(-2, 0), (-1, 0), (0, 0), (0, 1)]);
    assert_eq!(Type::T.pattern(), vec![(-1, 0), (0, 0), (0, 1), (1, 0)]);
    assert_eq!(Type::Line.pattern(), vec![(-1, 0), (0, 0), (1, 0), (2, 0)]);
}

#[test]
fn cells_anchor_and_rotate_the_pattern() {
    let t = Tetronomicon {
        kind: Type::T,
        rotation: Rotation::R0,
        row: 5,
        column: 8,
    };
    assert_eq!(t.cells(), vec![(4, 8), (5, 8), (5, 9), (6, 8)]);

    let r = Tetronomicon {
        kind: Type::T,
        rotation: Rotation::R90,
        row: 5,
        column: 8,
    };
    assert_eq!(r.cells(), vec![(5, 7), (5, 8), (4, 8), (5, 9)]);
}

#[test]
fn is_valid_rejects_walls_floor_and_overlap() {
    let mut board = Board::new(10, 10);

    let at = |row: isize, column: isize| Tetronomicon {
        kind: Type::Square,
        rotation: Rotation::R0,
        row,
        column,
    };

    assert!(TetrisGame::is_valid(&at(0, 0), &board));
    // a column left of the field
    assert!(!TetrisGame::is_valid(&at(0, -1), &board));
    // a column past the right wall
    assert!(!TetrisGame::is_valid(&at(0, 9), &board));
    // a row past the floor
    assert!(!TetrisGame::is_valid(&at(9, 0), &board));
    // rows above the field are always in bounds
    assert!(TetrisGame::is_valid(&at(-4, 0), &board));

    // overlap with an occupied cell is invalid, but not above the field
    board.set(1, 1, BoardState::Occupied);
    assert!(!TetrisGame::is_valid(&at(0, 0), &board));
    assert!(TetrisGame::is_valid(&at(-2, 0), &board));
    assert!(TetrisGame::is_valid(&at(2, 0), &board));
}

#[test]
fn row_full_ignores_the_last_column() {
    let mut board = Board::new(6, 6);
    for c in 0..5 {
        board.set(4, c, BoardState::Occupied);
    }
    // all but the last column occupied counts as full
    assert!(board.row_is_full(4));
    assert!(!board.row_is_full(3));

    let mut partial = Board::new(6, 6);
    partial.set(2, 0, BoardState::Occupied);
    assert!(!partial.row_is_full(2));
}

#[test]
fn clearing_a_single_full_row_shifts_rows_down() {
    let mut board = Board::new(6, 6);
    for c in 0..5 {
        board.set(4, c, BoardState::Occupied);
    }
    // a marker above the full row, in a row that is not itself full
    board.set(3, 2, BoardState::Occupied);

    let cleared = board.clear_full_rows();
    assert_eq!(cleared, 1);

    // the marker row moved down one slot
    assert_eq!(board.get(4, 2), BoardState::Occupied);
    assert_eq!(board.get(4, 0), BoardState::Free);
    assert_eq!(board.get(3, 2), BoardState::Free);
    // the bottom row was never touched
    for c in 0..6 {
        assert_eq!(board.get(5, c), BoardState::Free);
    }
}

#[test]
fn clearing_leaves_boards_without_full_rows_alone() {
    let mut board = Board::new(5, 5);
    board.set(1, 1, BoardState::Occupied);
    board.set(3, 2, BoardState::Occupied);
    let cleared = board.clear_full_rows();
    assert_eq!(cleared, 0);
    assert_eq!(board.get(1, 1), BoardState::Occupied);
    assert_eq!(board.get(3, 2), BoardState::Occupied);
    assert_eq!(board.get(0, 0), BoardState::Free);
}

#[test]
fn tetris_starts_on_action_after_the_wait() {
    let mut g = TetrisGame::new(42, 16);
    let mut d = BufferDisplay::new(42, 16);
    let mut rng = ScriptRng::new(vec![]);

    assert_eq!(tetris_state(&g), GameState::Start);

    // a short wait is not enough, even with action held
    g.update(500, &buttons(false, false, false, true), &mut d, &mut rng);
    assert_eq!(tetris_state(&g), GameState::Start);

    // past the 1000 ms threshold the action starts the game
    g.update(600, &buttons(false, false, false, true), &mut d, &mut rng);
    assert_eq!(tetris_state(&g), GameState::Playing);
    assert_eq!(g.score(), 0);
}

fn frame(d: &BufferDisplay) -> Vec<(usize, usize)> {
    let mut on = Vec::new();
    for r in 0..d.rows() {
        for c in 0..d.columns() {
            if d.get_pixel(r, c) == Pixel::On {
                on.push((r, c));
            }
        }
    }
    on
}

#[test]
fn rotating_a_spawned_piece_and_back_restores_the_frame() {
    // end-to-end on the 42x16 grid: start the game, let a T piece spawn at
    // the known anchor, rotate it with action edges, and return it to the
    // original rotation
    let mut g = TetrisGame::new(42, 16);
    let mut d = BufferDisplay::new(42, 16);
    // piece kind T, rotation R0
    let mut rng = ScriptRng::new(vec![2, 0]);
    let idle = buttons(false, false, false, false);

    g.update(1100, &buttons(false, false, false, true), &mut d, &mut rng);
    assert_eq!(tetris_state(&g), GameState::Playing);

    // first drop tick spawns the piece above the field and moves it down
    g.update(401, &idle, &mut d, &mut rng);
    let piece = g.current_piece().expect("a piece must have spawned");
    assert_eq!(piece.kind, Type::T);
    assert_eq!(piece.rotation, Rotation::R0);
    assert_eq!((piece.row, piece.column), (-3, 8));

    // five more drops bring the anchor to row 2, fully visible
    for _ in 0..5 {
        g.update(401, &idle, &mut d, &mut rng);
    }
    let visible = g.current_piece().unwrap();
    assert_eq!((visible.row, visible.column), (2, 8));
    let original = frame(&d);
    assert_eq!(
        original,
        vec![(1, 8), (2, 8), (2, 9), (3, 8)],
        "T piece at anchor (2, 8) in spawn rotation"
    );

    // one action edge rotates the piece right
    g.update(1, &buttons(false, false, false, true), &mut d, &mut rng);
    assert_eq!(g.current_piece().unwrap().rotation, Rotation::R90);
    assert_eq!(frame(&d), vec![(1, 8), (2, 7), (2, 8), (2, 9)]);

    // the inverse turn restores the original rotation and the same frame
    g.update(1, &buttons(false, false, false, true), &mut d, &mut rng);
    g.update(1, &buttons(false, false, false, true), &mut d, &mut rng);
    g.update(1, &buttons(false, false, false, true), &mut d, &mut rng);
    assert_eq!(g.current_piece().unwrap().rotation, Rotation::R0);
    assert_eq!(frame(&d), original);
}

#[test]
fn horizontal_moves_are_rolled_back_at_the_wall() {
    let mut g = TetrisGame::new(42, 16);
    let mut d = BufferDisplay::new(42, 16);
    // piece kind Square, rotation R0, spawning at column 8
    let mut rng = ScriptRng::new(vec![0, 0]);
    let idle = buttons(false, false, false, false);

    g.update(1100, &buttons(false, false, false, true), &mut d, &mut rng);
    g.update(401, &idle, &mut d, &mut rng);
    assert_eq!(g.current_piece().unwrap().column, 8);

    // the square occupies columns 8 and 9; six right moves hit the wall
    for _ in 0..6 {
        g.update(1, &buttons(false, true, false, false), &mut d, &mut rng);
    }
    assert_eq!(g.current_piece().unwrap().column, 14);
    g.update(1, &buttons(false, true, false, false), &mut d, &mut rng);
    assert_eq!(g.current_piece().unwrap().column, 14);

    // moving left still works
    g.update(1, &buttons(true, false, false, false), &mut d, &mut rng);
    assert_eq!(g.current_piece().unwrap().column, 13);
}

#[test]
fn drawn_values_select_kind_and_rotation_by_modulo() {
    assert_eq!(Type::from_draw(0), Type::Square);
    assert_eq!(Type::from_draw(1), Type::L);
    assert_eq!(Type::from_draw(2), Type::T);
    assert_eq!(Type::from_draw(3), Type::Line);
    assert_eq!(Type::from_draw(6), Type::T);
    assert_eq!(Type::from_draw(4_000_000_001), Type::L);

    assert_eq!(Rotation::from_draw(0), Rotation::R0);
    assert_eq!(Rotation::from_draw(1), Rotation::R90);
    assert_eq!(Rotation::from_draw(2), Rotation::R180);
    assert_eq!(Rotation::from_draw(3), Rotation::R270);
    assert_eq!(Rotation::from_draw(7), Rotation::R270);
}
