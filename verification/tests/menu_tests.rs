use pixel_games::display::{BufferDisplay, Pixel};
use pixel_games::input::BasicInput;
use pixel_games::menu::{GameMenu, MenuGame};
use pixel_games::snake::SnakeGame;
use pixel_games::tetris::TetrisGame;
use pixel_games::{Game, GameState, RandomNumberSource, TickerGame};

struct ScriptRng {
    values: Vec<u32>,
    index: usize,
}

impl ScriptRng {
    fn new(values: Vec<u32>) -> Self {
        ScriptRng { values, index: 0 }
    }
}

impl RandomNumberSource for ScriptRng {
    fn next_u32(&mut self) -> u32 {
        let v = if self.index < self.values.len() {
            self.values[self.index]
        } else {
            0
        };
        self.index += 1;
        v
    }
}

fn menu_state(m: &GameMenu) -> GameState {
    <GameMenu as Game<BasicInput, BufferDisplay, ScriptRng>>::state(m)
}

fn buttons(left: bool, right: bool, action: bool) -> BasicInput {
    BasicInput {
        left,
        right,
        up: false,
        down: false,
        action,
    }
}

fn two_game_menu() -> GameMenu {
    GameMenu::new(vec![
        MenuGame::Tetris(TetrisGame::new(42, 16)),
        MenuGame::Snake(SnakeGame::new(42, 16)),
    ])
}

#[test]
fn left_edge_wraps_the_index_while_the_game_is_at_start() {
    let mut m = two_game_menu();
    let mut d = BufferDisplay::new(42, 16);
    let mut rng = ScriptRng::new(vec![]);

    assert_eq!(m.current_index(), 0);
    assert_eq!(menu_state(&m), GameState::Start);

    // with 2 games and index 0, a left input while the active game is at
    // Start wraps the index to 1
    m.update(10, &buttons(true, false, false), &mut d, &mut rng);
    assert_eq!(m.current_index(), 1);

    // and again from 1 back to 0
    m.update(10, &buttons(true, false, false), &mut d, &mut rng);
    assert_eq!(m.current_index(), 0);
}

#[test]
fn right_edge_cycles_the_index_forward() {
    let mut m = two_game_menu();
    let mut d = BufferDisplay::new(42, 16);
    let mut rng = ScriptRng::new(vec![]);

    m.update(10, &buttons(false, true, false), &mut d, &mut rng);
    assert_eq!(m.current_index(), 1);
    m.update(10, &buttons(false, true, false), &mut d, &mut rng);
    assert_eq!(m.current_index(), 0);
}

#[test]
fn left_edge_is_ignored_while_the_game_is_playing() {
    let mut m = two_game_menu();
    let mut d = BufferDisplay::new(42, 16);
    let mut rng = ScriptRng::new(vec![]);

    // start the active game: its state is queried after the tick, so the
    // starting tick itself already blocks switching
    m.update(1100, &buttons(false, false, true), &mut d, &mut rng);
    assert_eq!(menu_state(&m), GameState::Playing);
    assert_eq!(m.current_index(), 0);

    // a left input while the active game is not at Start leaves the index
    m.update(10, &buttons(true, false, false), &mut d, &mut rng);
    assert_eq!(m.current_index(), 0);
    m.update(10, &buttons(false, true, false), &mut d, &mut rng);
    assert_eq!(m.current_index(), 0);
}

#[test]
fn menu_draws_arrow_hints_while_switching_is_allowed() {
    let mut m = two_game_menu();
    let mut d = BufferDisplay::new(42, 16);
    let mut rng = ScriptRng::new(vec![]);

    m.update(10, &buttons(false, false, false), &mut d, &mut rng);
    assert_eq!(m.current_index(), 0);
    // three-pixel arrows in the bottom corners
    assert_eq!(d.get_pixel(41, 1), Pixel::On);
    assert_eq!(d.get_pixel(40, 0), Pixel::On);
    assert_eq!(d.get_pixel(39, 1), Pixel::On);
    assert_eq!(d.get_pixel(41, 14), Pixel::On);
    assert_eq!(d.get_pixel(40, 15), Pixel::On);
    assert_eq!(d.get_pixel(39, 14), Pixel::On);
}

#[test]
fn deselected_games_keep_their_state_until_reselected() {
    let mut m = GameMenu::new(vec![
        MenuGame::Snake(SnakeGame::new(42, 16)),
        MenuGame::Ticker(TickerGame::new()),
    ]);
    let mut d = BufferDisplay::new(42, 16);
    let mut rng = ScriptRng::new(vec![]);

    // start the snake, killing the switcher, then play until game over
    m.update(1100, &buttons(false, false, true), &mut d, &mut rng);
    assert_eq!(menu_state(&m), GameState::Playing);
    for _ in 0..22 {
        m.update(401, &buttons(false, false, false), &mut d, &mut rng);
    }
    assert_eq!(menu_state(&m), GameState::GameOver);
    assert_eq!(m.current_index(), 0);

    // acknowledge: the snake resets itself to Start, switching works again
    m.update(1100, &buttons(false, false, true), &mut d, &mut rng);
    assert_eq!(menu_state(&m), GameState::Start);
    m.update(10, &buttons(false, true, false), &mut d, &mut rng);
    assert_eq!(m.current_index(), 1);
    // the ticker always reports Start, so switching back works too
    m.update(10, &buttons(true, false, false), &mut d, &mut rng);
    assert_eq!(m.current_index(), 0);
    assert_eq!(menu_state(&m), GameState::Start);
}
