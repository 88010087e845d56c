use pixel_games::display::{BufferDisplay, Pixel};
use pixel_games::input::BasicInput;
use pixel_games::snake::{Direction, SnakeGame};
use pixel_games::{Game, GameState, RandomNumberSource};

struct ScriptRng {
    values: Vec<u32>,
    index: usize,
}

impl ScriptRng {
    fn new(values: Vec<u32>) -> Self {
        ScriptRng { values, index: 0 }
    }
}

impl RandomNumberSource for ScriptRng {
    fn next_u32(&mut self) -> u32 {
        let v = if self.index < self.values.len() {
            self.values[self.index]
        } else {
            0
        };
        self.index += 1;
        v
    }
}

fn snake_state(g: &SnakeGame) -> GameState {
    <SnakeGame as Game<BasicInput, BufferDisplay, ScriptRng>>::state(g)
}

fn buttons(left: bool, right: bool, up: bool, down: bool, action: bool) -> BasicInput {
    BasicInput {
        left,
        right,
        up,
        down,
        action,
    }
}

fn idle() -> BasicInput {
    buttons(false, false, false, false, false)
}

#[test]
fn direction_steps_and_opposites() {
    assert_eq!((Direction::Up.dx(), Direction::Up.dy()), (0, -1));
    assert_eq!((Direction::Down.dx(), Direction::Down.dy()), (0, 1));
    assert_eq!((Direction::Left.dx(), Direction::Left.dy()), (-1, 0));
    assert_eq!((Direction::Right.dx(), Direction::Right.dy()), (1, 0));

    assert!(Direction::Up.is_opposite_to(Direction::Down));
    assert!(Direction::Down.is_opposite_to(Direction::Up));
    assert!(Direction::Left.is_opposite_to(Direction::Right));
    assert!(Direction::Right.is_opposite_to(Direction::Left));
    assert!(!Direction::Up.is_opposite_to(Direction::Left));
    assert!(!Direction::Right.is_opposite_to(Direction::Right));
}

#[test]
fn reversal_requests_never_take_effect() {
    let mut g = SnakeGame::new(16, 16);
    let mut d = BufferDisplay::new(16, 16);
    let mut rng = ScriptRng::new(vec![]);

    g.update(1100, &buttons(false, false, false, false, true), &mut d, &mut rng);
    assert_eq!(snake_state(&g), GameState::Playing);
    assert_eq!(g.direction(), Direction::Up);

    // turning right is allowed
    g.update(1, &buttons(false, true, false, false, false), &mut d, &mut rng);
    assert_eq!(g.direction(), Direction::Right);

    // moving Right, requesting Left leaves direction Right
    g.update(1, &buttons(true, false, false, false, false), &mut d, &mut rng);
    assert_eq!(g.direction(), Direction::Right);

    // a perpendicular request still works afterwards
    g.update(1, &buttons(false, false, false, true, false), &mut d, &mut rng);
    assert_eq!(g.direction(), Direction::Down);

    // and the reverse of that is refused again
    g.update(1, &buttons(false, false, true, false, false), &mut d, &mut rng);
    assert_eq!(g.direction(), Direction::Down);
}

#[test]
fn running_into_the_wall_ends_the_game_and_action_restarts_it() {
    let mut g = SnakeGame::new(16, 16);
    let mut d = BufferDisplay::new(16, 16);
    let mut rng = ScriptRng::new(vec![]);

    g.update(1100, &buttons(false, false, false, false, true), &mut d, &mut rng);
    assert_eq!(g.head(), (8, 8));

    // heading up from row 8 leaves the grid on the ninth step
    for step in 0..8 {
        g.update(401, &idle(), &mut d, &mut rng);
        assert_eq!(g.head(), (8, 7 - step));
        assert_eq!(snake_state(&g), GameState::Playing);
    }
    g.update(401, &idle(), &mut d, &mut rng);
    assert_eq!(g.head(), (8, -1));
    assert_eq!(snake_state(&g), GameState::GameOver);

    // the death tick still repaints: the head is gone from its last cell
    // and the apple is the only thing shown
    assert_eq!(d.get_pixel(0, 8), Pixel::Off);
    assert_eq!(d.get_pixel(5, 5), Pixel::On);

    // acknowledging the game over resets every field
    g.update(1100, &buttons(false, false, false, false, true), &mut d, &mut rng);
    assert_eq!(snake_state(&g), GameState::Start);
    assert_eq!(g.head(), (8, 8));
    assert_eq!(g.length(), 0);
    assert_eq!(g.apple(), (5, 5));
    assert_eq!(g.direction(), Direction::Up);
}

/// Drives a fresh game until it has eaten the apple at (5, 5): three steps
/// left, then three steps up.
fn eat_first_apple(g: &mut SnakeGame, d: &mut BufferDisplay, rng: &mut ScriptRng) {
    g.update(1100, &buttons(false, false, false, false, true), d, rng);
    assert_eq!(snake_state(&g), GameState::Playing);

    g.update(1, &buttons(true, false, false, false, false), d, rng);
    assert_eq!(g.direction(), Direction::Left);
    for _ in 0..3 {
        g.update(401, &idle(), d, rng);
    }
    assert_eq!(g.head(), (5, 8));

    g.update(1, &buttons(false, false, true, false, false), d, rng);
    assert_eq!(g.direction(), Direction::Up);
    for _ in 0..3 {
        g.update(401, &idle(), d, rng);
    }
    assert_eq!(g.head(), (5, 5));
    assert_eq!(g.length(), 1);
    assert_eq!(g.apple(), (-1, -1));
}

#[test]
fn eating_the_apple_grows_and_respawns_it_off_the_trail() {
    let mut g = SnakeGame::new(16, 16);
    let mut d = BufferDisplay::new(16, 16);
    // respawn one: (x 5, y 3); respawn two: first sample (x 5, y 4) sits on
    // the trail and must be rejected, the next (x 7, y 7) is free
    let mut rng = ScriptRng::new(vec![5, 3, 5, 4, 7, 7]);

    eat_first_apple(&mut g, &mut d, &mut rng);

    // the next tick respawns the apple in the head's path
    g.update(401, &idle(), &mut d, &mut rng);
    assert_eq!(g.apple(), (5, 3));
    assert_eq!(g.head(), (5, 4));

    // eating it speeds the game up and grows the snake again
    g.update(401, &idle(), &mut d, &mut rng);
    assert_eq!(g.head(), (5, 3));
    assert_eq!(g.length(), 2);
    assert_eq!(g.apple(), (-1, -1));

    // now the cell (x 5, y 4) carries trail age; the sampler offers it
    // first, and the respawn must skip it
    g.update(401, &idle(), &mut d, &mut rng);
    assert_eq!(g.apple(), (7, 7));
    assert_eq!(snake_state(&g), GameState::Playing);
}

#[test]
fn respawn_falls_back_to_a_scan_when_sampling_keeps_missing() {
    let mut g = SnakeGame::new(16, 16);
    let mut d = BufferDisplay::new(16, 16);
    // respawn one as above; for respawn two every one of the 100 samples
    // lands on the trail cell (x 5, y 4), so the scan picks the first free
    // cell of the grid
    let mut values = vec![5, 3];
    for _ in 0..100 {
        values.push(5);
        values.push(4);
    }
    let mut rng = ScriptRng::new(values);

    eat_first_apple(&mut g, &mut d, &mut rng);

    g.update(401, &idle(), &mut d, &mut rng);
    assert_eq!(g.apple(), (5, 3));
    g.update(401, &idle(), &mut d, &mut rng);
    assert_eq!(g.length(), 2);

    g.update(401, &idle(), &mut d, &mut rng);
    assert_eq!(g.apple(), (0, 0));
}
