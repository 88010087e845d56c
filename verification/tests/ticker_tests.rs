use pixel_games::display::{BufferDisplay, Pixel};
use pixel_games::input::BasicInput;
use pixel_games::{Game, GameState, RandomNumberSource, TickerGame};

struct ZeroRng;

impl RandomNumberSource for ZeroRng {
    fn next_u32(&mut self) -> u32 {
        0
    }
}

fn ticker_state(t: &TickerGame) -> GameState {
    <TickerGame as Game<BasicInput, BufferDisplay, ZeroRng>>::state(t)
}

#[test]
fn ticker_pixel_wanders_once_its_timer_fires() {
    let mut t = TickerGame::new();
    let mut d = BufferDisplay::new(12, 34);
    let mut rng = ZeroRng;
    let idle = BasicInput::default();

    assert_eq!(ticker_state(&t), GameState::Start);

    // below the 200 ms threshold nothing moves: the pixel sits at (0, 0)
    t.update(100, &idle, &mut d, &mut rng);
    assert_eq!(d.get_pixel(11, 0), Pixel::Off);

    // the next tick crosses the threshold: the row advances to 1 and the
    // column stays at its floor of 0
    t.update(101, &idle, &mut d, &mut rng);
    assert_eq!(d.get_pixel(1, 0), Pixel::On);

    // with up held, the column advances as well
    let up = BasicInput {
        left: false,
        right: false,
        up: true,
        down: false,
        action: false,
    };
    t.update(201, &up, &mut d, &mut rng);
    assert_eq!(d.get_pixel(2, 1), Pixel::On);
    assert_eq!(ticker_state(&t), GameState::Start);
}

#[test]
fn ticker_row_wraps_at_the_display_extent() {
    let mut t = TickerGame::new();
    let mut d = BufferDisplay::new(12, 34);
    let mut rng = ZeroRng;
    let idle = BasicInput::default();

    // twelve firing ticks walk the row over the whole extent and back to 0
    for _ in 0..12 {
        t.update(201, &idle, &mut d, &mut rng);
    }
    // row is back at 0; (1, 0) only carries glyph pixels of the greeting,
    // and the 'H' glyph leaves its leftmost column clear
    assert_eq!(d.get_pixel(0, 0), Pixel::On);
    assert_eq!(d.get_pixel(1, 0), Pixel::Off);
}
