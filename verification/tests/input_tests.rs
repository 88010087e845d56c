use pixel_games::input::{BasicInput, DebouncedInput, Input};

fn raw(up: bool, action: bool) -> BasicInput {
    BasicInput {
        left: false,
        right: false,
        up,
        down: false,
        action,
    }
}

#[test]
fn debounce_emits_one_tick_per_press() {
    // raw sequence [false, true, true, false] must debounce to
    // [false, true, false, false]
    let mut d = DebouncedInput::default();

    d.update(&raw(false, false));
    assert_eq!(d.up(), false);

    d.update(&raw(true, false));
    assert_eq!(d.up(), true);

    d.update(&raw(true, false));
    assert_eq!(d.up(), false);

    d.update(&raw(false, false));
    assert_eq!(d.up(), false);
}

#[test]
fn debounce_flags_are_independent() {
    let mut d = DebouncedInput::default();

    d.update(&raw(true, true));
    assert_eq!(d.up(), true);
    assert_eq!(d.action(), true);
    assert_eq!(d.left(), false);
    assert_eq!(d.right(), false);
    assert_eq!(d.down(), false);

    // holding both: no further edges
    d.update(&raw(true, true));
    assert_eq!(d.up(), false);
    assert_eq!(d.action(), false);

    // releasing one and re-pressing gives a fresh edge for it alone
    d.update(&raw(false, true));
    assert_eq!(d.up(), false);
    d.update(&raw(true, true));
    assert_eq!(d.up(), true);
    assert_eq!(d.action(), false);
}

#[test]
fn basic_input_reports_its_flags() {
    let b = BasicInput {
        left: true,
        right: false,
        up: true,
        down: false,
        action: true,
    };
    assert_eq!(b.left(), true);
    assert_eq!(b.right(), false);
    assert_eq!(b.up(), true);
    assert_eq!(b.down(), false);
    assert_eq!(b.action(), true);

    let d = BasicInput::default();
    assert_eq!(d.left(), false);
    assert_eq!(d.action(), false);
}
