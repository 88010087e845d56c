use vstd::prelude::*;

verus! {

/// Read-only view of the five game buttons.
///
/// Each exec query returns exactly the value of the matching spec
/// projection, so callers can reason about what they read.
pub trait Input: Sized {
    spec fn spec_left(&self) -> bool;

    spec fn spec_right(&self) -> bool;

    spec fn spec_up(&self) -> bool;

    spec fn spec_down(&self) -> bool;

    spec fn spec_action(&self) -> bool;

    fn left(&self) -> (b: bool)
        ensures
            b == self.spec_left(),
    ;

    fn right(&self) -> (b: bool)
        ensures
            b == self.spec_right(),
    ;

    fn up(&self) -> (b: bool)
        ensures
            b == self.spec_up(),
    ;

    fn down(&self) -> (b: bool)
        ensures
            b == self.spec_down(),
    ;

    fn action(&self) -> (b: bool)
        ensures
            b == self.spec_action(),
    ;
}

/// A struct representing the current state of the input buttons.
#[derive(Clone, Copy, Debug)]
pub struct BasicInput {
    pub left: bool,
    pub right: bool,
    pub up: bool,
    pub down: bool,
    pub action: bool,
}

impl Default for BasicInput {
    /// All buttons released.
    fn default() -> (r: Self)
        ensures
            !r.left && !r.right && !r.up && !r.down && !r.action,
    {
        BasicInput { left: false, right: false, up: false, down: false, action: false }
    }
}

impl Input for BasicInput {
    open spec fn spec_left(&self) -> bool {
        self.left
    }

    open spec fn spec_right(&self) -> bool {
        self.right
    }

    open spec fn spec_up(&self) -> bool {
        self.up
    }

    open spec fn spec_down(&self) -> bool {
        self.down
    }

    open spec fn spec_action(&self) -> bool {
        self.action
    }

    fn left(&self) -> bool {
        self.left
    }

    fn right(&self) -> bool {
        self.right
    }

    fn up(&self) -> bool {
        self.up
    }

    fn down(&self) -> bool {
        self.down
    }

    fn action(&self) -> bool {
        self.action
    }
}

/// Derives a one-tick "just pressed" edge signal from raw button state.
///
/// Each flag is true exactly when the raw flag is pressed now and was not
/// pressed at the previous call of `update`; holding a button yields one
/// true tick, then false until release and re-press.
#[derive(Clone, Copy, Debug)]
pub struct DebouncedInput {
    left: bool,
    right: bool,
    up: bool,
    down: bool,
    action: bool,
    last_left: bool,
    last_right: bool,
    last_up: bool,
    last_down: bool,
    last_action: bool,
}

impl Default for DebouncedInput {
    /// No edges pending and no button remembered as held.
    fn default() -> (r: Self)
        ensures
            !r.spec_left() && !r.spec_right() && !r.spec_up() && !r.spec_down()
                && !r.spec_action(),
            !r.spec_prev_left() && !r.spec_prev_right() && !r.spec_prev_up()
                && !r.spec_prev_down() && !r.spec_prev_action(),
    {
        DebouncedInput {
            left: false,
            right: false,
            up: false,
            down: false,
            action: false,
            last_left: false,
            last_right: false,
            last_up: false,
            last_down: false,
            last_action: false,
        }
    }
}

impl DebouncedInput {
    /// The raw state of each button as remembered from the previous tick.
    pub closed spec fn spec_prev_left(&self) -> bool {
        self.last_left
    }

    pub closed spec fn spec_prev_right(&self) -> bool {
        self.last_right
    }

    pub closed spec fn spec_prev_up(&self) -> bool {
        self.last_up
    }

    pub closed spec fn spec_prev_down(&self) -> bool {
        self.last_down
    }

    pub closed spec fn spec_prev_action(&self) -> bool {
        self.last_action
    }

    /// Feeds one tick of raw input: the derived flags become
    /// `raw && !previous_raw`, and the raw state is stored for the next tick.
    /// Must be called exactly once per game tick.
    pub fn update<I: Input>(&mut self, input: &I)
        ensures
            final(self).spec_left() == (!old(self).spec_prev_left() && input.spec_left()),
            final(self).spec_right() == (!old(self).spec_prev_right() && input.spec_right()),
            final(self).spec_up() == (!old(self).spec_prev_up() && input.spec_up()),
            final(self).spec_down() == (!old(self).spec_prev_down() && input.spec_down()),
            final(self).spec_action() == (!old(self).spec_prev_action() && input.spec_action()),
            final(self).spec_prev_left() == input.spec_left(),
            final(self).spec_prev_right() == input.spec_right(),
            final(self).spec_prev_up() == input.spec_up(),
            final(self).spec_prev_down() == input.spec_down(),
            final(self).spec_prev_action() == input.spec_action(),
    {
        self.left = !self.last_left && input.left();
        self.right = !self.last_right && input.right();
        self.up = !self.last_up && input.up();
        self.down = !self.last_down && input.down();
        self.action = !self.last_action && input.action();

        self.last_left = input.left();
        self.last_right = input.right();
        self.last_up = input.up();
        self.last_down = input.down();
        self.last_action = input.action();
    }
}

impl Input for DebouncedInput {
    closed spec fn spec_left(&self) -> bool {
        self.left
    }

    closed spec fn spec_right(&self) -> bool {
        self.right
    }

    closed spec fn spec_up(&self) -> bool {
        self.up
    }

    closed spec fn spec_down(&self) -> bool {
        self.down
    }

    closed spec fn spec_action(&self) -> bool {
        self.action
    }

    fn left(&self) -> bool {
        self.left
    }

    fn right(&self) -> bool {
        self.right
    }

    fn up(&self) -> bool {
        self.up
    }

    fn down(&self) -> bool {
        self.down
    }

    fn action(&self) -> bool {
        self.action
    }
}

} // verus!
