//! The cabinet's controls: a four-way joystick, two start buttons and a
//! coin slot, with detection of newly pressed controls, and the two input
//! port bytes the program reads them from. Port lines are active low: a
//! pressed control reads as a cleared bit.
use vstd::prelude::*;
use crate::alu::weight;

verus! {

/// One snapshot of every control.
#[derive(Clone, Copy, Debug, PartialEq, Eq, Structural)]
pub struct InputState {
    pub up: bool,
    pub down: bool,
    pub left: bool,
    pub right: bool,
    pub start_1p: bool,
    pub start_2p: bool,
    pub coin: bool,
}

/// The controls, one by one.
#[derive(Clone, Copy, Debug, PartialEq, Eq, Structural)]
pub enum InputButton {
    Up,
    Down,
    Left,
    Right,
    Start1P,
    Start2P,
    Coin,
}

pub open spec fn released() -> InputState {
    InputState {
        up: false,
        down: false,
        left: false,
        right: false,
        start_1p: false,
        start_2p: false,
        coin: false,
    }
}

/// Whether `button` is down in `state`.
pub open spec fn button_down(state: InputState, button: InputButton) -> bool {
    match button {
        InputButton::Up => state.up,
        InputButton::Down => state.down,
        InputButton::Left => state.left,
        InputButton::Right => state.right,
        InputButton::Start1P => state.start_1p,
        InputButton::Start2P => state.start_2p,
        InputButton::Coin => state.coin,
    }
}

/// The first input port: up (bit 0), left (bit 1), right (bit 2), down
/// (bit 3), coin (bit 5).
pub open spec fn port0_of(s: InputState) -> u8 {
    (0xff - weight(s.up, 0x01) - weight(s.left, 0x02) - weight(s.right, 0x04) - weight(
        s.down,
        0x08,
    ) - weight(s.coin, 0x20)) as u8
}

/// The second input port: one-player start (bit 5), two-player start
/// (bit 6).
pub open spec fn port1_of(s: InputState) -> u8 {
    (0xff - weight(s.start_1p, 0x20) - weight(s.start_2p, 0x40)) as u8
}

fn line(pressed: bool, bit: u8) -> (r: u8)
    ensures
        r as int == weight(pressed, bit as int),
{
    if pressed {
        bit
    } else {
        0
    }
}

impl InputState {
    /// The byte the first input port presents for these controls.
    pub fn port0(&self) -> (r: u8)
        ensures
            r == port0_of(*self),
    {
        0xff - line(self.up, 0x01) - line(self.left, 0x02) - line(self.right, 0x04) - line(
            self.down,
            0x08,
        ) - line(self.coin, 0x20)
    }

    /// The byte the second input port presents for these controls.
    pub fn port1(&self) -> (r: u8)
        ensures
            r == port1_of(*self),
    {
        0xff - line(self.start_1p, 0x20) - line(self.start_2p, 0x40)
    }

    /// Every control released.
    pub fn new() -> (r: InputState)
        ensures
            r == released(),
    {
        InputState {
            up: false,
            down: false,
            left: false,
            right: false,
            start_1p: false,
            start_2p: false,
            coin: false,
        }
    }
}

impl Default for InputState {
    fn default() -> (r: InputState)
        ensures
            r == released(),
    {
        InputState::new()
    }
}

/// The current and the previous snapshot of the controls.
pub struct InputSystem {
    current_state: InputState,
    previous_state: InputState,
}

impl InputSystem {
    pub closed spec fn current(&self) -> InputState {
        self.current_state
    }

    pub closed spec fn previous(&self) -> InputState {
        self.previous_state
    }

    /// Both snapshots released.
    pub fn new() -> (r: InputSystem)
        ensures
            r.current() == released(),
            r.previous() == released(),
    {
        InputSystem { current_state: InputState::new(), previous_state: InputState::new() }
    }

    /// Takes a new snapshot; the current one becomes the previous.
    pub fn update(&mut self, new_state: InputState)
        ensures
            final(self).current() == new_state,
            final(self).previous() == old(self).current(),
    {
        self.previous_state = self.current_state;
        self.current_state = new_state;
    }

    /// The current snapshot.
    pub fn state(&self) -> (r: &InputState)
        ensures
            *r == self.current(),
    {
        &self.current_state
    }

    /// Whether `button` is down now and was up in the previous snapshot.
    pub fn pressed(&self, button: InputButton) -> (r: bool)
        ensures
            r == (button_down(self.current(), button) && !button_down(self.previous(), button)),
    {
        let current = self.get_button_state(&self.current_state, button);
        let previous = self.get_button_state(&self.previous_state, button);
        current && !previous
    }

    fn get_button_state(&self, state: &InputState, button: InputButton) -> (r: bool)
        ensures
            r == button_down(*state, button),
    {
        match button {
            InputButton::Up => state.up,
            InputButton::Down => state.down,
            InputButton::Left => state.left,
            InputButton::Right => state.right,
            InputButton::Start1P => state.start_1p,
            InputButton::Start2P => state.start_2p,
            InputButton::Coin => state.coin,
        }
    }

    /// Releases both snapshots.
    pub fn reset(&mut self)
        ensures
            final(self).current() == released(),
            final(self).previous() == released(),
    {
        self.current_state = InputState::new();
        self.previous_state = InputState::new();
    }
}

impl Default for InputSystem {
    fn default() -> (r: InputSystem)
        ensures
            r.current() == released(),
            r.previous() == released(),
    {
        InputSystem::new()
    }
}

} // verus!
