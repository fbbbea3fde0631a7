use vstd::prelude::*;

verus! {

/// Height of the clock's area when the clock starts, in terminal rows.
pub const START_HEIGHT: u16 = 40;

/// Width of the clock's area when the clock starts, in terminal columns.
pub const START_WIDTH: u16 = 80;

/// A key press, as far as the clock tells keys apart.
#[derive(Debug, Clone, Copy, PartialEq, Eq, Structural)]
pub enum Key {
    Char(char),
    Up,
    Down,
    Left,
    Right,
    Other,
}

/// What the terminal reported since the last frame.
#[derive(Debug, Clone, Copy, PartialEq, Eq, Structural)]
pub enum Event {
    Key(Key),
    Other,
}

/// Where the clock's area lies in a terminal: a margin of `top` rows above
/// and below an area `height` rows high, and a margin of `left` columns on
/// either side of an area `width` columns wide.
#[derive(Debug, Clone, Copy, PartialEq, Eq, Structural)]
pub struct Placement {
    pub top: u16,
    pub height: u16,
    pub left: u16,
    pub width: u16,
}

/// What the run loop does after one step.
#[derive(Debug, Clone, Copy, PartialEq, Eq, Structural)]
pub enum Action {
    /// Leave the loop.
    Quit,
    /// Draw nothing this time round.
    Wait,
    /// Draw the clock in this placement.
    Draw(Placement),
}

/// The size the user asked for the clock's area, which key presses change.
#[derive(Debug, Clone, Copy, PartialEq, Eq, Structural)]
pub struct Viewport {
    pub center_height: u16,
    pub center_width: u16,
}

pub open spec fn min_u16(a: u16, b: u16) -> u16 {
    if a < b { a } else { b }
}

/// The placement of an area of the requested size, cut down to the terminal
/// and centred in it.
pub open spec fn placement_spec(v: Viewport, term_height: u16, term_width: u16) -> Placement {
    let height = min_u16(term_height, v.center_height);
    let width = min_u16(term_width, v.center_width);
    Placement {
        top: ((term_height - height) / 2) as u16,
        height,
        left: ((term_width - width) / 2) as u16,
        width,
    }
}

/// The requested size after one key press in a terminal of the given size:
/// Up and Right grow it by one while it is below the terminal's size, Down
/// and Left shrink it by one while it is above zero, other keys keep it.
pub open spec fn key_spec(v: Viewport, key: Key, term_height: u16, term_width: u16) -> Viewport {
    match key {
        Key::Up => if v.center_height < term_height {
            Viewport { center_height: (v.center_height + 1) as u16, ..v }
        } else {
            v
        },
        Key::Down => if v.center_height > 0 {
            Viewport { center_height: (v.center_height - 1) as u16, ..v }
        } else {
            v
        },
        Key::Right => if v.center_width < term_width {
            Viewport { center_width: (v.center_width + 1) as u16, ..v }
        } else {
            v
        },
        Key::Left => if v.center_width > 0 {
            Viewport { center_width: (v.center_width - 1) as u16, ..v }
        } else {
            v
        },
        _ => v,
    }
}

/// Whether a key ends the clock.
pub open spec fn is_quit_key(key: Key) -> bool {
    key == Key::Char('q')
}

impl Viewport {
    /// The size the clock starts with.
    pub fn new() -> (r: Viewport)
        ensures
            r.center_height == START_HEIGHT,
            r.center_width == START_WIDTH,
    {
        Viewport { center_height: START_HEIGHT, center_width: START_WIDTH }
    }

    /// Where the clock's area goes in a terminal of the given size.
    pub fn placement(&self, term_height: u16, term_width: u16) -> (r: Placement)
        ensures
            r == placement_spec(*self, term_height, term_width),
            r.height <= self.center_height,
            r.width <= self.center_width,
            2 * r.top + r.height <= term_height,
            2 * r.left + r.width <= term_width,
    {
        let height: u16 = if term_height < self.center_height {
            term_height
        } else {
            self.center_height
        };
        let width: u16 = if term_width < self.center_width {
            term_width
        } else {
            self.center_width
        };
        Placement {
            top: (term_height - height) / 2,
            height,
            left: (term_width - width) / 2,
            width,
        }
    }

    /// Applies one key press that is not the quit key.
    pub fn press(&mut self, key: Key, term_height: u16, term_width: u16)
        ensures
            *final(self) == key_spec(*old(self), key, term_height, term_width),
    {
        match key {
            Key::Up => {
                if self.center_height < term_height {
                    self.center_height = self.center_height + 1;
                }
            },
            Key::Down => {
                if self.center_height > 0 {
                    self.center_height = self.center_height - 1;
                }
            },
            Key::Right => {
                if self.center_width < term_width {
                    self.center_width = self.center_width + 1;
                }
            },
            Key::Left => {
                if self.center_width > 0 {
                    self.center_width = self.center_width - 1;
                }
            },
            _ => {},
        }
    }

    /// One turn of the run loop. `event` is what the terminal reported, or
    /// `None` where nothing was pending; the terminal's size is read at the
    /// start of the turn. A pending event is handled and nothing is drawn;
    /// with none pending the clock is drawn.
    pub fn step(&mut self, event: Option<Event>, term_height: u16, term_width: u16) -> (r: Action)
        ensures
            match event {
                None => {
                    &&& *final(self) == *old(self)
                    &&& r == Action::Draw(placement_spec(*old(self), term_height, term_width))
                },
                Some(Event::Key(k)) => if is_quit_key(k) {
                    *final(self) == *old(self) && r == Action::Quit
                } else {
                    *final(self) == key_spec(*old(self), k, term_height, term_width)
                        && r == Action::Wait
                },
                Some(Event::Other) => *final(self) == *old(self) && r == Action::Wait,
            },
    {
        match event {
            None => Action::Draw(self.placement(term_height, term_width)),
            Some(Event::Key(k)) => {
                if k == Key::Char('q') {
                    Action::Quit
                } else {
                    self.press(k, term_height, term_width);
                    Action::Wait
                }
            },
            Some(Event::Other) => Action::Wait,
        }
    }
}

} // verus!
