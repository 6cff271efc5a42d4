use vstd::prelude::*;

verus! {

/// The eight buttons.
#[derive(Debug, Clone, Copy, PartialEq, Eq, Structural)]
pub enum Button {
    Right,
    Left,
    Up,
    Down,
    A,
    B,
    Select,
    Start,
}

impl Button {
    /// The direction pad group (right, left, up, down); otherwise the action group.
    pub open spec fn is_direction(self) -> bool {
        self is Right || self is Left || self is Up || self is Down
    }
}

/// The joypad's register and which buttons are held.
#[derive(Debug, Clone, Copy, PartialEq, Eq, Structural)]
pub struct JoypadState {
    pub p1: u8,
    pub right: bool,
    pub left: bool,
    pub up: bool,
    pub down: bool,
    pub a: bool,
    pub b: bool,
    pub select: bool,
    pub start: bool,
}

pub open spec fn b2i(b: bool) -> int {
    if b { 1 } else { 0 }
}

/// A group's four button bits, active low: a held button reads as 0.
pub open spec fn group_nibble(b0: bool, b1: bool, b2: bool, b3: bool) -> u8 {
    (15 - b2i(b0) - 2 * b2i(b1) - 4 * b2i(b2) - 8 * b2i(b3)) as u8
}

impl JoypadState {
    pub open spec fn held(self, button: Button) -> bool {
        match button {
            Button::Right => self.right,
            Button::Left => self.left,
            Button::Up => self.up,
            Button::Down => self.down,
            Button::A => self.a,
            Button::B => self.b,
            Button::Select => self.select,
            Button::Start => self.start,
        }
    }

    pub open spec fn with_button(self, button: Button, pressed: bool) -> JoypadState {
        match button {
            Button::Right => JoypadState { right: pressed, ..self },
            Button::Left => JoypadState { left: pressed, ..self },
            Button::Up => JoypadState { up: pressed, ..self },
            Button::Down => JoypadState { down: pressed, ..self },
            Button::A => JoypadState { a: pressed, ..self },
            Button::B => JoypadState { b: pressed, ..self },
            Button::Select => JoypadState { select: pressed, ..self },
            Button::Start => JoypadState { start: pressed, ..self },
        }
    }

    /// Bit 4 clear selects the direction pad; bit 5 clear the action buttons.
    pub open spec fn selects(self, button: Button) -> bool {
        if button.is_direction() { (self.p1 / 16) % 2 == 0 } else { (self.p1 / 32) % 2 == 0 }
    }

    /// The register as read: the selection bits, and in the low nibble the
    /// selected groups' button bits combined.
    pub open spec fn register_value(self) -> u8 {
        let dpad = if (self.p1 / 16) % 2 == 0 { group_nibble(self.right, self.left, self.up, self.down) } else { 0 };
        let action = if (self.p1 / 32) % 2 == 0 { group_nibble(self.a, self.b, self.select, self.start) } else { 0 };
        (self.p1 & 0xF0) | dpad | action
    }
}

/// The joypad register (0xFF00) and the state of the buttons.
pub struct Joypad {
    p1: u8,
    right: bool,
    left: bool,
    up: bool,
    down: bool,
    a: bool,
    b: bool,
    select: bool,
    start: bool,
}

impl View for Joypad {
    type V = JoypadState;

    closed spec fn view(&self) -> JoypadState {
        JoypadState {
            p1: self.p1,
            right: self.right,
            left: self.left,
            up: self.up,
            down: self.down,
            a: self.a,
            b: self.b,
            select: self.select,
            start: self.start,
        }
    }
}

fn nibble(b0: bool, b1: bool, b2: bool, b3: bool) -> (r: u8)
    ensures
        r == group_nibble(b0, b1, b2, b3),
{
    let mut value: u8 = 15;
    if b0 {
        value = value - 1;
    }
    if b1 {
        value = value - 2;
    }
    if b2 {
        value = value - 4;
    }
    if b3 {
        value = value - 8;
    }
    value
}

impl Joypad {
    /// All register bits set and no button held.
    pub fn new() -> (r: Self)
        ensures
            r@ == (JoypadState {
                p1: 0xFF,
                right: false,
                left: false,
                up: false,
                down: false,
                a: false,
                b: false,
                select: false,
                start: false,
            }),
    {
        Joypad {
            p1: 0xFF,
            right: false,
            left: false,
            up: false,
            down: false,
            a: false,
            b: false,
            select: false,
            start: false,
        }
    }

    pub fn read_register(&self) -> (r: u8)
        ensures
            r == self@.register_value(),
    {
        let result = self.p1 & 0xF0;
        let dpad: u8 = if (self.p1 / 16) % 2 == 0 {
            nibble(self.right, self.left, self.up, self.down)
        } else {
            0
        };
        let action: u8 = if (self.p1 / 32) % 2 == 0 {
            nibble(self.a, self.b, self.select, self.start)
        } else {
            0
        };
        result | dpad | action
    }

    /// Only the two selection bits (4 and 5) are writable.
    pub fn write_register(&mut self, value: u8)
        ensures
            final(self)@ == (JoypadState { p1: (old(self)@.p1 & 0xCF) | (value & 0x30), ..old(self)@ }),
    {
        self.p1 = (self.p1 & 0xCF) | (value & 0x30);
    }

    /// Records a button as held or released. Returns whether a joypad
    /// interrupt is requested: the button went from released to held while
    /// its group is selected.
    pub fn set_button_state(&mut self, button: Button, pressed: bool) -> (r: bool)
        ensures
            final(self)@ == old(self)@.with_button(button, pressed),
            r == (!old(self)@.held(button) && pressed && old(self)@.selects(button)),
    {
        let old_state = match button {
            Button::Right => self.right,
            Button::Left => self.left,
            Button::Up => self.up,
            Button::Down => self.down,
            Button::A => self.a,
            Button::B => self.b,
            Button::Select => self.select,
            Button::Start => self.start,
        };
        match button {
            Button::Right => self.right = pressed,
            Button::Left => self.left = pressed,
            Button::Up => self.up = pressed,
            Button::Down => self.down = pressed,
            Button::A => self.a = pressed,
            Button::B => self.b = pressed,
            Button::Select => self.select = pressed,
            Button::Start => self.start = pressed,
        }
        if !old_state && pressed {
            match button {
                Button::Right | Button::Left | Button::Up | Button::Down => (self.p1 / 16) % 2 == 0,
                _ => (self.p1 / 32) % 2 == 0,
            }
        } else {
            false
        }
    }
}

} // verus!
