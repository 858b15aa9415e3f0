use vstd::prelude::*;

verus! {

pub const JOYPAD: u16 = 0xFF00;

/// Interrupt request bit of the joypad.
pub const JOYPAD_INTERRUPT: u8 = 0x10;

/// The eight buttons and the two group-select lines of the JOYP register.
#[derive(Clone, Copy)]
pub struct Joypad {
    pub action: bool,
    pub direction: bool,
    pub up: bool,
    pub down: bool,
    pub right: bool,
    pub left: bool,
    pub a: bool,
    pub b: bool,
    pub start: bool,
    pub select: bool,
    /// Interrupt request bits raised since the bus last collected them.
    pub interrupt: u8,
}

#[derive(Clone, Copy, Debug, PartialEq, Eq, Structural)]
pub enum KeypadKey {
    Right,
    Left,
    Up,
    Down,
    A,
    B,
    Select,
    Start,
}

pub open spec fn bit_if(b: bool, w: u8) -> u8 {
    if b {
        w
    } else {
        0
    }
}

impl Joypad {
    /// Bits (active high) of the held direction buttons.
    pub open spec fn direction_bits(self) -> u8 {
        (bit_if(self.right, 1) + bit_if(self.left, 2) + bit_if(self.up, 4) + bit_if(self.down, 8)) as u8
    }

    /// Bits (active high) of the held action buttons.
    pub open spec fn action_bits(self) -> u8 {
        (bit_if(self.a, 1) + bit_if(self.b, 2) + bit_if(self.select, 4) + bit_if(self.start, 8)) as u8
    }

    /// The JOYP register: a group is read when its select line is low, and a
    /// held button of a read group reads as 0.
    pub open spec fn read(self) -> u8 {
        let held = (if !self.direction { self.direction_bits() } else { 0 }) | (if !self.action {
            self.action_bits()
        } else {
            0
        });
        0xC0u8 | bit_if(self.action, 0x20) | bit_if(self.direction, 0x10) | (0x0Fu8 & !held)
    }

    pub open spec fn pressed(self, k: KeypadKey) -> bool {
        match k {
            KeypadKey::Right => self.right,
            KeypadKey::Left => self.left,
            KeypadKey::Up => self.up,
            KeypadKey::Down => self.down,
            KeypadKey::A => self.a,
            KeypadKey::B => self.b,
            KeypadKey::Select => self.select,
            KeypadKey::Start => self.start,
        }
    }

    pub open spec fn with_key(self, k: KeypadKey, held: bool) -> Joypad {
        match k {
            KeypadKey::Right => Joypad { right: held, ..self },
            KeypadKey::Left => Joypad { left: held, ..self },
            KeypadKey::Up => Joypad { up: held, ..self },
            KeypadKey::Down => Joypad { down: held, ..self },
            KeypadKey::A => Joypad { a: held, ..self },
            KeypadKey::B => Joypad { b: held, ..self },
            KeypadKey::Select => Joypad { select: held, ..self },
            KeypadKey::Start => Joypad { start: held, ..self },
        }
    }

    pub open spec fn any_pressed(self) -> bool {
        self.right || self.left || self.up || self.down || self.a || self.b || self.start
            || self.select
    }

    /// Writing JOYP sets the two select lines from bits 5 and 4.
    pub open spec fn write(self, v: u8) -> Joypad {
        Joypad { action: (v / 32) % 2 == 1, direction: (v / 16) % 2 == 1, ..self }
    }

    pub fn new() -> (r: Joypad)
        ensures
            !r.action && !r.direction && !r.any_pressed() && r.interrupt == 0,
    {
        Joypad {
            action: false,
            direction: false,
            up: false,
            down: false,
            right: false,
            left: false,
            a: false,
            b: false,
            start: false,
            select: false,
            interrupt: 0,
        }
    }

    pub fn rb(&self) -> (r: u8)
        ensures
            r == self.read(),
    {
        let dir: u8 = (if self.right { 1u8 } else { 0u8 }) + (if self.left { 2u8 } else { 0u8 }) + (
        if self.up { 4u8 } else { 0u8 }) + (if self.down { 8u8 } else { 0u8 });
        let act: u8 = (if self.a { 1u8 } else { 0u8 }) + (if self.b { 2u8 } else { 0u8 }) + (
        if self.select { 4u8 } else { 0u8 }) + (if self.start { 8u8 } else { 0u8 });
        let held = (if !self.direction { dir } else { 0 }) | (if !self.action { act } else { 0 });
        let sel_a: u8 = if self.action { 0x20 } else { 0 };
        let sel_d: u8 = if self.direction { 0x10 } else { 0 };
        0xC0u8 | sel_a | sel_d | (0x0Fu8 & !held)
    }

    pub fn wb(&mut self, v: u8)
        ensures
            *final(self) == old(self).write(v),
    {
        self.action = (v / 32) % 2 == 1;
        self.direction = (v / 16) % 2 == 1;
    }

    /// Holds a button; a press while no button was held requests the joypad
    /// interrupt.
    pub fn press_button(&mut self, button: KeypadKey)
        ensures
            *final(self) == (Joypad {
                interrupt: if old(self).any_pressed() {
                    old(self).interrupt
                } else {
                    old(self).interrupt | JOYPAD_INTERRUPT
                },
                ..old(self).with_key(button, true)
            }),
    {
        let was_pressed = self.any_button_pressed();
        match button {
            KeypadKey::Right => self.right = true,
            KeypadKey::Left => self.left = true,
            KeypadKey::Up => self.up = true,
            KeypadKey::Down => self.down = true,
            KeypadKey::A => self.a = true,
            KeypadKey::B => self.b = true,
            KeypadKey::Start => self.start = true,
            KeypadKey::Select => self.select = true,
        }
        if !was_pressed {
            self.interrupt = self.interrupt | JOYPAD_INTERRUPT;
        }
    }

    pub fn release_button(&mut self, button: KeypadKey)
        ensures
            *final(self) == old(self).with_key(button, false),
    {
        match button {
            KeypadKey::Right => self.right = false,
            KeypadKey::Left => self.left = false,
            KeypadKey::Up => self.up = false,
            KeypadKey::Down => self.down = false,
            KeypadKey::A => self.a = false,
            KeypadKey::B => self.b = false,
            KeypadKey::Start => self.start = false,
            KeypadKey::Select => self.select = false,
        }
    }

    pub fn any_button_pressed(&self) -> (r: bool)
        ensures
            r == self.any_pressed(),
    {
        self.right || self.left || self.up || self.down || self.a || self.b || self.start
            || self.select
    }
}

} // verus!
