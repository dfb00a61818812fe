//! The joypad and its column-select register at 0xFF00.
use vstd::prelude::*;

verus! {

/// Which button column register 0xFF00 reports.
#[derive(Clone, Copy, Debug, PartialEq, Eq, Structural)]
pub enum PadSelection {
    Neither,
    Action,
    Direction,
}

/// The eight keys.
#[derive(Clone, Copy, Debug, PartialEq, Eq, Structural)]
pub enum PadKey {
    Up,
    Down,
    Left,
    Right,
    Start,
    Select,
    A,
    B,
}

/// Which keys are held down, and the selected column.
#[derive(Clone, Copy, Debug, PartialEq, Eq, Structural)]
pub struct Pad {
    pub up: bool,
    pub down: bool,
    pub left: bool,
    pub right: bool,
    pub start: bool,
    pub select: bool,
    pub b: bool,
    pub a: bool,
    pub selection: PadSelection,
}

/// 0 for a pressed key, `bit` for a released one.
pub open spec fn released(pressed: bool, bit: int) -> int {
    if pressed {
        0
    } else {
        bit
    }
}

impl Pad {
    pub open spec fn initial() -> Pad {
        Pad {
            up: false,
            down: false,
            left: false,
            right: false,
            start: false,
            select: false,
            b: false,
            a: false,
            selection: PadSelection::Neither,
        }
    }

    pub open spec fn pressed(self, key: PadKey) -> bool {
        match key {
            PadKey::Up => self.up,
            PadKey::Down => self.down,
            PadKey::Left => self.left,
            PadKey::Right => self.right,
            PadKey::Start => self.start,
            PadKey::Select => self.select,
            PadKey::A => self.a,
            PadKey::B => self.b,
        }
    }

    pub open spec fn with_key(self, key: PadKey, v: bool) -> Pad {
        match key {
            PadKey::Up => Pad { up: v, ..self },
            PadKey::Down => Pad { down: v, ..self },
            PadKey::Left => Pad { left: v, ..self },
            PadKey::Right => Pad { right: v, ..self },
            PadKey::Start => Pad { start: v, ..self },
            PadKey::Select => Pad { select: v, ..self },
            PadKey::A => Pad { a: v, ..self },
            PadKey::B => Pad { b: v, ..self },
        }
    }

    /// The value register 0xFF00 reads: the selected column's keys in the low
    /// nibble, 0 for pressed, and the unselected column's select bit high.
    pub open spec fn read_spec(self) -> u8 {
        match self.selection {
            PadSelection::Action => (0x10 + released(self.a, 1) + released(self.b, 2) + released(
                self.select,
                4,
            ) + released(self.start, 8)) as u8,
            PadSelection::Direction => (0x20 + released(self.right, 1) + released(self.left, 2)
                + released(self.up, 4) + released(self.down, 8)) as u8,
            PadSelection::Neither => 0x3F,
        }
    }

    /// The column a write of `v` selects: bits 4 and 5, active low.
    pub open spec fn selection_of(v: u8) -> PadSelection {
        if (v as int / 16) % 4 == 1 {
            PadSelection::Action
        } else if (v as int / 16) % 4 == 2 {
            PadSelection::Direction
        } else {
            PadSelection::Neither
        }
    }

    /// No key held, no column selected.
    pub fn new() -> (r: Pad)
        ensures
            r == Pad::initial(),
    {
        Pad {
            up: false,
            down: false,
            left: false,
            right: false,
            start: false,
            select: false,
            b: false,
            a: false,
            selection: PadSelection::Neither,
        }
    }

    /// Marks `key` as held down.
    pub fn key_press(&mut self, key: PadKey)
        ensures
            *final(self) == old(self).with_key(key, true),
    {
        self.set_key(key, true);
    }

    /// Marks `key` as released.
    pub fn key_lift(&mut self, key: PadKey)
        ensures
            *final(self) == old(self).with_key(key, false),
    {
        self.set_key(key, false);
    }

    fn set_key(&mut self, key: PadKey, v: bool)
        ensures
            *final(self) == old(self).with_key(key, v),
    {
        match key {
            PadKey::Up => self.up = v,
            PadKey::Down => self.down = v,
            PadKey::Left => self.left = v,
            PadKey::Right => self.right = v,
            PadKey::Start => self.start = v,
            PadKey::Select => self.select = v,
            PadKey::A => self.a = v,
            PadKey::B => self.b = v,
        }
    }

    /// Reads register 0xFF00.
    pub fn read(&self) -> (r: u8)
        ensures
            r == self.read_spec(),
    {
        match self.selection {
            PadSelection::Action => {
                let mut v: u8 = 0x10;
                if !self.a {
                    v = v + 1;
                }
                if !self.b {
                    v = v + 2;
                }
                if !self.select {
                    v = v + 4;
                }
                if !self.start {
                    v = v + 8;
                }
                v
            },
            PadSelection::Direction => {
                let mut v: u8 = 0x20;
                if !self.right {
                    v = v + 1;
                }
                if !self.left {
                    v = v + 2;
                }
                if !self.up {
                    v = v + 4;
                }
                if !self.down {
                    v = v + 8;
                }
                v
            },
            PadSelection::Neither => 0x3F,
        }
    }

    /// Writes register 0xFF00: selects a column.
    pub fn write(&mut self, v: u8)
        ensures
            *final(self) == (Pad { selection: Pad::selection_of(v), ..*old(self) }),
    {
        let sel = (v / 16) % 4;
        self.selection = if sel == 1 {
            PadSelection::Action
        } else if sel == 2 {
            PadSelection::Direction
        } else {
            PadSelection::Neither
        };
    }
}

} // verus!
