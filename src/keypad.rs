//! The joypad: two rows of four active-low buttons behind register 0xFF00.
use vstd::prelude::*;

verus! {

/// Bit of 0xFF00 that selects the direction row when clear.
const ROW0_FLAG: u8 = 0x10;

/// Bit of 0xFF00 that selects the action row when clear.
const ROW1_FLAG: u8 = 0x20;

#[derive(Clone, Copy, Debug, PartialEq, Eq, Structural)]
pub enum Key {
    A,
    B,
    Select,
    Start,
    Right,
    Left,
    Up,
    Down,
}

#[derive(Clone, Copy, Debug, PartialEq, Eq, Structural)]
pub enum KeyEvent {
    Press(Key),
    Release(Key),
}

impl Key {
    /// Whether the key sits in the direction row (selected by bit 4 of 0xFF00).
    pub open spec fn is_direction(self) -> bool {
        match self {
            Key::Right | Key::Left | Key::Up | Key::Down => true,
            _ => false,
        }
    }

    /// The key's bit within its row.
    pub open spec fn spec_bit(self) -> u8 {
        match self {
            Key::Right | Key::A => 0b0001,
            Key::Left | Key::B => 0b0010,
            Key::Up | Key::Select => 0b0100,
            Key::Down | Key::Start => 0b1000,
        }
    }

    fn bit(self) -> (r: u8)
        ensures
            r == self.spec_bit(),
    {
        match self {
            Key::Right | Key::A => 0b0001,
            Key::Left | Key::B => 0b0010,
            Key::Up | Key::Select => 0b0100,
            Key::Down | Key::Start => 0b1000,
        }
    }
}

pub struct Keypad {
    pub data: u8,
    pub row0: u8,
    pub row1: u8,
    pub interrupt: u8,
}

impl Keypad {
    /// The low nibble that the selected rows give: all ones where no selected key is down.
    pub open spec fn selected_nibble(data: u8, row0: u8, row1: u8) -> u8 {
        0xF & (if data & 0x10 == 0 {
            row0
        } else {
            0xF
        }) & (if data & 0x20 == 0 {
            row1
        } else {
            0xF
        })
    }

    /// The state after the status nibble is recomputed from the rows, with a joypad
    /// interrupt latched on a change from no key to some key.
    pub open spec fn refreshed(self) -> Keypad {
        let new = Keypad::selected_nibble(self.data, self.row0, self.row1);
        Keypad {
            data: (self.data & 0xF0) | new,
            interrupt: if self.data & 0xF == 0xF && new != 0xF {
                self.interrupt | 0x10
            } else {
                self.interrupt
            },
            ..self
        }
    }

    pub open spec fn spec_write(self, value: u8) -> Keypad {
        Keypad { data: (self.data & !0x30u8) | (value & 0x30), ..self }.refreshed()
    }

    pub open spec fn spec_press(self, key: Key) -> Keypad {
        if key.is_direction() {
            Keypad { row0: self.row0 & !key.spec_bit(), ..self }.refreshed()
        } else {
            Keypad { row1: self.row1 & !key.spec_bit(), ..self }.refreshed()
        }
    }

    pub open spec fn spec_release(self, key: Key) -> Keypad {
        if key.is_direction() {
            Keypad { row0: self.row0 | key.spec_bit(), ..self }.refreshed()
        } else {
            Keypad { row1: self.row1 | key.spec_bit(), ..self }.refreshed()
        }
    }

    pub open spec fn spec_is_pressed(&self, key: Key) -> bool {
        if key.is_direction() {
            self.row0 & key.spec_bit() == 0
        } else {
            self.row1 & key.spec_bit() == 0
        }
    }

    pub open spec fn initial() -> Keypad {
        Keypad { data: 0xFF, row0: 0x0F, row1: 0x0F, interrupt: 0 }
    }

    pub fn new() -> (r: Keypad)
        ensures
            r == Keypad::initial(),
            r.data == 0xFF,
            r.interrupt == 0,
    {
        Keypad { data: 0xFF, row0: 0x0F, row1: 0x0F, interrupt: 0x00 }
    }

    /// The value of register 0xFF00: bits 7 and 6 read 1, bits 5 and 4 echo the row
    /// selection (0 selects), bits 3 to 0 hold the selected rows' keys (0 is pressed).
    pub fn read(&self) -> (r: u8)
        ensures
            r == 0xC0 | (self.data & 0x3F),
    {
        0xC0 | (self.data & 0x3F)
    }

    /// Selects rows with bits 4 and 5 of `value` (0 selects).
    pub fn write(&mut self, value: u8)
        ensures
            *final(self) == old(self).spec_write(value),
    {
        let mask: u8 = 0x30;
        self.data = (self.data & !mask) | (value & mask);
        self.update();
    }

    fn update(&mut self)
        ensures
            *final(self) == old(self).refreshed(),
    {
        let old = self.data & 0xF;
        let mut new: u8 = 0xF;
        if self.data & ROW0_FLAG == 0 {
            new = new & self.row0;
        }
        if self.data & ROW1_FLAG == 0 {
            new = new & self.row1;
        }
        proof {
            let d = self.data;
            let r0 = self.row0;
            let r1 = self.row1;
            assert(new == Keypad::selected_nibble(d, r0, r1)) by (bit_vector)
                requires
                    new == (if d & 0x20 == 0 {
                        (if d & 0x10 == 0 {
                            0xFu8 & r0
                        } else {
                            0xFu8
                        }) & r1
                    } else {
                        (if d & 0x10 == 0 {
                            0xFu8 & r0
                        } else {
                            0xFu8
                        })
                    }),
            ;
        }
        if old == 0xF && new != 0xF {
            self.interrupt = self.interrupt | 0x10;
        }
        self.data = (self.data & 0xF0) | new;
    }

    pub fn is_pressed(&self, key: Key) -> (r: bool)
        ensures
            r == self.spec_is_pressed(key),
    {
        match key {
            Key::Right | Key::Left | Key::Up | Key::Down => self.row0 & key.bit() == 0,
            _ => self.row1 & key.bit() == 0,
        }
    }

    pub fn press(&mut self, key: Key)
        ensures
            *final(self) == old(self).spec_press(key),
    {
        match key {
            Key::Right | Key::Left | Key::Up | Key::Down => self.row0 = self.row0 & !key.bit(),
            _ => self.row1 = self.row1 & !key.bit(),
        }
        self.update();
    }

    pub fn release(&mut self, key: Key)
        ensures
            *final(self) == old(self).spec_release(key),
    {
        match key {
            Key::Right | Key::Left | Key::Up | Key::Down => self.row0 = self.row0 | key.bit(),
            _ => self.row1 = self.row1 | key.bit(),
        }
        self.update();
    }
}

/// The key a host names: "Up", "Down", "Left", "Right", "A", "B", "Start" or "Select".
pub open spec fn key_named(s: Seq<char>) -> Option<Key> {
    if s == "Up"@ {
        Some(Key::Up)
    } else if s == "Down"@ {
        Some(Key::Down)
    } else if s == "Left"@ {
        Some(Key::Left)
    } else if s == "Right"@ {
        Some(Key::Right)
    } else if s == "A"@ {
        Some(Key::A)
    } else if s == "B"@ {
        Some(Key::B)
    } else if s == "Start"@ {
        Some(Key::Start)
    } else if s == "Select"@ {
        Some(Key::Select)
    } else {
        None
    }
}

/// The key called `name`; `None` for a name that is no key.
pub fn key_from_name(name: &str) -> (r: Option<Key>)
    ensures
        r == key_named(name@),
{
    let s = name.to_owned();
    if s == "Up".to_owned() {
        Some(Key::Up)
    } else if s == "Down".to_owned() {
        Some(Key::Down)
    } else if s == "Left".to_owned() {
        Some(Key::Left)
    } else if s == "Right".to_owned() {
        Some(Key::Right)
    } else if s == "A".to_owned() {
        Some(Key::A)
    } else if s == "B".to_owned() {
        Some(Key::B)
    } else if s == "Start".to_owned() {
        Some(Key::Start)
    } else if s == "Select".to_owned() {
        Some(Key::Select)
    } else {
        None
    }
}

/// The key bound to a browser key code: Q, Z, D, S for the directions, J and K for A and
/// B, space for Select and Enter for Start.
pub fn keycode_to_key(key: u8) -> (r: Option<Key>)
    ensures
        r == (if key == 81 {
            Some(Key::Left)
        } else if key == 90 {
            Some(Key::Up)
        } else if key == 68 {
            Some(Key::Right)
        } else if key == 83 {
            Some(Key::Down)
        } else if key == 74 {
            Some(Key::A)
        } else if key == 75 {
            Some(Key::B)
        } else if key == 32 {
            Some(Key::Select)
        } else if key == 13 {
            Some(Key::Start)
        } else {
            None
        }),
{
    match key {
        81 => Some(Key::Left),
        90 => Some(Key::Up),
        68 => Some(Key::Right),
        83 => Some(Key::Down),
        74 => Some(Key::A),
        75 => Some(Key::B),
        32 => Some(Key::Select),
        13 => Some(Key::Start),
        _ => None,
    }
}

/// The key bound to a terminal key: z, s, q, d for the directions, space and g for A and
/// B, carriage return for Start and backspace for Select.
pub fn key_from_char(c: char) -> (r: Option<Key>)
    ensures
        r == (if c == 'z' {
            Some(Key::Up)
        } else if c == 's' {
            Some(Key::Down)
        } else if c == 'q' {
            Some(Key::Left)
        } else if c == 'd' {
            Some(Key::Right)
        } else if c == ' ' {
            Some(Key::A)
        } else if c == 'g' {
            Some(Key::B)
        } else if c == '\r' {
            Some(Key::Start)
        } else if c == '\u{8}' {
            Some(Key::Select)
        } else {
            None
        }),
{
    match c {
        'z' => Some(Key::Up),
        's' => Some(Key::Down),
        'q' => Some(Key::Left),
        'd' => Some(Key::Right),
        ' ' => Some(Key::A),
        'g' => Some(Key::B),
        '\r' => Some(Key::Start),
        '\u{8}' => Some(Key::Select),
        _ => None,
    }
}

} // verus!
