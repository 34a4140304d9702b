//! The sixteen logical key codes. The mapping from a host's physical layout
//! to these codes is a pure, stateless concern of the host, not of the core.

use vstd::prelude::*;

verus! {

/// One logical key, code 0x0 through 0xf.
#[derive(Debug, Clone, Copy, PartialEq, Eq, Structural)]
pub enum Key {
    Key0,
    Key1,
    Key2,
    Key3,
    Key4,
    Key5,
    Key6,
    Key7,
    Key8,
    Key9,
    KeyA,
    KeyB,
    KeyC,
    KeyD,
    KeyE,
    KeyF,
}

impl Key {
    /// The code of this key, 0 through 15.
    pub open spec fn spec_code(self) -> u8 {
        match self {
            Key::Key0 => 0x0,
            Key::Key1 => 0x1,
            Key::Key2 => 0x2,
            Key::Key3 => 0x3,
            Key::Key4 => 0x4,
            Key::Key5 => 0x5,
            Key::Key6 => 0x6,
            Key::Key7 => 0x7,
            Key::Key8 => 0x8,
            Key::Key9 => 0x9,
            Key::KeyA => 0xa,
            Key::KeyB => 0xb,
            Key::KeyC => 0xc,
            Key::KeyD => 0xd,
            Key::KeyE => 0xe,
            Key::KeyF => 0xf,
        }
    }

    /// The code of this key, 0 through 15.
    pub fn code(&self) -> (c: u8)
        ensures
            c == self.spec_code(),
            c < 16,
    {
        match self {
            Key::Key0 => 0x0,
            Key::Key1 => 0x1,
            Key::Key2 => 0x2,
            Key::Key3 => 0x3,
            Key::Key4 => 0x4,
            Key::Key5 => 0x5,
            Key::Key6 => 0x6,
            Key::Key7 => 0x7,
            Key::Key8 => 0x8,
            Key::Key9 => 0x9,
            Key::KeyA => 0xa,
            Key::KeyB => 0xb,
            Key::KeyC => 0xc,
            Key::KeyD => 0xd,
            Key::KeyE => 0xe,
            Key::KeyF => 0xf,
        }
    }
}

} // verus!
