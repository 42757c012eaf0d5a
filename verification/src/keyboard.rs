//! The keyboard: a one-byte key latch with a ready flag, plus the two
//! chassis buttons (Display and Keyboard) that are reported in the status
//! byte while held.
//!
//! Host key events arrive by name: a single ASCII character stands for
//! itself, and the names Enter, Cancel, Backspace and Delete map to fixed
//! codes.  Any other name carries no key code, though Tab and Keyboard
//! still press their chassis buttons.

use vstd::prelude::*;

verus! {

/// The databus address the keyboard answers to (shared with the screen).
pub const KEYBOARD_ADDR: u8 = 0o341;

/// The 8-bit code a host key name stands for, if any: a single ASCII
/// character is its own code; Enter is 13, Cancel 24, Backspace 8,
/// Delete 127; other names carry none.
pub open spec fn spec_convert_key(key: Seq<char>) -> Option<u8> {
    if key.len() == 1 && (key[0] as u32) < 128 {
        Some((key[0] as u32) as u8)
    } else if key == "Enter"@ {
        Some(13)
    } else if key == "Cancel"@ {
        Some(24)
    } else if key == "Backspace"@ {
        Some(8)
    } else if key == "Delete"@ {
        Some(127)
    } else {
        None
    }
}

/// The keyboard.
#[derive(Debug, Clone)]
pub struct Keyboard {
    pub display_pressed: bool,
    pub keyboard_pressed: bool,
    pub key_buf: u8,
    pub key_ready: bool,
}

/// The keyboard after a key with name `key` goes down: a translatable name
/// latches its code and sets the ready flag; Tab and Keyboard press their
/// chassis buttons.
pub open spec fn spec_keydown(k: Keyboard, key: Seq<char>) -> Keyboard {
    let k1 = match spec_convert_key(key) {
        Some(code) => Keyboard { key_buf: code, key_ready: true, ..k },
        None => k,
    };
    let k2 = if key == "Tab"@ {
        Keyboard { display_pressed: true, ..k1 }
    } else {
        k1
    };
    if key == "Keyboard"@ {
        Keyboard { keyboard_pressed: true, ..k2 }
    } else {
        k2
    }
}

/// The keyboard after a key with name `key` goes up: releasing the key
/// whose code is latched clears the ready flag; Tab and Keyboard release
/// their chassis buttons.
pub open spec fn spec_keyup(k: Keyboard, key: Seq<char>) -> Keyboard {
    let k1 = match spec_convert_key(key) {
        Some(code) => if code == k.key_buf {
            Keyboard { key_ready: false, ..k }
        } else {
            k
        },
        None => k,
    };
    let k2 = if key == "Tab"@ {
        Keyboard { display_pressed: false, ..k1 }
    } else {
        k1
    };
    if key == "Keyboard"@ {
        Keyboard { keyboard_pressed: false, ..k2 }
    } else {
        k2
    }
}

/// The keyboard status byte: bit 1 is the key-ready flag, bit 2 the
/// Keyboard button, bit 3 the Display button.
pub open spec fn spec_keyboard_status(k: Keyboard) -> u8 {
    ((if k.key_ready {
        2u8
    } else {
        0u8
    }) | (if k.keyboard_pressed {
        4u8
    } else {
        0u8
    })) | (if k.display_pressed {
        8u8
    } else {
        0u8
    })
}

/// The 8-bit code the given host key name stands for; see
/// `spec_convert_key`.
pub fn convert_key(key: &String) -> (r: Option<u8>)
    ensures
        r == spec_convert_key(key@),
{
    if key.as_str().unicode_len() == 1 {
        let c = key.as_str().get_char(0);
        let u = c as u32;
        if u < 128 {
            return Some(u as u8);
        }
    }
    if string_eq_literal(key, "Enter") {
        Some(13)
    } else if string_eq_literal(key, "Cancel") {
        Some(24)
    } else if string_eq_literal(key, "Backspace") {
        Some(8)
    } else if string_eq_literal(key, "Delete") {
        Some(127)
    } else {
        None
    }
}

/// Whether a string equals a string literal, character for character.
fn string_eq_literal(s: &String, lit: &str) -> (r: bool)
    ensures
        r == (s@ == lit@),
{
    let other = lit.to_owned();
    s.eq(&other)
}

impl Keyboard {
    /// A keyboard with nothing latched and no button held.
    pub fn new() -> (k: Keyboard)
        ensures
            (k == Keyboard {
                key_buf: 0,
                key_ready: false,
                keyboard_pressed: false,
                display_pressed: false,
            }),
    {
        Keyboard { key_buf: 0, key_ready: false, keyboard_pressed: false, display_pressed: false }
    }

    /// A host key went down; see `spec_keydown`.
    pub fn keydown(&mut self, key: String)
        ensures
            *final(self) == spec_keydown(*old(self), key@),
    {
        if let Some(key_code) = convert_key(&key) {
            self.key_buf = key_code;
            self.key_ready = true;
        }
        if string_eq_literal(&key, "Tab") {
            self.display_pressed = true;
        }
        if string_eq_literal(&key, "Keyboard") {
            self.keyboard_pressed = true;
        }
    }

    /// A host key went up; see `spec_keyup`.
    pub fn keyup(&mut self, key: String)
        ensures
            *final(self) == spec_keyup(*old(self), key@),
    {
        if let Some(key_code) = convert_key(&key) {
            if key_code == self.key_buf {
                self.key_ready = false;
            }
        }
        if string_eq_literal(&key, "Tab") {
            self.display_pressed = false;
        }
        if string_eq_literal(&key, "Keyboard") {
            self.keyboard_pressed = false;
        }
    }

    /// The keyboard status byte; see `spec_keyboard_status`.
    pub fn get_status(&self) -> (r: u8)
        ensures
            r == spec_keyboard_status(*self),
    {
        let mut status: u8 = 0;
        if self.key_ready {
            status = status | 2;
        }
        if self.keyboard_pressed {
            status = status | 4;
        }
        if self.display_pressed {
            status = status | 8;
        }
        proof {
            assert(0u8 | 2 == 2 && 0u8 | 4 == 4 && 0u8 | 8 == 8 && 2u8 | 4 == 6 && 2u8 | 8 == 10
                && 4u8 | 8 == 12 && 6u8 | 8 == 14 && 0u8 | 0 == 0 && 2u8 | 0 == 2 && 4u8 | 0 == 4
                && 6u8 | 0 == 6) by (bit_vector);
        }
        status
    }

    /// The CPU consumed the latched key: clear the ready flag.
    pub fn strobe(&mut self)
        ensures
            (*final(self) == Keyboard { key_ready: false, ..*old(self) }),
    {
        self.key_ready = false;
    }

    /// The keyboard ignores the bus clock.
    pub fn clock(&self)
    {
    }

    /// The data byte the keyboard drives onto the bus: the latched key.
    pub fn get_data(&self) -> (r: u8)
        ensures
            r == self.key_buf,
    {
        self.key_buf
    }

    /// The keyboard ignores bus writes.
    pub fn write_data(&mut self, data: u8)
        ensures
            *final(self) == *old(self),
    {
    }
}

} // verus!
