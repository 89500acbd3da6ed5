//! Keys, key combinations, and the raw key events the interface consumes.

use vstd::prelude::*;

verus! {

/// A key that can carry the global hotkey binding: a letter `A`..`Z` or a
/// function key `F1`..`F12`.
#[derive(Clone, Copy, Debug, PartialEq, Eq)]
pub enum KeyId {
    Letter(char),
    Function(u8),
}

impl KeyId {
    /// Letters are stored uppercase; function keys range over `F1`..`F12`.
    pub open spec fn wf(self) -> bool {
        match self {
            KeyId::Letter(c) => 'A' <= c && c <= 'Z',
            KeyId::Function(n) => 1 <= n && n <= 12,
        }
    }

    pub fn is_wf(&self) -> (r: bool)
        ensures
            r == self.wf(),
    {
        match self {
            KeyId::Letter(c) => 'A' <= *c && *c <= 'Z',
            KeyId::Function(n) => 1 <= *n && *n <= 12,
        }
    }

    /// The virtual-key code the OS hotkey hook registers: letters share
    /// their ASCII code, function keys start at 0x70 for `F1`.
    pub fn vk_code(self) -> (r: u32)
        requires
            self.wf(),
        ensures
            (self matches KeyId::Letter(c) ==> r == c as u32),
            (self matches KeyId::Function(n) ==> r == 0x6F + n as u32),
    {
        match self {
            KeyId::Letter(c) => c as u32,
            KeyId::Function(n) => 0x6F + n as u32,
        }
    }

    /// The characters that display this key: the letter itself, or `F`
    /// followed by the decimal number of the function key.
    pub open spec fn label_spec(self) -> Seq<char> {
        match self {
            KeyId::Letter(c) => seq![c],
            KeyId::Function(n) => if n < 10 {
                seq!['F', (('0' as u32) + n as u32) as char]
            } else {
                seq!['F', '1', (('0' as u32) + (n - 10) as u32) as char]
            },
        }
    }

    pub fn label_chars(self) -> (r: Vec<char>)
        requires
            self.wf(),
        ensures
            r@ == self.label_spec(),
    {
        let mut r: Vec<char> = Vec::new();
        match self {
            KeyId::Letter(c) => {
                r.push(c);
            }
            KeyId::Function(n) => {
                r.push('F');
                if n < 10 {
                    r.push((48u8 + n) as char);
                } else {
                    r.push('1');
                    r.push((48u8 + (n - 10)) as char);
                }
            }
        }
        r
    }
}

/// A modifier chord plus a key: the persisted hotkey binding and the live
/// value captured during rebinding.
#[derive(Clone, Copy, Debug, PartialEq, Eq)]
pub struct KeyCombo {
    pub ctrl: bool,
    pub shift: bool,
    pub alt: bool,
    pub key: KeyId,
}

impl KeyCombo {
    pub open spec fn wf(self) -> bool {
        self.key.wf()
    }

    /// The persisted encoding of the modifier flags, which doubles as the
    /// OS hook's modifier word: alt is bit 0, ctrl bit 1, shift bit 2.
    pub open spec fn mods_spec(self) -> u8 {
        ((if self.alt { 1u8 } else { 0u8 }) + (if self.ctrl { 2u8 } else { 0u8 }) + (if self.shift {
            4u8
        } else {
            0u8
        })) as u8
    }

    pub fn mods_byte(&self) -> (r: u8)
        ensures
            r == self.mods_spec(),
    {
        let mut r: u8 = 0;
        if self.alt {
            r = r + 1;
        }
        if self.ctrl {
            r = r + 2;
        }
        if self.shift {
            r = r + 4;
        }
        r
    }

    /// Recovers the modifier flags from a persisted modifier byte.
    pub fn from_mods_byte(m: u8, key: KeyId) -> (r: KeyCombo)
        ensures
            r.alt == (m & 1 != 0),
            r.ctrl == (m & 2 != 0),
            r.shift == (m & 4 != 0),
            r.key == key,
    {
        KeyCombo { ctrl: m & 2 != 0, shift: m & 4 != 0, alt: m & 1 != 0, key }
    }

    /// The display label: held modifiers in the order Ctrl, Shift, Alt,
    /// joined to the key's label with `+`.
    pub open spec fn label_spec(self) -> Seq<char> {
        (if self.ctrl {
            seq!['C', 't', 'r', 'l', '+']
        } else {
            Seq::empty()
        }) + (if self.shift {
            seq!['S', 'h', 'i', 'f', 't', '+']
        } else {
            Seq::empty()
        }) + (if self.alt {
            seq!['A', 'l', 't', '+']
        } else {
            Seq::empty()
        }) + self.key.label_spec()
    }

    pub fn label_chars(&self) -> (r: Vec<char>)
        requires
            self.wf(),
        ensures
            r@ == self.label_spec(),
    {
        let mut r: Vec<char> = Vec::new();
        if self.ctrl {
            r.push('C');
            r.push('t');
            r.push('r');
            r.push('l');
            r.push('+');
        }
        if self.shift {
            r.push('S');
            r.push('h');
            r.push('i');
            r.push('f');
            r.push('t');
            r.push('+');
        }
        if self.alt {
            r.push('A');
            r.push('l');
            r.push('t');
            r.push('+');
        }
        let mut tail = self.key.label_chars();
        r.append(&mut tail);
        assert(r@ =~= self.label_spec());
        r
    }
}

/// The code of a raw key event, as the interface reads it.
#[derive(Clone, Copy, Debug, PartialEq, Eq)]
pub enum KeyCode {
    Char(char),
    F(u8),
    Up,
    Down,
    Enter,
    Backspace,
    Esc,
    Tab,
    Other,
}

/// One raw key event: a code plus the modifier flags held with it.
#[derive(Clone, Copy, Debug, PartialEq, Eq)]
pub struct KeyInput {
    pub code: KeyCode,
    pub ctrl: bool,
    pub shift: bool,
    pub alt: bool,
}

} // verus!
