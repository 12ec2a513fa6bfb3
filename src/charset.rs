use vstd::prelude::*;

verus! {

/// A character set that printable bytes are mapped through.
#[derive(Debug, Eq, PartialEq, Structural, Copy, Clone)]
pub enum Charset {
    /// The identity mapping.
    Ascii,
    /// DEC Special Graphics: `j` to `x` become box-drawing glyphs.
    LineDrawing,
}

/// One of the two addressable charset slots.
#[derive(Debug, Eq, PartialEq, Structural, Copy, Clone)]
pub enum CharsetSlot {
    G0,
    G1,
}

/// The two slots and which of them applies to printable bytes.
#[derive(Debug, Eq, PartialEq, Structural, Copy, Clone)]
pub struct Charsets {
    pub g0: Charset,
    pub g1: Charset,
    pub active: CharsetSlot,
}

pub open spec fn default_charsets() -> Charsets {
    Charsets { g0: Charset::Ascii, g1: Charset::Ascii, active: CharsetSlot::G0 }
}

/// The glyph that the line-drawing set shows for `b`.
pub open spec fn line_drawing(b: u8) -> char {
    if b == 0x6a {
        '\u{2518}'
    } else if b == 0x6b {
        '\u{2510}'
    } else if b == 0x6c {
        '\u{250c}'
    } else if b == 0x6d {
        '\u{2514}'
    } else if b == 0x6e {
        '\u{253c}'
    } else if b == 0x6f {
        '\u{23ba}'
    } else if b == 0x70 {
        '\u{23bb}'
    } else if b == 0x71 {
        '\u{2500}'
    } else if b == 0x72 {
        '\u{23bc}'
    } else if b == 0x73 {
        '\u{23bd}'
    } else if b == 0x74 {
        '\u{251c}'
    } else if b == 0x75 {
        '\u{2524}'
    } else if b == 0x76 {
        '\u{2534}'
    } else if b == 0x77 {
        '\u{252c}'
    } else if b == 0x78 {
        '\u{2502}'
    } else {
        b as char
    }
}

pub open spec fn map_byte(cs: Charset, b: u8) -> char {
    match cs {
        Charset::Ascii => b as char,
        Charset::LineDrawing => line_drawing(b),
    }
}

impl Charsets {
    pub open spec fn current(self) -> Charset {
        match self.active {
            CharsetSlot::G0 => self.g0,
            CharsetSlot::G1 => self.g1,
        }
    }

    /// The character that `b` stands for under the active slot.
    pub open spec fn spec_translate(self, b: u8) -> char {
        map_byte(self.current(), b)
    }

    pub open spec fn designated(self, slot: CharsetSlot, cs: Charset) -> Charsets {
        match slot {
            CharsetSlot::G0 => Charsets { g0: cs, ..self },
            CharsetSlot::G1 => Charsets { g1: cs, ..self },
        }
    }

    pub fn new() -> (r: Charsets)
        ensures
            r == default_charsets(),
    {
        Charsets { g0: Charset::Ascii, g1: Charset::Ascii, active: CharsetSlot::G0 }
    }

    /// Binds `cs` to `slot`.
    pub fn designate(&mut self, slot: CharsetSlot, cs: Charset)
        ensures
            *final(self) == old(self).designated(slot, cs),
    {
        match slot {
            CharsetSlot::G0 => self.g0 = cs,
            CharsetSlot::G1 => self.g1 = cs,
        }
    }

    /// Makes `slot` the one that applies to printable bytes.
    pub fn select_active(&mut self, slot: CharsetSlot)
        ensures
            *final(self) == (Charsets { active: slot, ..*old(self) }),
    {
        self.active = slot;
    }

    /// Maps a printable byte through the active slot's charset.
    pub fn translate(&self, b: u8) -> (r: char)
        ensures
            r == self.spec_translate(b),
    {
        let cs = match self.active {
            CharsetSlot::G0 => self.g0,
            CharsetSlot::G1 => self.g1,
        };
        match cs {
            Charset::Ascii => b as char,
            Charset::LineDrawing => {
                if b == 0x6a {
                    '\u{2518}'
                } else if b == 0x6b {
                    '\u{2510}'
                } else if b == 0x6c {
                    '\u{250c}'
                } else if b == 0x6d {
                    '\u{2514}'
                } else if b == 0x6e {
                    '\u{253c}'
                } else if b == 0x6f {
                    '\u{23ba}'
                } else if b == 0x70 {
                    '\u{23bb}'
                } else if b == 0x71 {
                    '\u{2500}'
                } else if b == 0x72 {
                    '\u{23bc}'
                } else if b == 0x73 {
                    '\u{23bd}'
                } else if b == 0x74 {
                    '\u{251c}'
                } else if b == 0x75 {
                    '\u{2524}'
                } else if b == 0x76 {
                    '\u{2534}'
                } else if b == 0x77 {
                    '\u{252c}'
                } else if b == 0x78 {
                    '\u{2502}'
                } else {
                    b as char
                }
            },
        }
    }
}

} // verus!
