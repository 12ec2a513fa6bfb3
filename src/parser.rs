use vstd::prelude::*;
use crate::ansi::{ClearMode, LineClearMode, TabulationClearMode};
use crate::charset::{Charset, CharsetSlot};
use crate::mode::spec_mode_of;
use crate::term::{ParseState, TermView, MAX_PARAMS, OSC_CAP};

verus! {

/// Parameter `i`, or `d` when it is missing or zero.
pub open spec fn arg(ps: Seq<u16>, i: int, d: u16) -> u16 {
    if 0 <= i < ps.len() && ps[i] != 0 {
        ps[i]
    } else {
        d
    }
}

/// `p` with decimal digit `d` appended, saturating at the largest `u16`.
pub open spec fn accumulate(p: u16, d: u8) -> u16 {
    let v = p * 10 + d;
    if v > 65535 {
        65535
    } else {
        v as u16
    }
}

/// The state after feeding `bytes` one at a time.
pub open spec fn feed_spec(s: TermView, bytes: Seq<u8>) -> TermView
    decreases bytes.len(),
{
    if bytes.len() == 0 {
        s
    } else {
        feed_spec(s, bytes.drop_last()).step(bytes.last())
    }
}

impl TermView {
    /// Back to plain text, dropping whatever sequence was being collected.
    pub open spec fn to_ground(self) -> TermView {
        TermView {
            state: ParseState::Ground,
            params: Seq::empty(),
            param: 0,
            private: false,
            osc: Seq::empty(),
            ..self
        }
    }

    /// The action of a C0 control byte; those without one leave the state alone.
    pub open spec fn execute_c0(self, b: u8) -> TermView {
        if b == 0x08 {
            self.backspace()
        } else if b == 0x09 {
            self.tab()
        } else if b == 0x0a || b == 0x0b || b == 0x0c {
            self.linefeed()
        } else if b == 0x0d {
            self.carriage_return()
        } else if b == 0x0e {
            self.select_charset(CharsetSlot::G1)
        } else if b == 0x0f {
            self.select_charset(CharsetSlot::G0)
        } else {
            self
        }
    }

    /// The byte after an escape.
    pub open spec fn esc_dispatch(self, b: u8) -> TermView {
        if b == 0x5b {
            TermView { state: ParseState::Csi, ..self }
        } else if b == 0x5d {
            TermView { state: ParseState::Osc, ..self }
        } else if b == 0x28 {
            TermView { state: ParseState::CharsetSelect(CharsetSlot::G0), ..self }
        } else if b == 0x29 {
            TermView { state: ParseState::CharsetSelect(CharsetSlot::G1), ..self }
        } else if b == 0x37 {
            self.save_cursor()
        } else if b == 0x38 {
            self.restore_cursor()
        } else if b == 0x44 {
            self.linefeed()
        } else if b == 0x45 {
            self.carriage_return().linefeed()
        } else if b == 0x4d {
            self.reverse_index()
        } else if b == 0x48 {
            self.set_tab_stop()
        } else if b == 0x63 {
            self.reset()
        } else {
            self
        }
    }

    /// Ends the parameter being collected.
    pub open spec fn push_param(self) -> TermView {
        TermView {
            params: if self.params.len() < MAX_PARAMS {
                self.params.push(self.param)
            } else {
                self.params
            },
            param: 0,
            ..self
        }
    }

    /// Sets or resets every mode that `ps` names, in order.
    pub open spec fn apply_modes(self, ps: Seq<u16>, private: bool, on: bool) -> TermView
        decreases ps.len(),
    {
        if ps.len() == 0 {
            self
        } else {
            let s = self.apply_modes(ps.drop_last(), private, on);
            match spec_mode_of(private, ps.last()) {
                Some(m) => s.set_mode(m, on),
                None => s,
            }
        }
    }

    /// The operation that final byte `f` selects, given parameters `ps`.
    pub open spec fn csi_dispatch(self, f: u8, ps: Seq<u16>, private: bool) -> TermView {
        let n = arg(ps, 0, 1);
        if private {
            if f == 0x68 {
                self.apply_modes(ps, true, true)
            } else if f == 0x6c {
                self.apply_modes(ps, true, false)
            } else {
                self
            }
        } else if f == 0x41 {
            self.move_up(n as int)
        } else if f == 0x42 {
            self.move_down(n as int)
        } else if f == 0x43 {
            self.move_forward(n as int)
        } else if f == 0x44 {
            self.move_backward(n as int)
        } else if f == 0x45 {
            self.move_down(n as int).carriage_return()
        } else if f == 0x46 {
            self.move_up(n as int).carriage_return()
        } else if f == 0x47 {
            self.move_to_col(n - 1)
        } else if f == 0x48 || f == 0x66 {
            self.move_to(n - 1, arg(ps, 1, 1) - 1)
        } else if f == 0x64 {
            self.move_to_row(n - 1)
        } else if f == 0x4a {
            let p = arg(ps, 0, 0);
            if p == 0 {
                self.clear_screen(ClearMode::Below)
            } else if p == 1 {
                self.clear_screen(ClearMode::Above)
            } else if p == 2 {
                self.clear_screen(ClearMode::All)
            } else if p == 3 {
                self.clear_screen(ClearMode::Saved)
            } else {
                self
            }
        } else if f == 0x4b {
            let p = arg(ps, 0, 0);
            if p == 0 {
                self.clear_line(LineClearMode::Right)
            } else if p == 1 {
                self.clear_line(LineClearMode::Left)
            } else if p == 2 {
                self.clear_line(LineClearMode::All)
            } else {
                self
            }
        } else if f == 0x67 {
            let p = arg(ps, 0, 0);
            if p == 0 {
                self.clear_tabs(TabulationClearMode::Current)
            } else if p == 3 {
                self.clear_tabs(TabulationClearMode::All)
            } else {
                self
            }
        } else if f == 0x68 {
            self.apply_modes(ps, false, true)
        } else if f == 0x6c {
            self.apply_modes(ps, false, false)
        } else if f == 0x6d {
            self.sgr(ps)
        } else if f == 0x72 {
            self.set_scroll_region(arg(ps, 0, 0), arg(ps, 1, 0))
        } else if f == 0x73 {
            self.save_cursor()
        } else if f == 0x75 {
            self.restore_cursor()
        } else {
            self
        }
    }

    /// A byte inside a control sequence.
    pub open spec fn csi_byte(self, b: u8) -> TermView {
        if 0x30 <= b <= 0x39 {
            TermView { param: accumulate(self.param, (b - 0x30) as u8), ..self }
        } else if b == 0x3b {
            self.push_param()
        } else if b == 0x3f && self.params.len() == 0 && self.param == 0 && !self.private {
            TermView { private: true, ..self }
        } else if 0x40 <= b <= 0x7e {
            let s = self.push_param();
            s.to_ground().csi_dispatch(b, s.params, s.private)
        } else if b == 0x7f {
            self
        } else {
            TermView { state: ParseState::CsiIgnore, ..self }
        }
    }

    pub open spec fn osc_sets_title(self) -> bool {
        let o = self.osc;
        o.len() >= 2 && (o[0] == 0x30 || o[0] == 0x32) && o[1] == 0x3b
    }

    /// Ends an operating-system command; `0;` and `2;` set the title.
    pub open spec fn finish_osc(self) -> TermView {
        if self.osc_sets_title() {
            TermView { title: self.osc.subrange(2, self.osc.len() as int), ..self }.to_ground()
        } else {
            self.to_ground()
        }
    }

    /// The state after one byte of input.
    pub open spec fn step(self, b: u8) -> TermView {
        if b == 0x1b {
            if self.state == ParseState::Osc {
                TermView { state: ParseState::OscEscape, ..self }
            } else {
                TermView { state: ParseState::Escape, ..self.to_ground() }
            }
        } else if b < 0x20 {
            if (self.state == ParseState::Osc || self.state == ParseState::OscEscape) && b == 0x07 {
                self.finish_osc()
            } else {
                self.to_ground().execute_c0(b)
            }
        } else {
            match self.state {
                ParseState::Ground => if b < 0x7f {
                    self.print(b)
                } else {
                    self
                },
                ParseState::Escape => self.to_ground().esc_dispatch(b),
                ParseState::Csi => self.csi_byte(b),
                ParseState::CsiIgnore => if 0x40 <= b <= 0x7e {
                    self.to_ground()
                } else {
                    self
                },
                ParseState::Osc => if self.osc.len() < OSC_CAP {
                    TermView { osc: self.osc.push(b), ..self }
                } else {
                    self.to_ground()
                },
                ParseState::OscEscape => if b == 0x5c {
                    self.finish_osc()
                } else {
                    self.to_ground().esc_dispatch(b)
                },
                ParseState::CharsetSelect(slot) => {
                    let g = self.to_ground();
                    if b == 0x30 {
                        g.designate(slot, Charset::LineDrawing)
                    } else if b == 0x42 {
                        g.designate(slot, Charset::Ascii)
                    } else {
                        g
                    }
                },
            }
        }
    }
}

} // verus!
