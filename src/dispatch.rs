use vstd::prelude::*;
use crate::ansi::{ClearMode, LineClearMode, TabulationClearMode};
use crate::charset::{Charset, CharsetSlot};
use crate::mode::Mode;
use crate::parser::{arg, feed_spec};
use crate::term::{ParseState, TermView, Terminal, MAX_PARAMS, OSC_CAP};

verus! {

/// Parameter `i`, or `d` when it is missing or zero.
pub fn param_or(ps: &Vec<u16>, i: usize, d: u16) -> (r: u16)
    ensures
        r == arg(ps@, i as int, d),
{
    if i < ps.len() && ps[i] != 0 {
        ps[i]
    } else {
        d
    }
}

/// The bytes of `v` from index `from` on.
fn tail_from(v: &Vec<u8>, from: usize) -> (r: Vec<u8>)
    requires
        from <= v@.len(),
    ensures
        r@ == v@.subrange(from as int, v@.len() as int),
{
    let mut t: Vec<u8> = Vec::new();
    let mut i: usize = from;
    while i < v.len()
        invariant
            from <= i <= v@.len(),
            t@ == v@.subrange(from as int, i as int),
        decreases v@.len() - i,
    {
        t.push(v[i]);
        i += 1;
        assert(t@ =~= v@.subrange(from as int, i as int));
    }
    t
}

impl Terminal {
    fn to_ground(&mut self)
        requires
            old(self)@.wf(),
        ensures
            final(self)@ == old(self)@.to_ground(),
            final(self)@.wf(),
    {
        self.state = ParseState::Ground;
        self.params.clear();
        self.param = 0;
        self.private = false;
        self.osc.clear();
        assert(self.params@ =~= Seq::<u16>::empty());
        assert(self.osc@ =~= Seq::<u8>::empty());
    }

    fn execute_c0(&mut self, b: u8)
        requires
            old(self)@.wf(),
        ensures
            final(self)@ == old(self)@.execute_c0(b),
            final(self)@.wf(),
    {
        if b == 0x08 {
            self.backspace();
        } else if b == 0x09 {
            self.tab();
        } else if b == 0x0a || b == 0x0b || b == 0x0c {
            self.linefeed();
        } else if b == 0x0d {
            self.carriage_return();
        } else if b == 0x0e {
            self.select_charset(CharsetSlot::G1);
        } else if b == 0x0f {
            self.select_charset(CharsetSlot::G0);
        }
    }

    fn esc_dispatch(&mut self, b: u8)
        requires
            old(self)@.wf(),
        ensures
            final(self)@ == old(self)@.esc_dispatch(b),
            final(self)@.wf(),
    {
        if b == 0x5b {
            self.state = ParseState::Csi;
        } else if b == 0x5d {
            self.state = ParseState::Osc;
        } else if b == 0x28 {
            self.state = ParseState::CharsetSelect(CharsetSlot::G0);
        } else if b == 0x29 {
            self.state = ParseState::CharsetSelect(CharsetSlot::G1);
        } else if b == 0x37 {
            self.save_cursor();
        } else if b == 0x38 {
            self.restore_cursor();
        } else if b == 0x44 {
            self.linefeed();
        } else if b == 0x45 {
            self.carriage_return();
            self.linefeed();
        } else if b == 0x4d {
            self.reverse_index();
        } else if b == 0x48 {
            self.set_tab_stop();
        } else if b == 0x63 {
            self.reset();
        }
    }

    fn push_param(&mut self)
        requires
            old(self)@.wf(),
        ensures
            final(self)@ == old(self)@.push_param(),
            final(self)@.wf(),
    {
        if self.params.len() < MAX_PARAMS {
            self.params.push(self.param);
        }
        self.param = 0;
    }

    /// Sets (`on`) or resets every mode that `ps` names, in order; unknown ones are skipped.
    pub fn apply_modes(&mut self, ps: &Vec<u16>, private: bool, on: bool)
        requires
            old(self)@.wf(),
        ensures
            final(self)@ == old(self)@.apply_modes(ps@, private, on),
            final(self)@.wf(),
    {
        let mut i: usize = 0;
        while i < ps.len()
            invariant
                i <= ps@.len(),
                self@.wf(),
                self@ == old(self)@.apply_modes(ps@.take(i as int), private, on),
            decreases ps@.len() - i,
        {
            assert(ps@.take(i + 1).drop_last() =~= ps@.take(i as int));
            if let Some(m) = Mode::from_param(private, ps[i]) {
                self.set_mode(m, on);
            }
            i += 1;
        }
        assert(ps@.take(ps@.len() as int) =~= ps@);
    }

    #[verifier::rlimit(60)]
    fn csi_dispatch(&mut self, f: u8, ps: &Vec<u16>, private: bool)
        requires
            old(self)@.wf(),
        ensures
            final(self)@ == old(self)@.csi_dispatch(f, ps@, private),
            final(self)@.wf(),
    {
        let n = param_or(ps, 0, 1);
        if private {
            if f == 0x68 {
                self.apply_modes(ps, true, true);
            } else if f == 0x6c {
                self.apply_modes(ps, true, false);
            }
        } else if f == 0x41 {
            self.move_up(n);
        } else if f == 0x42 {
            self.move_down(n);
        } else if f == 0x43 {
            self.move_forward(n);
        } else if f == 0x44 {
            self.move_backward(n);
        } else if f == 0x45 {
            self.move_down(n);
            self.carriage_return();
        } else if f == 0x46 {
            self.move_up(n);
            self.carriage_return();
        } else if f == 0x47 {
            self.move_to_col((n - 1) as usize);
        } else if f == 0x48 || f == 0x66 {
            let c = param_or(ps, 1, 1);
            self.move_to((n - 1) as usize, (c - 1) as usize);
        } else if f == 0x64 {
            self.move_to_row((n - 1) as usize);
        } else if f == 0x4a {
            self.erase_display(param_or(ps, 0, 0));
        } else if f == 0x4b {
            let p = param_or(ps, 0, 0);
            if p == 0 {
                self.clear_line(LineClearMode::Right);
            } else if p == 1 {
                self.clear_line(LineClearMode::Left);
            } else if p == 2 {
                self.clear_line(LineClearMode::All);
            }
        } else if f == 0x67 {
            let p = param_or(ps, 0, 0);
            if p == 0 {
                self.clear_tabs(TabulationClearMode::Current);
            } else if p == 3 {
                self.clear_tabs(TabulationClearMode::All);
            }
        } else if f == 0x68 {
            self.apply_modes(ps, false, true);
        } else if f == 0x6c {
            self.apply_modes(ps, false, false);
        } else if f == 0x6d {
            self.sgr(ps);
        } else if f == 0x72 {
            let t = param_or(ps, 0, 0);
            let b = param_or(ps, 1, 0);
            self.set_scroll_region(t, b);
        } else if f == 0x73 {
            self.save_cursor();
        } else if f == 0x75 {
            self.restore_cursor();
        }
    }

    fn erase_display(&mut self, p: u16)
        requires
            old(self)@.wf(),
        ensures
            final(self)@ == (if p == 0 {
                old(self)@.clear_screen(ClearMode::Below)
            } else if p == 1 {
                old(self)@.clear_screen(ClearMode::Above)
            } else if p == 2 {
                old(self)@.clear_screen(ClearMode::All)
            } else if p == 3 {
                old(self)@.clear_screen(ClearMode::Saved)
            } else {
                old(self)@
            }),
            final(self)@.wf(),
    {
        if p == 0 {
            self.clear_screen(ClearMode::Below);
        } else if p == 1 {
            self.clear_screen(ClearMode::Above);
        } else if p == 2 {
            self.clear_screen(ClearMode::All);
        } else if p == 3 {
            self.clear_screen(ClearMode::Saved);
        }
    }

    fn csi_byte(&mut self, b: u8)
        requires
            old(self)@.wf(),
        ensures
            final(self)@ == old(self)@.csi_byte(b),
            final(self)@.wf(),
    {
        if 0x30 <= b && b <= 0x39 {
            let v: u32 = self.param as u32 * 10 + (b - 0x30) as u32;
            self.param = if v > 65535 {
                65535
            } else {
                v as u16
            };
        } else if b == 0x3b {
            self.push_param();
        } else if b == 0x3f && self.params.len() == 0 && self.param == 0 && !self.private {
            self.private = true;
        } else if 0x40 <= b && b <= 0x7e {
            self.push_param();
            let private = self.private;
            let mut ps: Vec<u16> = Vec::new();
            std::mem::swap(&mut ps, &mut self.params);
            let ghost s = self@;
            self.params = Vec::new();
            self.to_ground();
            assert(self@ == TermView { params: ps@, ..s }.to_ground());
            self.csi_dispatch(b, &ps, private);
        } else if b != 0x7f {
            self.state = ParseState::CsiIgnore;
        }
    }

    fn finish_osc(&mut self)
        requires
            old(self)@.wf(),
        ensures
            final(self)@ == old(self)@.finish_osc(),
            final(self)@.wf(),
    {
        let n = self.osc.len();
        let titled = n >= 2 && (self.osc[0] == 0x30 || self.osc[0] == 0x32) && self.osc[1] == 0x3b;
        if titled {
            self.set_title_from_osc();
            self.to_ground();
        } else {
            self.to_ground();
        }
    }

    fn set_title_from_osc(&mut self)
        requires
            old(self)@.wf(),
            old(self)@.osc.len() >= 2,
        ensures
            final(self)@ == (TermView { title: old(self)@.osc.subrange(2, old(self)@.osc.len() as int), ..old(self)@ }),
            final(self)@.wf(),
    {
        let t = tail_from(&self.osc, 2);
        self.title = t;
    }

    /// Consumes one byte of input.
    pub fn advance(&mut self, b: u8)
        requires
            old(self)@.wf(),
        ensures
            final(self)@ == old(self)@.step(b),
            final(self)@.wf(),
    {
        if b == 0x1b {
            if self.state == ParseState::Osc {
                self.state = ParseState::OscEscape;
            } else {
                self.to_ground();
                self.state = ParseState::Escape;
            }
        } else if b < 0x20 {
            if (self.state == ParseState::Osc || self.state == ParseState::OscEscape) && b == 0x07 {
                self.finish_osc();
            } else {
                self.to_ground();
                self.execute_c0(b);
            }
        } else {
            match self.state {
                ParseState::Ground => {
                    if b < 0x7f {
                        self.print(b);
                    }
                },
                ParseState::Escape => {
                    self.to_ground();
                    self.esc_dispatch(b);
                },
                ParseState::Csi => self.csi_byte(b),
                ParseState::CsiIgnore => {
                    if 0x40 <= b && b <= 0x7e {
                        self.to_ground();
                    }
                },
                ParseState::Osc => {
                    if self.osc.len() < OSC_CAP {
                        self.osc.push(b);
                    } else {
                        self.to_ground();
                    }
                },
                ParseState::OscEscape => {
                    if b == 0x5c {
                        self.finish_osc();
                    } else {
                        self.to_ground();
                        self.esc_dispatch(b);
                    }
                },
                ParseState::CharsetSelect(slot) => {
                    self.to_ground();
                    if b == 0x30 {
                        self.designate(slot, Charset::LineDrawing);
                    } else if b == 0x42 {
                        self.designate(slot, Charset::Ascii);
                    }
                },
            }
        }
    }

    /// Consumes `bytes` in order. A sequence left unfinished at the end is carried
    /// over to the next call.
    pub fn feed(&mut self, bytes: &[u8])
        requires
            old(self)@.wf(),
        ensures
            final(self)@ == feed_spec(old(self)@, bytes@),
            final(self)@.wf(),
    {
        let mut i: usize = 0;
        while i < bytes.len()
            invariant
                i <= bytes@.len(),
                self@.wf(),
                self@ == feed_spec(old(self)@, bytes@.take(i as int)),
            decreases bytes@.len() - i,
        {
            assert(bytes@.take(i + 1).drop_last() =~= bytes@.take(i as int));
            self.advance(bytes[i]);
            i += 1;
        }
        assert(bytes@.take(bytes@.len() as int) =~= bytes@);
    }
}

} // verus!
