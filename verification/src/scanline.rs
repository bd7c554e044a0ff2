//! The scan counter: which dot of which line of which frame the picture unit
//! is at.

use vstd::prelude::*;

verus! {

/// The last dot of a line.
pub const MAX_DOT: u16 = 340;
/// The last line of a frame.
pub const MAX_LINE: u16 = 261;

/// What kind of line the picture unit is on.
#[derive(Clone, Copy, Debug, PartialEq, Eq, Structural)]
pub enum Scanline {
    /// Lines 0 to 239.
    Visible,
    /// Lines 240 to 260; `nmi` on line 241, where the vertical blank starts.
    Post { nmi: bool },
    /// Line 261.
    Pre,
}

impl Scanline {
    pub open spec fn spec_from(line: u16) -> Scanline {
        if line <= 239 {
            Scanline::Visible
        } else if line == 241 {
            Scanline::Post { nmi: true }
        } else if line <= 260 {
            Scanline::Post { nmi: false }
        } else {
            Scanline::Pre
        }
    }

    pub fn from(line: u16) -> (r: Scanline)
        requires
            line <= MAX_LINE,
        ensures
            r == Self::spec_from(line),
    {
        match line {
            0..=239 => Scanline::Visible,
            240 | 242..=260 => Scanline::Post { nmi: false },
            241 => Scanline::Post { nmi: true },
            _ => Scanline::Pre,
        }
    }
}

#[derive(Clone, Copy, Debug, PartialEq, Eq, Structural)]
pub struct Scan {
    pub dot: u16,
    pub line: u16,
    /// The frames completed so far, wrapping at 64 bits.
    pub frames: u64,
}

impl Scan {
    /// `0 <= dot <= 340` and `0 <= line <= 261`.
    pub open spec fn wf(&self) -> bool {
        self.dot <= MAX_DOT && self.line <= MAX_LINE
    }

    pub fn new() -> (r: Self)
        ensures
            r == (Scan { dot: 0, line: 0, frames: 0 }),
            r.wf(),
    {
        Scan { dot: 0, line: 0, frames: 0 }
    }

    /// Back to the first dot of the first line.
    pub fn clear(&mut self)
        ensures
            *final(self) == (Scan { dot: 0, line: 0, ..*old(self) }),
    {
        self.dot = 0;
        self.line = 0;
    }

    /// Passes over one dot of the line.
    pub fn skip(&mut self)
        requires
            old(self).dot < MAX_DOT,
        ensures
            *final(self) == (Scan { dot: (old(self).dot + 1) as u16, ..*old(self) }),
    {
        self.dot += 1;
    }

    /// The counter one dot on: the next dot, or the first dot of the next
    /// line, or that of the first line of the next frame.
    pub open spec fn after_next(self) -> Self {
        if self.dot < MAX_DOT {
            Scan { dot: (self.dot + 1) as u16, ..self }
        } else if self.line < MAX_LINE {
            Scan { dot: 0, line: (self.line + 1) as u16, ..self }
        } else {
            Scan { dot: 0, line: 0, frames: self.frames.wrapping_add(1) }
        }
    }

    /// The counter after the unit has worked one dot. While `render`, the
    /// last dot of the pre-render line of an odd frame is passed over: dot 339
    /// of line 261 is followed by the first dot of the next frame.
    pub open spec fn after_dot(self, render: bool) -> Self {
        if self.line == MAX_LINE && self.dot == MAX_DOT - 1 && render && self.frames % 2 == 1 {
            Scan { dot: 0, line: 0, frames: self.frames.wrapping_add(1) }
        } else {
            self.after_next()
        }
    }

    pub fn advance(&mut self, render: bool)
        requires
            old(self).wf(),
        ensures
            *final(self) == old(self).after_dot(render),
            final(self).wf(),
    {
        if self.line == MAX_LINE && self.dot == MAX_DOT - 1 && render && self.frames % 2 == 1 {
            // Skip the last dot of the odd frame
            self.skip();
        }
        self.next();
    }

    pub fn next(&mut self)
        requires
            old(self).wf(),
        ensures
            *final(self) == old(self).after_next(),
            final(self).wf(),
    {
        if self.dot < MAX_DOT {
            self.dot += 1;
        } else {
            self.dot = 0;
            if self.line < MAX_LINE {
                self.line += 1;
            } else {
                self.line = 0;
                self.frames = self.frames.wrapping_add(1);
            }
        }
    }
}

/// The dots of a line.
pub const LINE_DOTS: u16 = 341;
/// The dots of a frame of full length.
pub const FRAME_DOTS: u32 = 89342;

impl Scan {
    /// How many dots into the frame the counter is.
    pub open spec fn position(&self) -> int {
        self.line * LINE_DOTS + self.dot
    }

    /// The counter after the unit has worked `n` dots.
    pub open spec fn after_dots(self, render: bool, n: nat) -> Self
        decreases n,
    {
        if n == 0 {
            self
        } else {
            self.after_dots(render, (n - 1) as nat).after_dot(render)
        }
    }

    /// Whether `after` lies later in the same frame than `self`, or in the
    /// frame after it.
    pub open spec fn moved_on_to(&self, after: Self) -> bool {
        ||| after.frames == self.frames && after.position() > self.position()
        ||| after.frames == self.frames.wrapping_add(1)
    }
}

/// One dot moves the counter one position on, or to the first dot of the next
/// frame; the latter from the last dot of the frame, and from the dot before
/// it on an odd frame while rendering.
pub proof fn lemma_after_dot(s: Scan, render: bool)
    requires
        s.wf(),
    ensures
        s.after_dot(render).wf(),
        ({
            let skipped = s.position() == FRAME_DOTS - 2 && render && s.frames % 2 == 1;
            if s.position() == FRAME_DOTS - 1 || skipped {
                s.after_dot(render) == (Scan { dot: 0, line: 0, frames: s.frames.wrapping_add(1) })
            } else {
                &&& s.after_dot(render).frames == s.frames
                &&& s.after_dot(render).position() == s.position() + 1
            }
        }),
{
}

/// Fewer dots than a frame has move the counter on by as many positions
/// within the frame, or into the next frame and no further.
pub proof fn lemma_after_dots(s: Scan, render: bool, n: nat)
    requires
        s.wf(),
        n <= FRAME_DOTS - 2,
    ensures
        s.after_dots(render, n).wf(),
        ({
            let e = s.after_dots(render, n);
            ||| e.frames == s.frames && e.position() == s.position() + n
            ||| e.frames == s.frames.wrapping_add(1) && e.position() < n
        }),
        s.position() + n <= FRAME_DOTS - 2 ==> s.after_dots(render, n).frames == s.frames
            && s.after_dots(render, n).position() == s.position() + n,
    decreases n,
{
    if n > 0 {
        lemma_after_dots(s, render, (n - 1) as nat);
        lemma_after_dot(s.after_dots(render, (n - 1) as nat), render);
    }
}

/// A frame has 89342 dots; an odd frame has 89341 while rendering, for the
/// last dot of its pre-render line is passed over. So from the first dot of a
/// frame, 89340 dots lead to dot 339 of line 261; from there one dot leads
/// into the next frame if the frame is odd and rendering is on, and two dots
/// lead there otherwise.
pub proof fn law_frame_length(s: Scan, render: bool)
    requires
        s.dot == 0,
        s.line == 0,
    ensures
        s.after_dots(render, 89340) == (Scan { dot: 339, line: 261, frames: s.frames }),
        render && s.frames % 2 == 1 ==> s.after_dots(render, 89341) == (Scan {
            dot: 0,
            line: 0,
            frames: s.frames.wrapping_add(1),
        }),
        !(render && s.frames % 2 == 1) ==> s.after_dots(render, 89341) == (Scan {
            dot: 340,
            line: 261,
            frames: s.frames,
        }) && s.after_dots(render, 89342) == (Scan {
            dot: 0,
            line: 0,
            frames: s.frames.wrapping_add(1),
        }),
{
    lemma_after_dots(s, render, 89340);
    let e = s.after_dots(render, 89340);
    assert(e.line * 341 + e.dot == 89340);
    assert(e.line == 261 && e.dot == 339);
    lemma_after_dot(e, render);
    assert(s.after_dots(render, 89341) == e.after_dot(render));
    let f = s.after_dots(render, 89341);
    if !(render && s.frames % 2 == 1) {
        assert(f.position() == 89341);
        assert(f.line * 341 + f.dot == 89341);
        assert(f.line == 261 && f.dot == 340);
        lemma_after_dot(f, render);
        assert(s.after_dots(render, 89342) == f.after_dot(render));
    }
}

} // verus!
