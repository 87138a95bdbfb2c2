use vstd::prelude::*;

verus! {

/// Frame cursor of a sprite animation of `length` frames.
#[derive(Clone, Copy, Debug, PartialEq, Eq, Structural)]
pub struct Animated {
    pub current_frame: usize,
    pub length: usize,
    pub roll_forward: bool,
}

impl Animated {
    pub open spec fn wf(&self) -> bool {
        self.current_frame < self.length
    }

    /// The same animation showing frame `frame`.
    pub open spec fn at(self, frame: int) -> Animated {
        Animated { current_frame: frame as usize, ..self }
    }

    /// One step of `roll_frames`.
    pub open spec fn rolled(self) -> Animated {
        if self.roll_forward {
            if self.current_frame + 1 < self.length {
                self.at(self.current_frame + 1)
            } else {
                Animated {
                    roll_forward: false,
                    ..self.at(if self.current_frame > 0 { self.current_frame - 1 } else { 0 })
                }
            }
        } else {
            if self.current_frame > 0 {
                self.at(self.current_frame - 1)
            } else {
                Animated { roll_forward: true, ..self.at(if self.length > 1 { 1 } else { 0 }) }
            }
        }
    }

    /// One step of `cycle_frames`.
    pub open spec fn cycled(self) -> Animated {
        self.at(if self.current_frame + 1 < self.length { self.current_frame + 1 } else { 0 })
    }

    /// One step of `next_frame`.
    pub open spec fn advanced(self) -> Animated {
        if self.current_frame + 1 < self.length {
            self.at(self.current_frame + 1)
        } else {
            self
        }
    }

    pub open spec fn new_spec(length: usize) -> Animated {
        Animated { current_frame: 0, length, roll_forward: true }
    }

    /// An animation of `length` frames, at its first frame, rolling forward.
    pub fn new(length: usize) -> (r: Animated)
        requires
            length >= 1,
        ensures
            r.wf(),
            r == Animated::new_spec(length),
    {
        Animated { current_frame: 0, length, roll_forward: true }
    }

    /// Steps one frame in the current direction, turning around at either
    /// end: the frames go back and forth.
    pub fn roll_frames(&mut self)
        requires
            old(self).wf(),
        ensures
            final(self).wf(),
            *final(self) == old(self).rolled(),
    {
        if self.roll_forward {
            if !self.next_frame() {
                self.roll_forward = false;
                self.previous_frame();
            }
        } else {
            if !self.previous_frame() {
                self.roll_forward = true;
                self.next_frame();
            }
        }
    }

    /// Steps one frame back unless at the first; returns whether it moved.
    pub fn previous_frame(&mut self) -> (r: bool)
        ensures
            r == (old(self).current_frame > 0),
            *final(self) == (if r {
                old(self).at(old(self).current_frame - 1)
            } else {
                *old(self)
            }),
    {
        let cf = self.current_frame;
        if cf > 0 {
            self.current_frame = cf - 1;
            true
        } else {
            false
        }
    }

    /// Steps one frame forward, starting over after the last.
    pub fn cycle_frames(&mut self)
        requires
            old(self).wf(),
        ensures
            final(self).wf(),
            *final(self) == old(self).cycled(),
    {
        if !self.next_frame() {
            self.reset();
        }
    }

    /// Whether the last frame is showing.
    pub fn is_over(&self) -> (r: bool)
        requires
            self.wf(),
        ensures
            r == (self.current_frame + 1 >= self.length),
    {
        self.current_frame + 1 >= self.length
    }

    /// Back to the first frame.
    pub fn reset(&mut self)
        ensures
            *final(self) == old(self).at(0),
    {
        self.current_frame = 0;
    }

    /// Steps one frame forward unless at the last; returns whether it moved.
    pub fn next_frame(&mut self) -> (r: bool)
        requires
            old(self).wf(),
        ensures
            r == (old(self).current_frame + 1 < old(self).length),
            *final(self) == old(self).advanced(),
    {
        let cf = self.current_frame;
        if cf + 1 < self.length {
            self.current_frame = cf + 1;
            true
        } else {
            false
        }
    }
}

} // verus!
