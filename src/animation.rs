use vstd::arithmetic::div_mod::{lemma_mod_self_0, lemma_small_mod};
use vstd::prelude::*;

verus! {

/// A cycle through sprite tiles: each tile is shown for `delay_us` microseconds,
/// then the next one, back to the first after the last.
pub struct Animation {
    frames: Vec<usize>,
    delay_us: u64,
    elapsed_us: u64,
    position: usize,
}

impl Animation {
    /// The tiles of the cycle.
    pub closed spec fn frames(&self) -> Seq<usize> {
        self.frames@
    }

    /// How long each tile is shown.
    pub closed spec fn delay(&self) -> nat {
        self.delay_us as nat
    }

    /// Time spent on the current tile so far.
    pub closed spec fn elapsed(&self) -> nat {
        self.elapsed_us as nat
    }

    /// Which tile of the cycle is current.
    pub closed spec fn position(&self) -> nat {
        self.position as nat
    }

    /// A cycle has at least one tile, its position names one, and less than one
    /// delay has passed on it (or none at all, where the delay is zero).
    pub open spec fn wf(&self) -> bool {
        &&& self.frames().len() > 0
        &&& self.position() < self.frames().len()
        &&& self.elapsed() < self.delay() || self.elapsed() == 0
    }

    /// A cycle over `frames` that starts on the first with no time spent on it.
    pub fn new(frames: Vec<usize>, delay_us: u64) -> (r: Animation)
        requires
            frames@.len() > 0,
        ensures
            r.wf(),
            r.frames() == frames@,
            r.delay() == delay_us,
            r.elapsed() == 0,
            r.position() == 0,
    {
        Animation { frames, delay_us, elapsed_us: 0, position: 0 }
    }

    /// The tile shown now.
    pub fn current(&self) -> (r: usize)
        requires
            self.wf(),
        ensures
            r == self.frames()[self.position() as int],
    {
        self.frames[self.position]
    }

    /// Lets `delta_us` microseconds pass. Once the time on the current tile reaches
    /// the delay, the cycle moves on to the next tile and starts timing it afresh;
    /// it moves on by at most one tile per call. Returns the tile shown afterwards.
    pub fn tick(&mut self, delta_us: u64) -> (r: usize)
        requires
            old(self).wf(),
        ensures
            final(self).wf(),
            final(self).frames() == old(self).frames(),
            final(self).delay() == old(self).delay(),
            old(self).elapsed() + delta_us >= old(self).delay() ==> {
                &&& final(self).position() == (old(self).position() + 1) % old(
                    self,
                ).frames().len()
                &&& final(self).elapsed() == 0
            },
            old(self).elapsed() + delta_us < old(self).delay() ==> {
                &&& final(self).position() == old(self).position()
                &&& final(self).elapsed() == old(self).elapsed() + delta_us
            },
            r == final(self).frames()[final(self).position() as int],
    {
        if delta_us >= self.delay_us - self.elapsed_us {
            let len: usize = self.frames.len();
            self.elapsed_us = 0;
            if self.position + 1 < len {
                self.position = self.position + 1;
                proof {
                    lemma_small_mod(self.position(), len as nat);
                }
            } else {
                self.position = 0;
                proof {
                    lemma_mod_self_0(len as int);
                }
            }
        } else {
            self.elapsed_us = self.elapsed_us + delta_us;
        }
        self.frames[self.position]
    }
}

} // verus!
