//! Frame sets: the ordered, cyclic sequence of frames and the display
//! interval for one spinner style.
//!
//! The catalog of named styles is a collaborator outside this library; a
//! frame set is built here directly from its frames and interval.

use vstd::prelude::*;

verus! {

/// An ordered sequence of non-empty display frames and a positive
/// inter-frame interval in milliseconds.
pub struct SpinnerFrames {
    pub frames: Vec<String>,
    pub interval: u32,
}

impl SpinnerFrames {
    /// The frames as sequences of characters.
    pub open spec fn frames_view(&self) -> Seq<Seq<char>> {
        self.frames@.map_values(|s: String| s@)
    }

    /// A well-formed frame set: at least one frame, every frame non-empty,
    /// and a positive interval.
    pub open spec fn wf(&self) -> bool {
        &&& self.frames@.len() > 0
        &&& forall|i: int| 0 <= i < self.frames@.len() ==> self.frames@[i]@.len() > 0
        &&& self.interval >= 1
    }

    /// Builds a frame set from its frames and interval.
    pub fn new(frames: Vec<String>, interval: u32) -> (r: SpinnerFrames)
        requires
            frames@.len() > 0,
            forall|i: int| 0 <= i < frames@.len() ==> frames@[i]@.len() > 0,
            interval >= 1,
        ensures
            r.wf(),
            r.frames@ == frames@,
            r.interval == interval,
    {
        SpinnerFrames { frames, interval }
    }
}

impl Clone for SpinnerFrames {
    fn clone(&self) -> (r: Self)
        ensures
            r.frames@ == self.frames@,
            r.interval == self.interval,
    {
        let mut frames: Vec<String> = Vec::new();
        let mut i: usize = 0;
        while i < self.frames.len()
            invariant
                i <= self.frames@.len(),
                frames@ == self.frames@.take(i as int),
            decreases self.frames@.len() - i,
        {
            frames.push(self.frames[i].clone());
            proof {
                assert(frames@ =~= self.frames@.take(i + 1));
            }
            i = i + 1;
        }
        proof {
            assert(self.frames@.take(i as int) =~= self.frames@);
        }
        SpinnerFrames { frames, interval: self.interval }
    }
}

} // verus!
