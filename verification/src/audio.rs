//! Where the sound unit's output goes.
use vstd::prelude::*;

use crate::apu::MixLevels;

verus! {

/// Mixer inputs, one entry per CPU cycle, waiting to be turned into samples.
pub struct AudioSink {
    pub levels: Vec<MixLevels>,
}

impl AudioSink {
    pub fn new() -> (sink: Self)
        ensures
            sink.levels@ == Seq::<MixLevels>::empty(),
    {
        AudioSink { levels: Vec::new() }
    }

    pub fn on_cpu_cycle(&mut self, levels: MixLevels)
        ensures
            final(self).levels@ == old(self).levels@.push(levels),
    {
        self.levels.push(levels);
    }

    /// Hands out what has gathered, oldest first.
    pub fn drain(&mut self) -> (levels: Vec<MixLevels>)
        ensures
            levels@ == old(self).levels@,
            final(self).levels@ == Seq::<MixLevels>::empty(),
    {
        let mut levels: Vec<MixLevels> = Vec::new();
        levels.append(&mut self.levels);
        assert(levels@ =~= old(self).levels@);
        levels
    }
}

} // verus!
