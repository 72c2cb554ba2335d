//! The generation count of a drawing setting that a sentinel undoes when it is dropped, such as
//! the stencil.
use vstd::prelude::*;

verus! {

/// Counts how many times a drawing setting was made. Each setting gets the next generation, and
/// its sentinel undoes the setting on drop only while that generation is still the current one,
/// so that it does not undo a setting made after it.
#[derive(Debug, Copy, Clone)]
pub struct SettingGeneration {
    current: usize,
}

impl SettingGeneration {
    /// The generation of the last setting made, or 0 before any.
    pub closed spec fn current_spec(&self) -> usize {
        self.current
    }

    /// No setting made yet.
    pub fn new() -> (r: Self)
        ensures
            r.current_spec() == 0,
    {
        SettingGeneration { current: 0 }
    }

    /// Whether another setting can be counted: the generations are not exhausted.
    pub fn can_set(&self) -> (r: bool)
        ensures
            r == (self.current_spec() < usize::MAX),
    {
        self.current < usize::MAX
    }

    /// Counts a new setting and returns its generation, which is then the current one; being
    /// larger than every earlier generation, it makes each of them stop being current.
    pub fn set(&mut self) -> (r: usize)
        requires
            old(self).current_spec() < usize::MAX,
        ensures
            r == old(self).current_spec() + 1,
            final(self).current_spec() == r,
    {
        self.current = self.current + 1;
        self.current
    }

    /// Whether the sentinel of the setting of `generation` undoes the setting when dropped: no
    /// other setting was made since.
    pub fn is_current(&self, generation: usize) -> (r: bool)
        ensures
            r == (generation == self.current_spec()),
    {
        generation == self.current
    }
}

} // verus!
