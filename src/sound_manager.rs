use vstd::prelude::*;

verus! {

/// Names one of the game's sound assets.
#[derive(Clone, Copy, PartialEq, Eq, Debug, Hash, Structural)]
pub struct SoundId(pub u32);

/// Which theme loops in the background, and whether sound is on at all.
#[derive(Clone, Copy, PartialEq, Eq, Debug, Structural)]
pub struct SoundManagerRuntimeData {
    pub enable: bool,
    pub current_main_theme: Option<SoundId>,
}

impl SoundManagerRuntimeData {
    pub fn new(enable: bool) -> (r: SoundManagerRuntimeData)
        ensures
            r.enable == enable,
            r.current_main_theme is None,
    {
        SoundManagerRuntimeData { enable, current_main_theme: None }
    }

    /// Switches the looping theme to `target`. Returns whether the mixer must
    /// stop the current theme and start `target`: not when sound is off, nor
    /// when `target` already plays.
    pub fn change_main_sound(&mut self, target: SoundId) -> (r: bool)
        ensures
            r == (old(self).enable && old(self).current_main_theme != Some(target)),
            r ==> final(self).current_main_theme == Some(target),
            final(self).enable == old(self).enable,
            !r ==> *final(self) == *old(self),
    {
        if !self.enable {
            return false;
        }
        if self.current_main_theme == Some(target) {
            return false;
        }
        self.current_main_theme = Some(target);
        true
    }

    /// Whether a one-shot effect is played.
    pub fn play_sound_effect(&self) -> (r: bool)
        ensures
            r == self.enable,
    {
        self.enable
    }
}

} // verus!
