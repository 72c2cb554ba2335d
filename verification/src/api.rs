//! System settings: the values the device takes and reports for them.
use vstd::prelude::*;

verus! {

/// The state of the auto-lock system.
#[derive(Debug, Copy, Clone, PartialEq, Eq, Structural)]
pub enum AutoLock {
    /// The auto-lock is disabled. The device will not lock when idle.
    Disabled,
    /// The auto-lock is enabled, and will lock when idle.
    Enabled,
}

/// Whether using the crank makes sounds when docked or undocked.
#[derive(Debug, Copy, Clone, PartialEq, Eq, Structural)]
pub enum CrankSounds {
    /// The crank is silent, in case the application wishes to provide their own sound effects.
    Silent,
    /// The crank makes sounds when docked or undocked.
    DockingSounds,
}

/// The value the device takes to disable (1) or enable (0) the auto-lock.
pub fn auto_lock_disabled_flag(val: AutoLock) -> (r: i32)
    ensures
        r == (if val == AutoLock::Disabled {
            1i32
        } else {
            0i32
        }),
{
    match val {
        AutoLock::Disabled => 1,
        AutoLock::Enabled => 0,
    }
}

/// The device's value for a crank sounds setting: 1 silences the docking sounds, 0 plays them.
pub open spec fn crank_sounds_flag_spec(val: CrankSounds) -> i32 {
    if val == CrankSounds::Silent {
        1
    } else {
        0
    }
}

/// The crank sounds setting that a device value stands for: zero means the docking sounds play,
/// anything else that they are silenced.
pub open spec fn crank_sounds_from_flag_spec(flag: i32) -> CrankSounds {
    if flag == 0 {
        CrankSounds::DockingSounds
    } else {
        CrankSounds::Silent
    }
}

/// The value the device takes to silence (1) or play (0) the crank docking sounds.
pub fn crank_sounds_disabled_flag(val: CrankSounds) -> (r: i32)
    ensures
        r == crank_sounds_flag_spec(val),
{
    match val {
        CrankSounds::Silent => 1,
        CrankSounds::DockingSounds => 0,
    }
}

/// The setting that the device reports as the previous value of the crank sounds setting: zero
/// means the docking sounds played, anything else that they were silenced.
pub fn crank_sounds_from_flag(previous: i32) -> (r: CrankSounds)
    ensures
        r == crank_sounds_from_flag_spec(previous),
{
    match previous {
        0 => CrankSounds::DockingSounds,
        _ => CrankSounds::Silent,
    }
}

/// Reading back the crank sounds setting that was written gives the same setting.
pub proof fn lemma_crank_sounds_round_trip(val: CrankSounds)
    ensures
        crank_sounds_from_flag_spec(crank_sounds_flag_spec(val)) == val,
{
}

/// The offset of the menu image: `xoffset` clamped to between 0 and 200.
pub fn menu_image_xoffset(xoffset: i32) -> (r: i32)
    ensures
        r == (if xoffset < 0 {
            0
        } else if xoffset > 200 {
            200
        } else {
            xoffset
        }),
{
    if xoffset < 0 {
        0
    } else if xoffset > 200 {
        200
    } else {
        xoffset
    }
}

/// Whether `scale` is a display scale factor the device supports: 1, 2, 4 or 8.
pub fn display_scale_is_valid(scale: u32) -> (r: bool)
    ensures
        r == (scale == 1 || scale == 2 || scale == 4 || scale == 8),
{
    scale == 1 || scale == 2 || scale == 4 || scale == 8
}

/// Whether `(x, y)` is a mosaic effect the device supports: both between 0 and 3, inclusive.
pub fn display_mosaic_is_valid(x: u32, y: u32) -> (r: bool)
    ensures
        r == (x <= 3 && y <= 3),
{
    x <= 3 && y <= 3
}

/// Whether the one high resolution timer of the device is in use: multiple timers would clobber
/// each other inside the device, so only one can be active at a time.
#[derive(Debug, Copy, Clone)]
pub struct TimerState {
    active: bool,
}

impl TimerState {
    /// Whether a timer is active.
    pub closed spec fn active_spec(&self) -> bool {
        self.active
    }

    /// No timer active.
    pub fn new() -> (r: Self)
        ensures
            !r.active_spec(),
    {
        TimerState { active: false }
    }

    /// Starts the timer. Returns false, changing nothing, if a timer is already active: starting
    /// a second one is an error.
    pub fn start(&mut self) -> (r: bool)
        ensures
            r == !old(self).active_spec(),
            final(self).active_spec(),
    {
        if self.active {
            false
        } else {
            self.active = true;
            true
        }
    }

    /// Finishes the active timer, after which another can be started.
    pub fn finish(&mut self)
        ensures
            !final(self).active_spec(),
    {
        self.active = false;
    }
}

} // verus!
