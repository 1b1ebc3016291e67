//! Sound requests and the sound toggle button.
//!
//! The simulation emits fire-and-forget sound requests; playing them is the
//! audio collaborator's business. The toggle button flips the global sound
//! flag once per left click routed to it, and the master volume simply
//! mirrors the flag.

use vstd::prelude::*;

verus! {

use crate::viewport::ViewportBounds;

/// Registration marker for the sound passes.
pub struct SoundsPlugin;

/// A fire-and-forget request to play one named sound.
#[derive(Clone, Copy, Debug, PartialEq, Eq, Structural)]
pub enum SoundId {
    Explosion,
}

/// A mouse button, as the click router reports it.
#[derive(Clone, Copy, Debug, PartialEq, Eq, Structural)]
pub enum MouseButton {
    Left,
    Right,
    Middle,
}

/// How many of the clicks are left-button presses.
pub open spec fn left_clicks(clicks: Seq<MouseButton>) -> int
    decreases clicks.len(),
{
    if clicks.len() == 0 {
        0
    } else {
        left_clicks(clicks.drop_last()) + if clicks.last() == MouseButton::Left {
            1int
        } else {
            0int
        }
    }
}

impl SoundsPlugin {
    /// The sound flag after the button's clicks are handled: each
    /// left-button press flips it once.
    pub fn system_handle_sound_button_clicked(sound_on: bool, clicks: &Vec<MouseButton>)
        -> (on: bool)
        ensures
            on == (sound_on == (left_clicks(clicks@) % 2 == 0)),
    {
        let mut on = sound_on;
        for i in 0..clicks.len()
            invariant
                on == (sound_on == (left_clicks(clicks@.take(i as int)) % 2 == 0)),
        {
            if matches!(clicks[i], MouseButton::Left) {
                on = !on;
            }
            proof {
                assert(clicks@.take(i + 1).drop_last() =~= clicks@.take(i as int));
            }
        }
        proof {
            assert(clicks@.take(clicks@.len() as int) =~= clicks@);
        }
        on
    }

    /// The milli-scaled master volume the flag asks for: full or muted.
    pub fn system_update_sound_volume(sound_on: bool) -> (volume: i64)
        ensures
            volume == if sound_on { 1_000int } else { 0int },
    {
        if sound_on { 1_000 } else { 0 }
    }

    /// The asset key of the button icon matching the flag.
    pub fn get_sound_button_icon(sound_on: bool) -> (key: &'static str)
        ensures
            sound_on ==> key@ == "sound_on"@,
            !sound_on ==> key@ == "sound_off"@,
    {
        if sound_on { "sound_on" } else { "sound_off" }
    }

    /// Where the sound button sits: inset from the viewport's top-left
    /// corner by a fixed offset, in micro-units.
    pub fn sound_button_position(bounds: &ViewportBounds) -> (pos: (i64, i64))
        requires
            bounds.wf(),
        ensures
            pos.0 == bounds.min_x + 150_000_000,
            pos.1 == bounds.max_y - 150_000_000,
    {
        (bounds.min_x + 150_000_000, bounds.max_y - 150_000_000)
    }
}

} // verus!
