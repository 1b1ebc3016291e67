//! The splash screen's decisions: a full-screen click listener and the
//! transition into the game on any click.

use vstd::prelude::*;

verus! {

use crate::app::AppState;
use crate::sounds::MouseButton;
use crate::viewport::ViewportBounds;

/// Registration marker for the splash passes.
#[derive(Debug)]
pub struct SplashPlugin;

/// Marker attribute for entities cleaned up when the splash screen ends.
#[derive(Debug, Clone, Copy, PartialEq, Eq, Structural)]
pub struct SplashCleanup;

/// Marker attribute for the splash screen's click listener.
#[derive(Debug, Clone, Copy, PartialEq, Eq, Structural)]
pub struct SplashClickListener;

impl SplashPlugin {
    /// The hit radius of the splash click listener: the larger half-extent
    /// of the viewport, so it covers the whole screen.
    pub fn splash_listener_radius(bounds: &ViewportBounds) -> (radius: i64)
        requires
            bounds.wf(),
        ensures
            radius == if (bounds.max_x - bounds.min_x) / 2 >= (bounds.max_y - bounds.min_y) / 2 {
                (bounds.max_x - bounds.min_x) / 2int
            } else {
                (bounds.max_y - bounds.min_y) / 2int
            },
            radius >= 0,
    {
        let half_x = ((bounds.max_x - bounds.min_x) as u64 / 2) as i64;
        let half_y = ((bounds.max_y - bounds.min_y) as u64 / 2) as i64;
        if half_x >= half_y { half_x } else { half_y }
    }

    /// Any click on the splash screen starts the game; without one the
    /// state stays put.
    pub fn system_handle_click(clicks: &Vec<MouseButton>) -> (next: Option<AppState>)
        ensures
            clicks@.len() > 0 <==> next == Some(AppState::InGame),
            clicks@.len() == 0 <==> next is None,
    {
        if clicks.len() > 0 {
            Some(AppState::InGame)
        } else {
            None
        }
    }
}

} // verus!
