//! The combined configuration record and its per-consumer parts.
//!
//! Parsing the on-disk tuning document is the configuration collaborator's
//! business; the simulation receives the typed record and splits it into
//! the per-subsystem resources.

use vstd::prelude::*;

verus! {

use crate::loading::AssetsConfig;
use crate::player::PlayerConfig;
use crate::viewport::ViewportConfig;

/// Registration marker for the configuration passes.
pub struct ConfigPlugin;

/// Loader marker for the on-disk tuning document; the parse itself happens
/// at the loading boundary, outside the simulation.
#[derive(Debug, Clone, Copy, PartialEq, Eq, Structural, Default)]
pub struct ConfigLoader;

/// Everything the tuning document configures.
#[derive(Debug, Clone)]
pub struct Config {
    pub assets: AssetsConfig,
    pub player: PlayerConfig,
    pub viewport: ViewportConfig,
}

impl Config {
    /// Split a fresh configuration into the per-subsystem resources it
    /// replaces wholesale.
    pub fn system_handle_config_change(self)
        -> (out: (AssetsConfig, PlayerConfig, ViewportConfig))
        ensures
            out.0 == self.assets,
            out.1 == self.player,
            out.2 == self.viewport,
    {
        (self.assets, self.player, self.viewport)
    }
}

} // verus!
